//! A small framework for building and parsing fixed-layout network protocol
//! headers over byte buffers: staged builders with deferred finalization on
//! the write side, and zero-copy typed views on the read side. The Address
//! Resolution Protocol (ARP) is the concrete protocol implemented on top.

pub mod address;
pub mod arp;
pub mod buffer;
pub mod builder;
pub mod error;
pub mod size;
pub mod wire;

pub use arp::{
    Builder, Operation, Packet, RequestBuilder, RequestPacket, ResponseBuilder, ResponsePacket,
};
pub use error::Error;
