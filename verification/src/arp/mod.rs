//! The Address Resolution Protocol: staged request and response builders on
//! the write side, zero-copy packet views on the read side.

pub mod builder;
pub mod fields;
pub mod operation;
pub mod packet;
pub mod request;
pub mod response;

pub use builder::Builder;
pub use operation::Operation;
pub use packet::Packet;
pub use request::Builder as RequestBuilder;
pub use request::Packet as RequestPacket;
pub use response::Builder as ResponseBuilder;
pub use response::Packet as ResponsePacket;
