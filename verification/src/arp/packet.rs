//! The zero-copy ARP packet view: one borrowed byte slice, interpreted as a
//! request or a response by the operation field, read once at construction.

use vstd::prelude::*;

use crate::address::{HardwareFromBytes, ProtocolFromBytes};
use crate::arp::operation::Operation;
use crate::arp::request;
use crate::arp::response;
use crate::error::Error;
use crate::size::{Max, Min, Size};
use crate::wire::{be16_at, read_u16_be};

verus! {

/// The fixed number of bytes an ARP header occupies with the view's 6-octet
/// hardware and 4-octet protocol addresses.
pub const ARP_PACKET_SIZE: usize = 28;

/// The operation code held at offset 6 of a header.
pub open spec fn operation_code(s: Seq<u8>) -> u16 {
    be16_at(s, 6)
}

/// An ARP packet view: a request or a response, picked by the operation
/// field when the view is made and never re-classified.
#[derive(Debug)]
pub enum Packet<'a, M, I> {
    /// A request view, operation code 1.
    Request(request::Packet<'a, M, I>),
    /// A response view, operation code 2.
    Response(response::Packet<'a, M, I>),
}

impl<'a, M, I> Packet<'a, M, I> where M: HardwareFromBytes, I: ProtocolFromBytes {
    /// The bytes the view reads.
    pub open spec fn bytes(&self) -> Seq<u8> {
        match self {
            Packet::Request(p) => p.bytes(),
            Packet::Response(p) => p.bytes(),
        }
    }

    /// Makes a view over `buffer` without checking its size; the caller is
    /// responsible for having validated it, and for the operation code
    /// being one the protocol knows.
    pub fn unchecked(buffer: &'a [u8]) -> (p: Packet<'a, M, I>)
        requires
            buffer@.len() >= 28,
            operation_code(buffer@) == 1 || operation_code(buffer@) == 2,
        ensures
            p.bytes() == buffer@,
            p is Request <==> operation_code(buffer@) == 1,
            p is Response <==> operation_code(buffer@) == 2,
    {
        let op = read_u16_be(buffer, 6);
        match Operation::from_code(op) {
            Operation::Request => Packet::Request(request::Packet::unchecked(buffer)),
            Operation::Reply => Packet::Response(response::Packet::unchecked(buffer)),
            Operation::Unknown(_) => vstd::pervasive::unreached(),
        }
    }

    /// Makes a view over `buffer`, rejecting a slice shorter than the fixed
    /// minimum and an operation code the protocol does not know.
    pub fn new(buffer: &'a [u8]) -> (r: Result<Packet<'a, M, I>, Error>)
        ensures
            match r {
                Ok(p) => {
                    &&& buffer@.len() >= 28
                    &&& p.bytes() == buffer@
                    &&& (p is Request <==> operation_code(buffer@) == 1)
                    &&& (p is Response <==> operation_code(buffer@) == 2)
                },
                Err(e) => (if buffer@.len() < 28 {
                    e == Error::SmallBuffer
                } else {
                    &&& e == Error::InvalidPacket
                    &&& operation_code(buffer@) != 1
                    &&& operation_code(buffer@) != 2
                }),
            },
    {
        if buffer.len() < ARP_PACKET_SIZE {
            return Err(Error::SmallBuffer);
        }
        let op = read_u16_be(buffer, 6);
        match Operation::from_code(op) {
            Operation::Request => Ok(Packet::Request(request::Packet::unchecked(buffer))),
            Operation::Reply => Ok(Packet::Response(response::Packet::unchecked(buffer))),
            Operation::Unknown(_) => Err(Error::InvalidPacket),
        }
    }

    /// The operation the view was classified as.
    pub fn operation(&self) -> (op: Operation)
        ensures
            op == (match self {
                Packet::Request(_) => Operation::Request,
                Packet::Response(_) => Operation::Reply,
            }),
    {
        match self {
            Packet::Request(_) => Operation::Request,
            Packet::Response(_) => Operation::Reply,
        }
    }
}

impl<'a, M, I> Min for Packet<'a, M, I> where M: HardwareFromBytes, I: ProtocolFromBytes {
    fn min() -> (n: usize)
        ensures
            n == 28,
    {
        ARP_PACKET_SIZE
    }
}

impl<'a, M, I> Max for Packet<'a, M, I> where M: HardwareFromBytes, I: ProtocolFromBytes {
    fn max() -> (n: usize)
        ensures
            n == 28,
    {
        ARP_PACKET_SIZE
    }
}

impl<'a, M, I> Size for Packet<'a, M, I> where M: HardwareFromBytes, I: ProtocolFromBytes {
    fn size(&self) -> (n: usize)
        ensures
            n == 28,
    {
        ARP_PACKET_SIZE
    }
}

} // verus!
