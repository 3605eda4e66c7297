//! The address capability the builders and packet views are generic over:
//! hardware (link-layer) and protocol (network-layer) address families, each
//! reporting a wire type code, an octet length and the octets themselves,
//! together with the concrete Ethernet MAC and IPv4 types.

use vstd::prelude::*;

verus! {

/// A link-layer address family and its 16-bit wire code.
#[derive(Clone, Copy, Debug, PartialEq, Eq, Structural)]
pub enum DataLink {
    /// Ethernet, wire code 0x0001.
    Ethernet,
    /// Any other family, carrying its wire code through unchanged.
    Unknown(u16),
}

impl DataLink {
    /// The family a hardware-address-space wire code names.
    pub fn from_code(value: u16) -> (d: DataLink)
        ensures
            d == (if value == 0x0001 {
                DataLink::Ethernet
            } else {
                DataLink::Unknown(value)
            }),
    {
        match value {
            0x0001 => DataLink::Ethernet,
            v => DataLink::Unknown(v),
        }
    }

    /// The family's wire code and default octet length; an unknown family
    /// reports length 0, meaning no length can be derived from it.
    pub fn code_and_len(self) -> (r: (u16, u8))
        ensures
            r == (match self {
                DataLink::Ethernet => (0x0001u16, 6u8),
                DataLink::Unknown(v) => (v, 0u8),
            }),
    {
        match self {
            DataLink::Ethernet => (0x0001, 6),
            DataLink::Unknown(v) => (v, 0),
        }
    }
}

impl Default for DataLink {
    fn default() -> (d: DataLink)
        ensures
            d == DataLink::Ethernet,
    {
        DataLink::Ethernet
    }
}

/// A network-layer address family and its 16-bit wire code.
#[derive(Clone, Copy, Debug, PartialEq, Eq, Structural)]
pub enum Protocol {
    /// IPv4, wire code 0x0800.
    IPv4,
    /// Any other family, carrying its wire code through unchanged.
    Unknown(u16),
}

impl Protocol {
    /// The family a protocol-address-space wire code names.
    pub fn from_code(value: u16) -> (p: Protocol)
        ensures
            p == (if value == 0x0800 {
                Protocol::IPv4
            } else {
                Protocol::Unknown(value)
            }),
    {
        match value {
            0x0800 => Protocol::IPv4,
            v => Protocol::Unknown(v),
        }
    }

    /// The family's wire code and default octet length; an unknown family
    /// reports length 0, meaning no length can be derived from it.
    pub fn code_and_len(self) -> (r: (u16, u8))
        ensures
            r == (match self {
                Protocol::IPv4 => (0x0800u16, 4u8),
                Protocol::Unknown(v) => (v, 0u8),
            }),
    {
        match self {
            Protocol::IPv4 => (0x0800, 4),
            Protocol::Unknown(v) => (v, 0),
        }
    }
}

impl Default for Protocol {
    fn default() -> (p: Protocol)
        ensures
            p == Protocol::IPv4,
    {
        Protocol::IPv4
    }
}

/// What the builders need of a hardware address: its family and its octets.
/// An implementing type always has between 1 and 6 octets; zero-length
/// addresses (the unknown-family default) are rejected at this boundary.
pub trait HardwareAddress: Sized {
    /// The address's octets.
    spec fn spec_octets(&self) -> Seq<u8>;

    /// The address's family.
    spec fn spec_addr_type(&self) -> DataLink;

    /// The octet count is positive and within the protocol's cap of 6.
    proof fn octets_len_valid(&self)
        ensures
            1 <= self.spec_octets().len() <= 6,
    ;

    /// The number of octets.
    fn len(&self) -> (n: usize)
        ensures
            n == self.spec_octets().len(),
    ;

    /// The address's family.
    fn addr_type(&self) -> (t: DataLink)
        ensures
            t == self.spec_addr_type(),
    ;

    /// The octets, in wire order.
    fn octets(&self) -> (v: Vec<u8>)
        ensures
            v@ == self.spec_octets(),
    ;
}

/// What the builders need of a protocol address; octet count capped at 4.
pub trait ProtocolAddress: Sized {
    /// The address's octets.
    spec fn spec_octets(&self) -> Seq<u8>;

    /// The address's family.
    spec fn spec_addr_type(&self) -> Protocol;

    /// The octet count is positive and within the protocol's cap of 4.
    proof fn octets_len_valid(&self)
        ensures
            1 <= self.spec_octets().len() <= 4,
    ;

    /// The number of octets.
    fn len(&self) -> (n: usize)
        ensures
            n == self.spec_octets().len(),
    ;

    /// The address's family.
    fn addr_type(&self) -> (t: Protocol)
        ensures
            t == self.spec_addr_type(),
    ;

    /// The octets, in wire order.
    fn octets(&self) -> (v: Vec<u8>)
        ensures
            v@ == self.spec_octets(),
    ;
}

/// What the zero-copy packet views need in addition: rebuilding a hardware
/// address from the 6-byte range the wire layout fixes for it.
pub trait HardwareFromBytes: HardwareAddress {
    /// The address whose octets are `bytes`.
    fn from_bytes(bytes: &[u8]) -> (a: Self)
        requires
            bytes@.len() == 6,
        ensures
            a.spec_octets() == bytes@,
    ;
}

/// Rebuilding a protocol address from its fixed 4-byte wire range.
pub trait ProtocolFromBytes: ProtocolAddress {
    /// The address whose octets are `bytes`.
    fn from_bytes(bytes: &[u8]) -> (a: Self)
        requires
            bytes@.len() == 4,
        ensures
            a.spec_octets() == bytes@,
    ;
}

/// A 6-octet Ethernet MAC address.
#[derive(Clone, Copy, Debug, PartialEq, Eq)]
pub struct MacAddr {
    octets: [u8; 6],
}

impl MacAddr {
    /// The address with the given octets, in wire order.
    pub fn new(octets: [u8; 6]) -> (a: MacAddr)
        ensures
            a.spec_octets() == octets@,
    {
        MacAddr { octets }
    }
}

impl HardwareAddress for MacAddr {
    closed spec fn spec_octets(&self) -> Seq<u8> {
        self.octets@
    }

    open spec fn spec_addr_type(&self) -> DataLink {
        DataLink::Ethernet
    }

    proof fn octets_len_valid(&self) {
    }

    fn len(&self) -> (n: usize) {
        6
    }

    fn addr_type(&self) -> (t: DataLink) {
        DataLink::Ethernet
    }

    fn octets(&self) -> (v: Vec<u8>) {
        let mut v: Vec<u8> = Vec::new();
        v.push(self.octets[0]);
        v.push(self.octets[1]);
        v.push(self.octets[2]);
        v.push(self.octets[3]);
        v.push(self.octets[4]);
        v.push(self.octets[5]);
        proof {
            assert(v@ =~= self.octets@);
        }
        v
    }
}

impl HardwareFromBytes for MacAddr {
    fn from_bytes(bytes: &[u8]) -> (a: MacAddr) {
        let octets: [u8; 6] = [
            *vstd::slice::slice_index_get(bytes, 0),
            *vstd::slice::slice_index_get(bytes, 1),
            *vstd::slice::slice_index_get(bytes, 2),
            *vstd::slice::slice_index_get(bytes, 3),
            *vstd::slice::slice_index_get(bytes, 4),
            *vstd::slice::slice_index_get(bytes, 5),
        ];
        proof {
            assert(octets@ =~= bytes@);
        }
        MacAddr { octets }
    }
}

/// A 4-octet IPv4 address.
#[derive(Clone, Copy, Debug, PartialEq, Eq)]
pub struct Ipv4Addr {
    octets: [u8; 4],
}

impl Ipv4Addr {
    /// The address `a.b.c.d`.
    pub fn new(a: u8, b: u8, c: u8, d: u8) -> (r: Ipv4Addr)
        ensures
            r.spec_octets() == seq![a, b, c, d],
    {
        let octets: [u8; 4] = [a, b, c, d];
        proof {
            assert(octets@ =~= seq![a, b, c, d]);
        }
        Ipv4Addr { octets }
    }
}

impl ProtocolAddress for Ipv4Addr {
    closed spec fn spec_octets(&self) -> Seq<u8> {
        self.octets@
    }

    open spec fn spec_addr_type(&self) -> Protocol {
        Protocol::IPv4
    }

    proof fn octets_len_valid(&self) {
    }

    fn len(&self) -> (n: usize) {
        4
    }

    fn addr_type(&self) -> (t: Protocol) {
        Protocol::IPv4
    }

    fn octets(&self) -> (v: Vec<u8>) {
        let mut v: Vec<u8> = Vec::new();
        v.push(self.octets[0]);
        v.push(self.octets[1]);
        v.push(self.octets[2]);
        v.push(self.octets[3]);
        proof {
            assert(v@ =~= self.octets@);
        }
        v
    }
}

impl ProtocolFromBytes for Ipv4Addr {
    fn from_bytes(bytes: &[u8]) -> (a: Ipv4Addr) {
        let octets: [u8; 4] = [
            *vstd::slice::slice_index_get(bytes, 0),
            *vstd::slice::slice_index_get(bytes, 1),
            *vstd::slice::slice_index_get(bytes, 2),
            *vstd::slice::slice_index_get(bytes, 3),
        ];
        proof {
            assert(octets@ =~= bytes@);
        }
        Ipv4Addr { octets }
    }
}

} // verus!
