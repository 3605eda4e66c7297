//! The shared header field codec: the fixed offsets of the ARP header's
//! type, length and operation fields, the spec-level transformations each
//! write performs, and the verified functions that stamp the fields into a
//! buffer.

use vstd::prelude::*;

use crate::address::{DataLink, HardwareAddress, Protocol, ProtocolAddress};
use crate::buffer::Buffer;
use crate::wire::{seq_write, seq_write_u16, zero_bytes};

verus! {

/// Wire code of the request operation.
pub const ARP_REQUEST: u16 = 0x0001;

/// Wire code of the reply operation.
pub const ARP_RESPONSE: u16 = 0x0002;

/// The code stamped into the hardware-address-space field for a family;
/// unrecognized families stamp 0.
pub open spec fn datalink_code(d: DataLink) -> u16 {
    match d {
        DataLink::Ethernet => 0x0001u16,
        DataLink::Unknown(_) => 0u16,
    }
}

/// The code stamped into the protocol-address-space field for a family;
/// unrecognized families stamp 0.
pub open spec fn protocol_code(p: Protocol) -> u16 {
    match p {
        Protocol::IPv4 => 0x0800u16,
        Protocol::Unknown(_) => 0u16,
    }
}

/// The recorded length of an address family after one more address of
/// length `len` was written: the first observation records it, later ones
/// leave the record alone.
pub open spec fn next_len(len: int, prev: int) -> int {
    if prev == 0 {
        len
    } else {
        prev
    }
}

/// The buffer after the hardware type and length fields were stamped for an
/// address of length `len`, if its family was not observed before.
pub open spec fn spec_mac_info(s: Seq<u8>, code: u16, len: int, prev: int) -> Seq<u8> {
    if prev == 0 {
        seq_write_u16(s, 0, code).update(4, len as u8)
    } else {
        s
    }
}

/// The buffer after the protocol type and length fields were stamped for an
/// address of length `len`, if its family was not observed before.
pub open spec fn spec_ip_info(s: Seq<u8>, code: u16, len: int, prev: int) -> Seq<u8> {
    if prev == 0 {
        seq_write_u16(s, 2, code).update(5, len as u8)
    } else {
        s
    }
}

/// The buffer after a source setter ran: hardware fields stamped and octets
/// written at 8, then protocol fields stamped and octets written at 14.
pub open spec fn spec_write_source(
    s: Seq<u8>,
    mac_code: u16,
    mac: Seq<u8>,
    ip_code: u16,
    ip: Seq<u8>,
    prev_mac: int,
    prev_ip: int,
) -> Seq<u8> {
    seq_write(
        spec_ip_info(
            seq_write(spec_mac_info(s, mac_code, mac.len() as int, prev_mac), 8, mac),
            ip_code,
            ip.len() as int,
            prev_ip,
        ),
        14,
        ip,
    )
}

/// The buffer after a destination setter ran: as for the source, with the
/// octets written at 18 and 24.
pub open spec fn spec_write_destination(
    s: Seq<u8>,
    mac_code: u16,
    mac: Seq<u8>,
    ip_code: u16,
    ip: Seq<u8>,
    prev_mac: int,
    prev_ip: int,
) -> Seq<u8> {
    seq_write(
        spec_ip_info(
            seq_write(spec_mac_info(s, mac_code, mac.len() as int, prev_mac), 18, mac),
            ip_code,
            ip.len() as int,
            prev_ip,
        ),
        24,
        ip,
    )
}

/// The buffer after the address-to-resolve setter ran: protocol fields
/// stamped and the octets written at 24.
pub open spec fn spec_write_find(s: Seq<u8>, ip_code: u16, ip: Seq<u8>, prev_ip: int) -> Seq<u8> {
    seq_write(spec_ip_info(s, ip_code, ip.len() as int, prev_ip), 24, ip)
}

/// The buffer a fresh request builder leaves behind: 28 reserved zero bytes
/// after `base`, the not-yet-known target hardware range cleared, and the
/// request operation stamped.
pub open spec fn spec_request_init(base: Seq<u8>) -> Seq<u8> {
    seq_write_u16(seq_write(base + zero_bytes(28), 18, zero_bytes(6)), 6, ARP_REQUEST)
}

/// The buffer a fresh response builder leaves behind: 28 reserved zero
/// bytes after `base` and the reply operation stamped.
pub open spec fn spec_response_init(base: Seq<u8>) -> Seq<u8> {
    seq_write_u16(base + zero_bytes(28), 6, ARP_RESPONSE)
}

/// Once the type and length fields of both address families are stamped,
/// a further setter call with addresses of the recorded lengths leaves
/// them — bytes 0 through 5 of the header — exactly as they were.
pub proof fn lemma_field_codes_idempotent(
    s: Seq<u8>,
    mac_code: u16,
    mac: Seq<u8>,
    ip_code: u16,
    ip: Seq<u8>,
    prev_mac: int,
    prev_ip: int,
)
    requires
        s.len() >= 28,
        prev_mac != 0,
        prev_ip != 0,
        mac.len() == prev_mac,
        ip.len() == prev_ip,
        mac.len() <= 6,
        ip.len() <= 4,
    ensures
        spec_write_source(s, mac_code, mac, ip_code, ip, prev_mac, prev_ip).subrange(0, 6)
            == s.subrange(0, 6),
        spec_write_destination(s, mac_code, mac, ip_code, ip, prev_mac, prev_ip).subrange(0, 6)
            == s.subrange(0, 6),
        spec_write_find(s, ip_code, ip, prev_ip).subrange(0, 6) == s.subrange(0, 6),
{
    assert(spec_write_source(s, mac_code, mac, ip_code, ip, prev_mac, prev_ip).subrange(0, 6)
        =~= s.subrange(0, 6));
    assert(spec_write_destination(s, mac_code, mac, ip_code, ip, prev_mac, prev_ip).subrange(0, 6)
        =~= s.subrange(0, 6));
    assert(spec_write_find(s, ip_code, ip, prev_ip).subrange(0, 6) =~= s.subrange(0, 6));
}

/// The wire code of a hardware address family.
pub fn mac_addr_type_to_bytes(addr_type: DataLink) -> (v: u16)
    ensures
        v == datalink_code(addr_type),
{
    match addr_type {
        DataLink::Ethernet => 0x0001,
        DataLink::Unknown(_) => 0,
    }
}

/// The wire code of a protocol address family.
pub fn ip_addr_type_to_bytes(addr_type: Protocol) -> (v: u16)
    ensures
        v == protocol_code(addr_type),
{
    match addr_type {
        Protocol::IPv4 => 0x0800,
        Protocol::Unknown(_) => 0,
    }
}

/// Writes the hardware-address-space code at offset 0.
pub fn set_mac_addr_type<B: Buffer>(buffer: &mut B, addr_type: u16)
    requires
        old(buffer).contents().len() >= 2,
    ensures
        final(buffer).contents() == seq_write_u16(old(buffer).contents(), 0, addr_type),
{
    buffer.set(0, (addr_type / 256) as u8);
    buffer.set(1, (addr_type % 256) as u8);
    proof {
        assert(buffer.contents() =~= seq_write_u16(old(buffer).contents(), 0, addr_type));
    }
}

/// Writes the protocol-address-space code at offset 2.
pub fn set_ip_addr_type<B: Buffer>(buffer: &mut B, addr_type: u16)
    requires
        old(buffer).contents().len() >= 4,
    ensures
        final(buffer).contents() == seq_write_u16(old(buffer).contents(), 2, addr_type),
{
    buffer.set(2, (addr_type / 256) as u8);
    buffer.set(3, (addr_type % 256) as u8);
    proof {
        assert(buffer.contents() =~= seq_write_u16(old(buffer).contents(), 2, addr_type));
    }
}

/// Writes the hardware address length at offset 4; the protocol caps it at
/// 6 octets.
pub fn set_mac_addr_len<B: Buffer>(buffer: &mut B, len: usize)
    requires
        old(buffer).contents().len() >= 5,
        len <= 6,
    ensures
        final(buffer).contents() == old(buffer).contents().update(4, len as u8),
{
    buffer.set(4, len as u8);
}

/// Writes the protocol address length at offset 5; the protocol caps it at
/// 4 octets.
pub fn set_ip_addr_len<B: Buffer>(buffer: &mut B, len: usize)
    requires
        old(buffer).contents().len() >= 6,
        len <= 4,
    ensures
        final(buffer).contents() == old(buffer).contents().update(5, len as u8),
{
    buffer.set(5, len as u8);
}

/// Writes the operation code at offset 6.
pub fn set_operation<B: Buffer>(buffer: &mut B, op: u16)
    requires
        old(buffer).contents().len() >= 8,
    ensures
        final(buffer).contents() == seq_write_u16(old(buffer).contents(), 6, op),
{
    buffer.set(6, (op / 256) as u8);
    buffer.set(7, (op % 256) as u8);
    proof {
        assert(buffer.contents() =~= seq_write_u16(old(buffer).contents(), 6, op));
    }
}

/// Writes `octets` into the buffer starting at `at`.
pub fn write_octets<B: Buffer>(buffer: &mut B, at: usize, octets: &Vec<u8>)
    requires
        at + octets@.len() <= old(buffer).contents().len(),
    ensures
        final(buffer).contents() == seq_write(old(buffer).contents(), at as int, octets@),
{
    let n = octets.len();
    let total = buffer.len();
    proof {
        assert(buffer.contents() =~= seq_write(old(buffer).contents(), at as int, octets@.take(0)));
    }
    let mut j: usize = 0;
    while j < n
        invariant
            j <= n,
            n == octets@.len(),
            at + n <= total,
            total == old(buffer).contents().len(),
            buffer.contents() == seq_write(old(buffer).contents(), at as int, octets@.take(j as int)),
        decreases n - j,
    {
        buffer.set(at + j, octets[j]);
        j = j + 1;
        proof {
            assert(buffer.contents() =~= seq_write(
                old(buffer).contents(),
                at as int,
                octets@.take(j as int),
            ));
        }
    }
    proof {
        assert(octets@.take(n as int) =~= octets@);
    }
}

/// Stamps the hardware type and length fields on the first observation of a
/// hardware address, and records its length. A later address of the same
/// family must have the recorded length; the builder's bookkeeping makes a
/// mismatch impossible for callers that went through it.
pub fn set_mac_addr_info<B: Buffer, M: HardwareAddress>(
    buffer: &mut B,
    addr: &M,
    prev_addr_len: &mut usize,
)
    requires
        old(buffer).contents().len() >= 28,
        *old(prev_addr_len) != 0 ==> addr.spec_octets().len() == *old(prev_addr_len),
    ensures
        final(buffer).contents() == spec_mac_info(
            old(buffer).contents(),
            datalink_code(addr.spec_addr_type()),
            addr.spec_octets().len() as int,
            *old(prev_addr_len) as int,
        ),
        *final(prev_addr_len) == next_len(
            addr.spec_octets().len() as int,
            *old(prev_addr_len) as int,
        ),
{
    proof {
        addr.octets_len_valid();
    }
    let len = addr.len();
    if *prev_addr_len == 0 {
        let code = mac_addr_type_to_bytes(addr.addr_type());
        set_mac_addr_type(buffer, code);
        set_mac_addr_len(buffer, len);
        *prev_addr_len = len;
    }
}

/// Stamps the protocol type and length fields on the first observation of a
/// protocol address, and records its length, as for the hardware side.
pub fn set_ip_addr_info<B: Buffer, I: ProtocolAddress>(
    buffer: &mut B,
    addr: &I,
    prev_addr_len: &mut usize,
)
    requires
        old(buffer).contents().len() >= 28,
        *old(prev_addr_len) != 0 ==> addr.spec_octets().len() == *old(prev_addr_len),
    ensures
        final(buffer).contents() == spec_ip_info(
            old(buffer).contents(),
            protocol_code(addr.spec_addr_type()),
            addr.spec_octets().len() as int,
            *old(prev_addr_len) as int,
        ),
        *final(prev_addr_len) == next_len(
            addr.spec_octets().len() as int,
            *old(prev_addr_len) as int,
        ),
{
    proof {
        addr.octets_len_valid();
    }
    let len = addr.len();
    if *prev_addr_len == 0 {
        let code = ip_addr_type_to_bytes(addr.addr_type());
        set_ip_addr_type(buffer, code);
        set_ip_addr_len(buffer, len);
        *prev_addr_len = len;
    }
}

} // verus!
