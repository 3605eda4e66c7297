//! The ARP response: its staged builder and its zero-copy packet view.

use core::marker::PhantomData;

use vstd::prelude::*;

use crate::address::{HardwareAddress, HardwareFromBytes, ProtocolAddress, ProtocolFromBytes};
use crate::arp::fields::{
    datalink_code, next_len, protocol_code, set_ip_addr_info, set_mac_addr_info, set_operation,
    spec_response_init, spec_write_destination, spec_write_source, write_octets, ARP_RESPONSE,
};
use crate::buffer::{Buffer, Dynamic};
use crate::builder::{apply_chain, chain_applies, Builder as Build, Finalization, Fixup};
use crate::error::Error;

verus! {

/// A staged builder for an ARP response. Created over a buffer by `with`,
/// which reserves the fixed 28-byte region and stamps the reply operation;
/// completed by `source` and `destination`; consumed by `build`.
pub struct Builder<M, I, B = Dynamic> where M: HardwareAddress, I: ProtocolAddress, B: Buffer {
    buffer: B,
    finalizer: Finalization,
    ip_address_len: usize,
    mac_address_len: usize,
    src: bool,
    dest: bool,
    _phantom_mac: PhantomData<M>,
    _phantom_ip: PhantomData<I>,
}

impl<M, I, B> Builder<M, I, B> where M: HardwareAddress, I: ProtocolAddress, B: Buffer {
    /// The bytes written so far.
    pub closed spec fn contents(&self) -> Seq<u8> {
        self.buffer.contents()
    }

    /// The recorded hardware address length; 0 until one was observed.
    pub closed spec fn mac_len(&self) -> usize {
        self.mac_address_len
    }

    /// The recorded protocol address length; 0 until one was observed.
    pub closed spec fn ip_len(&self) -> usize {
        self.ip_address_len
    }

    /// Whether the source group has been supplied.
    pub closed spec fn src_set(&self) -> bool {
        self.src
    }

    /// Whether the destination group has been supplied.
    pub closed spec fn dest_set(&self) -> bool {
        self.dest
    }

    /// The builder's fixed region is reserved and its length records are
    /// within the protocol's caps.
    pub open spec fn wf(&self) -> bool {
        &&& self.contents().len() >= 28
        &&& self.mac_len() <= 6
        &&& self.ip_len() <= 4
    }

    /// Sets the responder's hardware and protocol addresses.
    pub fn source(self, mac: M, ip: I) -> (r: Result<Self, Error>)
        requires
            self.wf(),
            self.mac_len() != 0 ==> mac.spec_octets().len() == self.mac_len(),
            self.ip_len() != 0 ==> ip.spec_octets().len() == self.ip_len(),
        ensures
            r is Ok,
            match r {
                Ok(b) => {
                    &&& b.wf()
                    &&& b.contents() == spec_write_source(
                        self.contents(),
                        datalink_code(mac.spec_addr_type()),
                        mac.spec_octets(),
                        protocol_code(ip.spec_addr_type()),
                        ip.spec_octets(),
                        self.mac_len() as int,
                        self.ip_len() as int,
                    )
                    &&& b.mac_len() as int == next_len(
                        mac.spec_octets().len() as int,
                        self.mac_len() as int,
                    )
                    &&& b.ip_len() as int == next_len(
                        ip.spec_octets().len() as int,
                        self.ip_len() as int,
                    )
                    &&& b.src_set()
                    &&& b.dest_set() == self.dest_set()
                    &&& b.spec_finalization() == self.spec_finalization()
                },
                Err(_) => false,
            },
    {
        let mut next = self;
        proof {
            mac.octets_len_valid();
            ip.octets_len_valid();
        }
        set_mac_addr_info(&mut next.buffer, &mac, &mut next.mac_address_len);
        let mac_octets = mac.octets();
        write_octets(&mut next.buffer, 8, &mac_octets);
        set_ip_addr_info(&mut next.buffer, &ip, &mut next.ip_address_len);
        let ip_octets = ip.octets();
        write_octets(&mut next.buffer, 14, &ip_octets);
        next.src = true;
        Ok(next)
    }

    /// Sets the hardware and protocol addresses of the host the response
    /// answers.
    pub fn destination(self, mac: M, ip: I) -> (r: Result<Self, Error>)
        requires
            self.wf(),
            self.mac_len() != 0 ==> mac.spec_octets().len() == self.mac_len(),
            self.ip_len() != 0 ==> ip.spec_octets().len() == self.ip_len(),
        ensures
            r is Ok,
            match r {
                Ok(b) => {
                    &&& b.wf()
                    &&& b.contents() == spec_write_destination(
                        self.contents(),
                        datalink_code(mac.spec_addr_type()),
                        mac.spec_octets(),
                        protocol_code(ip.spec_addr_type()),
                        ip.spec_octets(),
                        self.mac_len() as int,
                        self.ip_len() as int,
                    )
                    &&& b.mac_len() as int == next_len(
                        mac.spec_octets().len() as int,
                        self.mac_len() as int,
                    )
                    &&& b.ip_len() as int == next_len(
                        ip.spec_octets().len() as int,
                        self.ip_len() as int,
                    )
                    &&& b.src_set() == self.src_set()
                    &&& b.dest_set()
                    &&& b.spec_finalization() == self.spec_finalization()
                },
                Err(_) => false,
            },
    {
        let mut next = self;
        proof {
            mac.octets_len_valid();
            ip.octets_len_valid();
        }
        set_mac_addr_info(&mut next.buffer, &mac, &mut next.mac_address_len);
        let mac_octets = mac.octets();
        write_octets(&mut next.buffer, 18, &mac_octets);
        set_ip_addr_info(&mut next.buffer, &ip, &mut next.ip_address_len);
        let ip_octets = ip.octets();
        write_octets(&mut next.buffer, 24, &ip_octets);
        next.dest = true;
        Ok(next)
    }
}

impl<M, I, B> Build<B> for Builder<M, I, B> where
    M: HardwareAddress,
    I: ProtocolAddress,
    B: Buffer,
 {
    closed spec fn spec_finalization(&self) -> Seq<Fixup> {
        self.finalizer@
    }

    fn with(buffer: B) -> (r: Result<Self, Error>)
        ensures
            B::always_grows() ==> r is Ok,
            match r {
                Ok(b) => {
                    &&& b.wf()
                    &&& b.contents() == spec_response_init(buffer.contents())
                    &&& b.spec_finalization() == Seq::<Fixup>::empty()
                    &&& b.mac_len() == 0
                    &&& b.ip_len() == 0
                    &&& !b.src_set()
                    &&& !b.dest_set()
                },
                Err(e) => e == Error::Exhausted,
            },
    {
        let ghost base = buffer.contents();
        let mut buffer = buffer;
        match buffer.next(28) {
            Ok(()) => {},
            Err(e) => {
                return Err(e);
            },
        }
        set_operation(&mut buffer, ARP_RESPONSE);
        proof {
            assert(buffer.contents() =~= spec_response_init(base));
        }
        Ok(
            Builder {
                buffer,
                finalizer: Finalization::new(),
                ip_address_len: 0,
                mac_address_len: 0,
                src: false,
                dest: false,
                _phantom_mac: PhantomData,
                _phantom_ip: PhantomData,
            },
        )
    }

    fn finalizer(&mut self) -> (r: &mut Finalization)
        ensures
            final(self).contents() == old(self).contents(),
            final(self).mac_len() == old(self).mac_len(),
            final(self).ip_len() == old(self).ip_len(),
            final(self).src_set() == old(self).src_set(),
            final(self).dest_set() == old(self).dest_set(),
    {
        &mut self.finalizer
    }

    fn build(self) -> (r: Result<Vec<u8>, Error>)
        ensures
            match r {
                Ok(v) => {
                    &&& self.src_set()
                    &&& self.dest_set()
                    &&& chain_applies(self.spec_finalization(), self.contents().len() as int)
                    &&& v@ == apply_chain(self.spec_finalization(), self.contents())
                },
                Err(e) => (if !(self.src_set() && self.dest_set()) {
                    e == Error::IncompletePacket
                } else {
                    &&& e == Error::SmallBuffer
                    &&& !chain_applies(self.spec_finalization(), self.contents().len() as int)
                }),
            },
    {
        if !self.src || !self.dest {
            return Err(Error::IncompletePacket);
        }
        let Builder { buffer, finalizer, .. } = self;
        let mut out = buffer.into_inner();
        match finalizer.finalize(&mut out) {
            Ok(()) => Ok(out),
            Err(e) => Err(e),
        }
    }
}

impl<M, I> Default for Builder<M, I, Dynamic> where M: HardwareAddress, I: ProtocolAddress {
    /// A response builder over a fresh dynamic buffer.
    fn default() -> (b: Self)
        ensures
            b.wf(),
            b.contents() == spec_response_init(Seq::<u8>::empty()),
            b.spec_finalization() == Seq::<Fixup>::empty(),
            b.mac_len() == 0,
            b.ip_len() == 0,
            !b.src_set(),
            !b.dest_set(),
    {
        Builder::<M, I, Dynamic>::with(Dynamic::new()).unwrap()
    }
}

/// A read-only view of an ARP response over a borrowed byte slice; performs
/// no copy of the underlying bytes.
#[derive(Debug)]
pub struct Packet<'a, M, I> {
    buffer: &'a [u8],
    _phantom_mac: PhantomData<M>,
    _phantom_ip: PhantomData<I>,
}

impl<'a, M, I> Packet<'a, M, I> where M: HardwareFromBytes, I: ProtocolFromBytes {
    /// The bytes the view reads.
    pub closed spec fn bytes(&self) -> Seq<u8> {
        self.buffer@
    }

    /// The viewed slice covers the fixed 28-byte region.
    pub open spec fn wf(&self) -> bool {
        self.bytes().len() >= 28
    }

    /// Wraps `buffer` without any check; the caller has already validated
    /// its size.
    pub(crate) fn unchecked(buffer: &'a [u8]) -> (p: Self)
        requires
            buffer@.len() >= 28,
        ensures
            p.bytes() == buffer@,
            p.wf(),
    {
        Packet { buffer, _phantom_mac: PhantomData, _phantom_ip: PhantomData }
    }

    /// The responder's hardware address.
    pub fn source_mac(&self) -> (m: M)
        requires
            self.wf(),
        ensures
            m.spec_octets() == self.bytes().subrange(8, 14),
    {
        M::from_bytes(vstd::slice::slice_subrange(self.buffer, 8, 14))
    }

    /// The hardware address of the host the response answers.
    pub fn destination_mac(&self) -> (m: M)
        requires
            self.wf(),
        ensures
            m.spec_octets() == self.bytes().subrange(18, 24),
    {
        M::from_bytes(vstd::slice::slice_subrange(self.buffer, 18, 24))
    }

    /// The responder's protocol address.
    pub fn source_ip(&self) -> (i: I)
        requires
            self.wf(),
        ensures
            i.spec_octets() == self.bytes().subrange(14, 18),
    {
        I::from_bytes(vstd::slice::slice_subrange(self.buffer, 14, 18))
    }

    /// The protocol address of the host the response answers.
    pub fn destination_ip(&self) -> (i: I)
        requires
            self.wf(),
        ensures
            i.spec_octets() == self.bytes().subrange(24, 28),
    {
        I::from_bytes(vstd::slice::slice_subrange(self.buffer, 24, 28))
    }
}

/// The bytes of a response built over an empty buffer in the canonical
/// order: `with`, then `source`, then `destination`, with no fix-ups.
pub open spec fn response_wire(
    mac_code: u16,
    smac: Seq<u8>,
    ip_code: u16,
    sip: Seq<u8>,
    dmac: Seq<u8>,
    dip: Seq<u8>,
) -> Seq<u8> {
    spec_write_destination(
        spec_write_source(spec_response_init(Seq::<u8>::empty()), mac_code, smac, ip_code, sip, 0, 0),
        mac_code,
        dmac,
        ip_code,
        dip,
        smac.len() as int,
        sip.len() as int,
    )
}

/// Building a response and reading it back through the zero-copy view
/// returns the source and destination address pairs that were written, for
/// addresses of the view's fixed 6- and 4-octet widths.
pub proof fn lemma_response_round_trip(
    mac_code: u16,
    smac: Seq<u8>,
    ip_code: u16,
    sip: Seq<u8>,
    dmac: Seq<u8>,
    dip: Seq<u8>,
)
    requires
        smac.len() == 6,
        sip.len() == 4,
        dmac.len() == 6,
        dip.len() == 4,
    ensures
        response_wire(mac_code, smac, ip_code, sip, dmac, dip).len() == 28,
        response_wire(mac_code, smac, ip_code, sip, dmac, dip).subrange(8, 14) == smac,
        response_wire(mac_code, smac, ip_code, sip, dmac, dip).subrange(14, 18) == sip,
        response_wire(mac_code, smac, ip_code, sip, dmac, dip).subrange(18, 24) == dmac,
        response_wire(mac_code, smac, ip_code, sip, dmac, dip).subrange(24, 28) == dip,
{
    let w = response_wire(mac_code, smac, ip_code, sip, dmac, dip);
    assert(w.subrange(8, 14) =~= smac);
    assert(w.subrange(14, 18) =~= sip);
    assert(w.subrange(18, 24) =~= dmac);
    assert(w.subrange(24, 28) =~= dip);
}

} // verus!
