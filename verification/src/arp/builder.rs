//! The variant-neutral ARP builder: it holds the buffer and any fix-ups an
//! encapsulating protocol has registered, and turns into a request or
//! response builder once the caller picks the operation.

use vstd::prelude::*;

use crate::address::{HardwareAddress, ProtocolAddress};
use crate::arp::fields::{spec_request_init, spec_response_init};
use crate::arp::request;
use crate::arp::response;
use crate::buffer::{Buffer, Dynamic};
use crate::builder::{Builder as Build, Finalization, Fixup};
use crate::error::Error;

verus! {

/// An ARP builder that has not picked its operation yet.
pub struct Builder<B = Dynamic> where B: Buffer {
    buffer: B,
    finalizer: Finalization,
}

impl<B> Builder<B> where B: Buffer {
    /// The bytes of the buffer the builder holds.
    pub closed spec fn contents(&self) -> Seq<u8> {
        self.buffer.contents()
    }

    /// Turns this builder into a request builder over the same buffer,
    /// keeping the fix-ups registered so far after the request's own.
    pub fn request<M, I>(self) -> (r: Result<request::Builder<M, I, B>, Error>) where
        M: HardwareAddress,
        I: ProtocolAddress,

        ensures
            B::always_grows() ==> r is Ok,
            match r {
                Ok(b) => {
                    &&& b.wf()
                    &&& b.contents() == spec_request_init(self.contents())
                    &&& b.spec_finalization() == self.spec_finalization()
                    &&& b.mac_len() == 0
                    &&& b.ip_len() == 0
                    &&& !b.src_set()
                    &&& !b.dest_set()
                },
                Err(e) => e == Error::Exhausted,
            },
    {
        let mut request = match request::Builder::<M, I, B>::with(self.buffer) {
            Ok(b) => b,
            Err(e) => {
                return Err(e);
            },
        };
        request.finalizer().extend(self.finalizer);
        Ok(request)
    }

    /// Turns this builder into a response builder over the same buffer,
    /// keeping the fix-ups registered so far after the response's own.
    pub fn response<M, I>(self) -> (r: Result<response::Builder<M, I, B>, Error>) where
        M: HardwareAddress,
        I: ProtocolAddress,

        ensures
            B::always_grows() ==> r is Ok,
            match r {
                Ok(b) => {
                    &&& b.wf()
                    &&& b.contents() == spec_response_init(self.contents())
                    &&& b.spec_finalization() == self.spec_finalization()
                    &&& b.mac_len() == 0
                    &&& b.ip_len() == 0
                    &&& !b.src_set()
                    &&& !b.dest_set()
                },
                Err(e) => e == Error::Exhausted,
            },
    {
        let mut response = match response::Builder::<M, I, B>::with(self.buffer) {
            Ok(b) => b,
            Err(e) => {
                return Err(e);
            },
        };
        response.finalizer().extend(self.finalizer);
        Ok(response)
    }
}

impl<B> Build<B> for Builder<B> where B: Buffer {
    closed spec fn spec_finalization(&self) -> Seq<Fixup> {
        self.finalizer@
    }

    fn with(buffer: B) -> (r: Result<Self, Error>)
        ensures
            r is Ok,
            match r {
                Ok(b) => {
                    &&& b.contents() == buffer.contents()
                    &&& b.spec_finalization() == Seq::<Fixup>::empty()
                },
                Err(_) => false,
            },
    {
        Ok(Builder { buffer, finalizer: Finalization::new() })
    }

    fn finalizer(&mut self) -> (r: &mut Finalization)
        ensures
            final(self).contents() == old(self).contents(),
    {
        &mut self.finalizer
    }

    fn build(self) -> (r: Result<Vec<u8>, Error>)
        ensures
            r == Err::<Vec<u8>, Error>(Error::InvalidPacket),
    {
        // no operation was picked, so there is no packet to finish
        Err(Error::InvalidPacket)
    }
}

impl Default for Builder<Dynamic> {
    /// A builder over a fresh dynamic buffer.
    fn default() -> (b: Self)
        ensures
            b.contents() == Seq::<u8>::empty(),
            b.spec_finalization() == Seq::<Fixup>::empty(),
    {
        Builder::with(Dynamic::new()).unwrap()
    }
}

} // verus!
