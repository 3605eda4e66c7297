//! The staged-construction framework: the `Builder` lifecycle every protocol
//! builder follows, and the deferred finalization chain that patches a
//! finished buffer after an inner protocol has written its bytes.

use vstd::prelude::*;

use crate::buffer::Buffer;
use crate::error::Error;
use crate::wire::seq_write_u16;

verus! {

/// One deferred fix-up over the finished byte buffer: a byte range to patch
/// and the rule for computing the patch.
#[derive(Clone, Copy, Debug, PartialEq, Eq, Structural)]
#[allow(inconsistent_fields)]
pub enum Fixup {
    /// Writes a constant byte at `offset`.
    SetByte { offset: usize, value: u8 },
    /// Writes a constant 16-bit value big-endian at `offset`.
    SetU16 { offset: usize, value: u16 },
    /// Writes the buffer's total length big-endian at `offset`, for an outer
    /// header whose length field depends on bytes written by later stages.
    LengthU16 { offset: usize },
}

/// Whether `f` patches only bytes that exist in a buffer of length `len`.
pub open spec fn fixup_applies(f: Fixup, len: int) -> bool {
    match f {
        Fixup::SetByte { offset, value: _ } => offset + 1 <= len,
        Fixup::SetU16 { offset, value: _ } => offset + 2 <= len,
        Fixup::LengthU16 { offset } => offset + 2 <= len && len <= u16::MAX,
    }
}

/// The buffer after `f` has run; meaningful when `fixup_applies` holds.
pub open spec fn apply_fixup(f: Fixup, s: Seq<u8>) -> Seq<u8> {
    match f {
        Fixup::SetByte { offset, value } => s.update(offset as int, value),
        Fixup::SetU16 { offset, value } => seq_write_u16(s, offset as int, value),
        Fixup::LengthU16 { offset } => seq_write_u16(s, offset as int, s.len() as u16),
    }
}

/// Whether every fix-up of `ops` patches only bytes of a buffer of length `len`.
pub open spec fn chain_applies(ops: Seq<Fixup>, len: int) -> bool {
    forall|i: int| 0 <= i < ops.len() ==> fixup_applies(#[trigger] ops[i], len)
}

/// The buffer after every fix-up of `ops` has run, first to last.
pub open spec fn apply_chain(ops: Seq<Fixup>, s: Seq<u8>) -> Seq<u8>
    decreases ops.len(),
{
    if ops.len() == 0 {
        s
    } else {
        apply_chain(ops.drop_first(), apply_fixup(ops.first(), s))
    }
}

/// Concatenated chains run in order: the first chain's fix-ups, then the
/// second's over the result. This is what keeps an inner builder's fix-ups
/// ahead of the ones an encapsulating builder appends.
pub proof fn lemma_apply_chain_append(a: Seq<Fixup>, b: Seq<Fixup>, s: Seq<u8>)
    ensures
        apply_chain(a + b, s) == apply_chain(b, apply_chain(a, s)),
    decreases a.len(),
{
    if a.len() == 0 {
        assert(a + b =~= b);
    } else {
        assert((a + b).drop_first() =~= a.drop_first() + b);
        lemma_apply_chain_append(a.drop_first(), b, apply_fixup(a.first(), s));
    }
}

/// An ordered list of fix-ups, owned by a builder and run by `build` once
/// every stage has written its bytes.
pub struct Finalization {
    ops: Vec<Fixup>,
}

impl View for Finalization {
    type V = Seq<Fixup>;

    closed spec fn view(&self) -> Seq<Fixup> {
        self.ops@
    }
}

impl Finalization {
    /// An empty chain.
    pub fn new() -> (c: Finalization)
        ensures
            c@ == Seq::<Fixup>::empty(),
    {
        Finalization { ops: Vec::new() }
    }

    /// Registers one more fix-up, to run after those already present.
    pub fn push(&mut self, f: Fixup)
        ensures
            final(self)@ == old(self)@.push(f),
    {
        self.ops.push(f);
    }

    /// Appends another chain's fix-ups after this chain's own, in order.
    pub fn extend(&mut self, other: Finalization)
        ensures
            final(self)@ == old(self)@ + other@,
    {
        let mut rest = other.ops;
        self.ops.append(&mut rest);
    }

    /// Runs every fix-up in order against the finished bytes. The first
    /// fix-up that reaches outside the buffer aborts the rest; the buffer is
    /// then left partially patched and the caller must discard it.
    pub fn finalize(&self, buffer: &mut Vec<u8>) -> (r: Result<(), Error>)
        ensures
            final(buffer)@.len() == old(buffer)@.len(),
            r is Ok <==> chain_applies(self@, old(buffer)@.len() as int),
            r is Ok ==> final(buffer)@ == apply_chain(self@, old(buffer)@),
            r is Err ==> r == Err::<(), Error>(Error::SmallBuffer),
    {
        let ghost s0 = buffer@;
        let n = buffer.len();
        let mut i: usize = 0;
        proof {
            assert(self.ops@.take(0) =~= Seq::<Fixup>::empty());
        }
        while i < self.ops.len()
            invariant
                i <= self.ops@.len(),
                s0 == old(buffer)@,
                buffer@.len() == s0.len(),
                n == s0.len(),
                chain_applies(self.ops@.take(i as int), s0.len() as int),
                buffer@ == apply_chain(self.ops@.take(i as int), s0),
            decreases self.ops@.len() - i,
        {
            let ghost done = self.ops@.take(i as int);
            let f = self.ops[i];
            proof {
                assert(f == self.ops@[i as int]);
            }
            match f {
                Fixup::SetByte { offset, value } => {
                    if offset >= n {
                        proof {
                            assert(!fixup_applies(self.ops@[i as int], s0.len() as int));
                        }
                        return Err(Error::SmallBuffer);
                    }
                    buffer[offset] = value;
                },
                Fixup::SetU16 { offset, value } => {
                    if offset >= n || n - offset < 2 {
                        proof {
                            assert(!fixup_applies(self.ops@[i as int], s0.len() as int));
                        }
                        return Err(Error::SmallBuffer);
                    }
                    buffer[offset] = (value / 256) as u8;
                    buffer[offset + 1] = (value % 256) as u8;
                    proof {
                        assert(buffer@ =~= apply_fixup(f, apply_chain(done, s0)));
                    }
                },
                Fixup::LengthU16 { offset } => {
                    if offset >= n || n - offset < 2 || n > 0xFFFF {
                        proof {
                            assert(!fixup_applies(self.ops@[i as int], s0.len() as int));
                        }
                        return Err(Error::SmallBuffer);
                    }
                    let v: u16 = n as u16;
                    buffer[offset] = (v / 256) as u8;
                    buffer[offset + 1] = (v % 256) as u8;
                    proof {
                        assert(buffer@ =~= apply_fixup(f, apply_chain(done, s0)));
                    }
                },
            }
            i = i + 1;
            proof {
                assert(self.ops@.take(i as int) =~= done.push(f));
                lemma_apply_chain_snoc(done, f, s0);
            }
        }
        proof {
            assert(self.ops@.take(self.ops@.len() as int) =~= self.ops@);
        }
        Ok(())
    }
}

/// Running a chain and then one more fix-up is running the chain grown by
/// that fix-up.
proof fn lemma_apply_chain_snoc(ops: Seq<Fixup>, f: Fixup, s: Seq<u8>)
    ensures
        apply_chain(ops.push(f), s) == apply_fixup(f, apply_chain(ops, s)),
{
    lemma_apply_chain_append(ops, seq![f], s);
    assert(ops.push(f) =~= ops + seq![f]);
    let t = apply_chain(ops, s);
    assert(seq![f].first() == f);
    assert(seq![f].drop_first() =~= Seq::<Fixup>::empty());
    assert(apply_chain(seq![f].drop_first(), apply_fixup(f, t)) == apply_fixup(f, t));
    assert(apply_chain(seq![f], t) == apply_fixup(f, t));
}

impl Default for Finalization {
    fn default() -> (c: Finalization)
        ensures
            c@ == Seq::<Fixup>::empty(),
    {
        Finalization::new()
    }
}

/// The staged lifecycle every protocol builder follows: it is created over a
/// buffer, mutated by setter calls, and consumed by `build`, which runs the
/// finalization chain and yields the finished bytes.
pub trait Builder<B: Buffer>: Sized {
    /// The builder's finalization chain.
    spec fn spec_finalization(&self) -> Seq<Fixup>;

    /// Creates the builder over `buffer`, reserving the protocol's fixed
    /// region and stamping its invariant defaults.
    fn with(buffer: B) -> (r: Result<Self, Error>);

    /// The chain of fix-ups to run over the finished buffer, for an
    /// encapsulating builder to extend.
    fn finalizer(&mut self) -> (r: &mut Finalization)
        ensures
            (*r)@ == old(self).spec_finalization(),
            final(self).spec_finalization() == (*final(r))@,
    ;

    /// Checks completeness, runs the finalization chain and yields the
    /// finished bytes.
    fn build(self) -> (r: Result<Vec<u8>, Error>);
}

} // verus!
