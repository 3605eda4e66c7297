//! The storage a builder writes into: a cursor-growable byte region that can
//! be read and patched in place and finally turned into owned bytes.

use vstd::prelude::*;

use crate::error::Error;
use crate::wire::zero_bytes;

verus! {

/// What any backing store must offer a builder: growing the written region
/// at the cursor, reading and writing single bytes of that region, and
/// yielding the written bytes once building is done.
pub trait Buffer: Sized {
    /// The bytes written so far, from offset 0 up to the cursor.
    spec fn contents(&self) -> Seq<u8>;

    /// Whether `next` succeeds on every request for this backing store.
    spec fn always_grows() -> bool;

    /// The number of bytes written so far.
    fn len(&self) -> (n: usize)
        ensures
            n == self.contents().len(),
    ;

    /// Grows the written region by `size` zeroed bytes at the cursor.
    fn next(&mut self, size: usize) -> (r: Result<(), Error>)
        ensures
            r is Ok ==> final(self).contents() == old(self).contents() + zero_bytes(
                size as int,
            ),
            r is Err ==> final(self).contents() == old(self).contents() && r == Err::<
                (),
                Error,
            >(Error::Exhausted),
            Self::always_grows() ==> r is Ok,
    ;

    /// Writes one byte of the already-written region in place.
    fn set(&mut self, index: usize, value: u8)
        requires
            index < old(self).contents().len(),
        ensures
            final(self).contents() == old(self).contents().update(index as int, value),
    ;

    /// Reads one byte of the already-written region.
    fn get(&self, index: usize) -> (v: u8)
        requires
            index < self.contents().len(),
        ensures
            v == self.contents()[index as int],
    ;

    /// Consumes the buffer and yields the written bytes.
    fn into_inner(self) -> (v: Vec<u8>)
        ensures
            v@ == self.contents(),
    ;
}

/// A backing store over a growable vector; `next` always succeeds.
pub struct Dynamic {
    data: Vec<u8>,
}

impl Dynamic {
    /// An empty dynamic buffer.
    pub fn new() -> (b: Dynamic)
        ensures
            b.contents() == Seq::<u8>::empty(),
    {
        Dynamic { data: Vec::new() }
    }
}

impl Default for Dynamic {
    fn default() -> (b: Dynamic)
        ensures
            b.contents() == Seq::<u8>::empty(),
    {
        Dynamic::new()
    }
}

impl Buffer for Dynamic {
    closed spec fn contents(&self) -> Seq<u8> {
        self.data@
    }

    open spec fn always_grows() -> bool {
        true
    }

    fn len(&self) -> (n: usize) {
        self.data.len()
    }

    fn next(&mut self, size: usize) -> (r: Result<(), Error>) {
        let mut added: usize = 0;
        while added < size
            invariant
                added <= size,
                self.data@ == old(self).data@ + zero_bytes(added as int),
            decreases size - added,
        {
            self.data.push(0u8);
            added = added + 1;
            proof {
                assert(self.data@ =~= old(self).data@ + zero_bytes(added as int));
            }
        }
        Ok(())
    }

    fn set(&mut self, index: usize, value: u8) {
        self.data[index] = value;
    }

    fn get(&self, index: usize) -> (v: u8) {
        self.data[index]
    }

    fn into_inner(self) -> (v: Vec<u8>) {
        self.data
    }
}

/// A backing store with a fixed capacity; `next` fails once a request would
/// take the written region past that capacity.
pub struct Fixed {
    data: Vec<u8>,
    capacity: usize,
}

impl Fixed {
    /// How many bytes this buffer can hold in all.
    pub closed spec fn spec_capacity(&self) -> usize {
        self.capacity
    }

    /// An empty buffer that can grow to at most `capacity` bytes.
    pub fn with_capacity(capacity: usize) -> (b: Fixed)
        ensures
            b.contents() == Seq::<u8>::empty(),
            b.spec_capacity() == capacity,
    {
        Fixed { data: Vec::new(), capacity }
    }
}

impl Buffer for Fixed {
    closed spec fn contents(&self) -> Seq<u8> {
        self.data@
    }

    open spec fn always_grows() -> bool {
        false
    }

    fn len(&self) -> (n: usize) {
        self.data.len()
    }

    fn next(&mut self, size: usize) -> (r: Result<(), Error>) {
        if size > self.capacity || self.data.len() > self.capacity - size {
            return Err(Error::Exhausted);
        }
        let mut added: usize = 0;
        while added < size
            invariant
                added <= size,
                self.data@ == old(self).data@ + zero_bytes(added as int),
                self.capacity == old(self).capacity,
            decreases size - added,
        {
            self.data.push(0u8);
            added = added + 1;
            proof {
                assert(self.data@ =~= old(self).data@ + zero_bytes(added as int));
            }
        }
        Ok(())
    }

    fn set(&mut self, index: usize, value: u8) {
        self.data[index] = value;
    }

    fn get(&self, index: usize) -> (v: u8) {
        self.data[index]
    }

    fn into_inner(self) -> (v: Vec<u8>) {
        self.data
    }
}

} // verus!
