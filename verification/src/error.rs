//! Error values shared by the builder and parse sides.

use vstd::prelude::*;

verus! {

/// Every recoverable failure of the library.
#[derive(Clone, Copy, Debug, PartialEq, Eq, Structural)]
pub enum Error {
    /// A buffer could not grow by the requested number of bytes.
    Exhausted,
    /// A byte slice is shorter than the protocol's fixed minimum, or a
    /// finalization fix-up falls outside the finished buffer.
    SmallBuffer,
    /// A packet carries an operation code the protocol does not know.
    InvalidPacket,
    /// `build` was called before every required field group was set.
    IncompletePacket,
}

} // verus!
