//! Size reporting for consumers that budget allocations: the smallest and
//! largest wire size a packet view can have, and the actual size of one.

use vstd::prelude::*;

verus! {

/// The smallest number of bytes a value of the type occupies on the wire.
pub trait Min {
    /// The minimum wire size.
    fn min() -> usize;
}

/// The largest number of bytes a value of the type occupies on the wire.
pub trait Max {
    /// The maximum wire size.
    fn max() -> usize;
}

/// The number of bytes this value occupies on the wire.
pub trait Size {
    /// The actual wire size.
    fn size(&self) -> usize;
}

} // verus!
