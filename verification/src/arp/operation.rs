//! The ARP operation field: request, reply, or an unrecognized code carried
//! through unchanged.

use vstd::prelude::*;

verus! {

/// The 16-bit operation field of an ARP header.
#[derive(Clone, Copy, Debug, PartialEq, Eq, Structural)]
pub enum Operation {
    /// Operation code 1.
    Request,
    /// Operation code 2.
    Reply,
    /// Any other code, preserved as it appeared on the wire.
    Unknown(u16),
}

impl Operation {
    /// The operation a wire code names.
    pub fn from_code(value: u16) -> (op: Operation)
        ensures
            op == (if value == 1 {
                Operation::Request
            } else if value == 2 {
                Operation::Reply
            } else {
                Operation::Unknown(value)
            }),
    {
        match value {
            1 => Operation::Request,
            2 => Operation::Reply,
            v => Operation::Unknown(v),
        }
    }

    /// The wire code of this operation.
    pub fn code(self) -> (v: u16)
        ensures
            v == (match self {
                Operation::Request => 1u16,
                Operation::Reply => 2u16,
                Operation::Unknown(c) => c,
            }),
    {
        match self {
            Operation::Request => 1,
            Operation::Reply => 2,
            Operation::Unknown(v) => v,
        }
    }
}

} // verus!
