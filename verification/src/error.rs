//! Failures reported by the fallible conversions of this crate.

use vstd::prelude::*;

verus! {

/// The two ways in which a raw value can fail to convert.
#[derive(Clone, Copy, Debug, PartialEq, Eq, Structural)]
pub enum WrapperErrorKind {
    /// The input is malformed: a size field outside `1..=4`, or a slot value
    /// that does not have exactly one defined bit set.
    InvalidParam,
    /// The input is well shaped but selects a bit that no slot stands for.
    UnsupportedParam,
}

/// A failed conversion: what went wrong, and the raw value that caused it.
#[derive(Clone, Copy, Debug, PartialEq, Eq, Structural)]
pub struct Error {
    /// What went wrong.
    pub kind: WrapperErrorKind,
    /// The offending raw value, widened to 32 bits.
    pub value: u32,
}

impl Error {
    /// A failure of the given kind caused by `value`.
    pub fn local_error(kind: WrapperErrorKind, value: u32) -> (e: Error)
        ensures
            e == (Error { kind, value }),
    {
        Error { kind, value }
    }
}

} // verus!
