//! The ways in which the machine stops for good.

use vstd::prelude::*;

verus! {

/// A fatal condition. None is recovered from inside the machine.
#[derive(Clone, Copy, PartialEq, Eq, Structural, Debug)]
pub enum VmError {
    /// The top four bits of an instruction are the reserved code `1101`.
    IllegalOpcode,
    /// `RTI` was fetched; the machine has no supervisor mode to return from.
    UnsupportedRti,
    /// The low eight bits of a `TRAP` name none of the six service routines.
    InvalidTrapVector,
    /// A byte above `0x7F` was to be printed.
    NonAscii,
    /// A program image does not fit between its origin and the end of memory.
    LoadOverflow,
    /// A program image is shorter than its origin word or ends in half a word.
    MalformedImage,
}

} // verus!
