//! Names for the architectural registers an instruction can read or write:
//! one of the 32 general integer registers, or the program counter.

use vstd::prelude::*;

verus! {

/// A register selector: `X(i)` is general register `x_i` (0 <= i <= 31,
/// with `x0` hard-wired to zero), `Pc` is the program counter.
#[derive(Debug, Clone, Copy, PartialEq, Eq, Structural)]
pub enum Register {
    X(u8),
    Pc,
}

impl Register {
    /// A general-register selector must stay within `x0`..`x31`.
    pub open spec fn wf(self) -> bool {
        match self {
            Register::X(i) => i <= 31,
            Register::Pc => true,
        }
    }
}

} // verus!
