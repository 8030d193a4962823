//! A functional, non-pipelined interpreter for the 64-bit RISC-V instruction
//! set (RV64IMAC with Zicsr and Zifencei), intended for running the official
//! conformance test binaries. The machine state (memory, registers, CSR file,
//! privilege level, reservation set) is advanced one instruction at a time by
//! a fetch-decode-execute loop; traps are delivered through the machine- and
//! supervisor-mode status registers exactly as the privileged specification
//! describes.

use vstd::prelude::*;

pub mod alu;
pub mod bits;
pub mod cpu;
pub mod csr;
pub mod decode;
pub mod emulator;
pub mod exception;
pub mod exec;
pub mod memory;
pub mod register;
pub mod trap;

verus! {

/// The current privilege level of the hart: user, supervisor or machine.
#[derive(Debug, Clone, Copy, PartialEq, Eq, Structural)]
pub enum Priv {
    U,
    S,
    M,
}

impl Priv {
    /// The two-bit encoding of the privilege level used by `mstatus.MPP`
    /// and the privilege field of a CSR address.
    pub open spec fn spec_code(self) -> u64 {
        match self {
            Priv::U => 0,
            Priv::S => 1,
            Priv::M => 3,
        }
    }

    /// Returns the two-bit encoding of the privilege level.
    #[verifier::when_used_as_spec(spec_code)]
    pub fn code(self) -> (r: u64)
        ensures
            r == self.spec_code(),
    {
        match self {
            Priv::U => 0,
            Priv::S => 1,
            Priv::M => 3,
        }
    }

    /// Decodes a privilege level from its two-bit encoding.
    pub fn from(value: u64) -> (r: Priv)
        requires
            value == 0 || value == 1 || value == 3,
        ensures
            r.spec_code() == value,
    {
        if value == 0 {
            Priv::U
        } else if value == 1 {
            Priv::S
        } else {
            Priv::M
        }
    }
}

impl Default for Priv {
    /// A hart resets into machine mode.
    fn default() -> (r: Self)
        ensures
            r == Priv::M,
    {
        Priv::M
    }
}

} // verus!
