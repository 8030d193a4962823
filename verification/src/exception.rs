//! The traps the machine can take: the synchronous exceptions of the base
//! profile together with the one modeled interrupt (a supervisor software
//! interrupt).

use vstd::prelude::*;

verus! {

/// A trap cause. The synchronous exceptions carry the cause codes of the
/// privileged specification; `SuperSoftInt` is the supervisor software
/// interrupt, whose cause value additionally has bit 63 set.
#[derive(Debug, Clone, Copy, PartialEq, Eq, Structural)]
pub enum Exception {
    InstructionAddressMissaligned,
    IllegralInstruction,
    EnvironmentCallFromUMode,
    EnvironmentCallFromSMode,
    EnvironmentCallFromMMode,
    SuperSoftInt,
}

impl Exception {
    /// The full cause value written to `mcause`/`scause`: the cause code,
    /// with bit 63 set for interrupts.
    pub open spec fn spec_cause(self) -> u64 {
        match self {
            Exception::InstructionAddressMissaligned => 0,
            Exception::IllegralInstruction => 2,
            Exception::EnvironmentCallFromUMode => 8,
            Exception::EnvironmentCallFromSMode => 9,
            Exception::EnvironmentCallFromMMode => 11,
            Exception::SuperSoftInt => 0x8000_0000_0000_0001,
        }
    }

    /// Returns the cause value written to `mcause`/`scause`.
    #[verifier::when_used_as_spec(spec_cause)]
    pub fn cause(self) -> (r: u64)
        ensures
            r == self.spec_cause(),
    {
        match self {
            Exception::InstructionAddressMissaligned => 0,
            Exception::IllegralInstruction => 2,
            Exception::EnvironmentCallFromUMode => 8,
            Exception::EnvironmentCallFromSMode => 9,
            Exception::EnvironmentCallFromMMode => 11,
            Exception::SuperSoftInt => 0x8000_0000_0000_0001,
        }
    }

    /// Whether the trap is an asynchronous interrupt (bit 63 of the cause).
    pub open spec fn spec_is_interrupt(self) -> bool {
        self == Exception::SuperSoftInt
    }

    /// Returns whether the trap is an asynchronous interrupt.
    #[verifier::when_used_as_spec(spec_is_interrupt)]
    pub fn is_interrupt(self) -> (r: bool)
        ensures
            r == self.spec_is_interrupt(),
    {
        match self {
            Exception::SuperSoftInt => true,
            _ => false,
        }
    }

    /// The cause code with the interrupt bit stripped: what delegation is
    /// looked up by and what a vectored trap vector is scaled by.
    pub open spec fn spec_code(self) -> u64 {
        match self {
            Exception::InstructionAddressMissaligned => 0,
            Exception::IllegralInstruction => 2,
            Exception::EnvironmentCallFromUMode => 8,
            Exception::EnvironmentCallFromSMode => 9,
            Exception::EnvironmentCallFromMMode => 11,
            Exception::SuperSoftInt => 1,
        }
    }

    /// Returns the cause code with the interrupt bit stripped.
    #[verifier::when_used_as_spec(spec_code)]
    pub fn code(self) -> (r: u64)
        ensures
            r == self.spec_code(),
            r < 16,
    {
        match self {
            Exception::InstructionAddressMissaligned => 0,
            Exception::IllegralInstruction => 2,
            Exception::EnvironmentCallFromUMode => 8,
            Exception::EnvironmentCallFromSMode => 9,
            Exception::EnvironmentCallFromMMode => 11,
            Exception::SuperSoftInt => 1,
        }
    }
}

/// Why execution cannot continue. `Trap(e)` is an architectural trap,
/// handled inside the simulated machine by the trap unit. The other
/// variants mark states the model declares out of its coverage — where the
/// reference behavior is a diagnostic abort of the host — and they end the
/// run instead.
#[derive(Debug, Clone, Copy, PartialEq, Eq, Structural)]
pub enum Fault {
    Trap(Exception),
    NestedInterrupt,
    UnsupportedInterrupt,
    InvalidPrivilege,
    WfiTimeout,
    WfiNoPendingInterrupt,
    StepLimitReached,
    SfenceOutsideSMode,
    VectoredJumpOutsideMMode,
    UnimplementedInstruction,
}

} // verus!
