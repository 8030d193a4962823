//! The trap unit: classifies a trap, applies machine-to-supervisor
//! delegation, saves the interrupted context into the status registers, and
//! redirects the program counter to the trap vector.

use vstd::prelude::*;

use crate::cpu::InstIsa;
use crate::csr::{
    Csr, CSR_MCAUSE, CSR_MEPC, CSR_MSTATUS, CSR_MTVAL, CSR_SCAUSE, CSR_SEPC, CSR_SSTATUS,
    CSR_STVAL, CSR_MSTATUS_MIE_MASK, CSR_MSTATUS_MPIE_MASK, CSR_MSTATUS_MPP_MASK,
    CSR_MSTATUS_SIE_MASK, CSR_MSTATUS_SPIE_MASK, CSR_MSTATUS_SPP_MASK, CSR_SSTATUS_MASK,
};
use crate::emulator::Emulator;
use crate::exception::{Exception, Fault};
use crate::Priv;

verus! {

/// Whether a trap taken below machine mode is delegated to supervisor mode:
/// the bit of `medeleg` (for exceptions) or `mideleg` (for interrupts) at
/// the cause code.
pub open spec fn trap_delegated(c: Csr, p: Priv, e: Exception) -> bool {
    p != Priv::M && (if e.spec_is_interrupt() {
        (c.mideleg >> e.spec_code()) & 0x1 != 0
    } else {
        (c.medeleg >> e.spec_code()) & 0x1 != 0
    })
}

/// The CSR file after trap entry into supervisor mode: the interrupted
/// privilege goes to `sstatus.SPP`, `sstatus.SIE` moves to `sstatus.SPIE`
/// and is cleared, `sepc` takes the faulting address (the next address for
/// an interrupt), `scause` takes the cause, and `stval` is cleared (the
/// illegal-instruction path stores the offending code word over it).
pub open spec fn trap_to_s(c: Csr, p: Priv, pc: u64, e: Exception) -> Csr {
    let sstatus = c.mstatus & CSR_SSTATUS_MASK;
    let spie = (sstatus & CSR_MSTATUS_SIE_MASK) >> 1;
    let next_sstatus = (sstatus & !CSR_MSTATUS_SPP_MASK & !CSR_MSTATUS_SPIE_MASK
        & !CSR_MSTATUS_SIE_MASK) | (p.spec_code() << 8) | (spie << 5);
    Csr {
        mstatus: (c.mstatus & !CSR_SSTATUS_MASK) | (next_sstatus & CSR_SSTATUS_MASK),
        sepc: if e.spec_is_interrupt() {
            pc.wrapping_add(4)
        } else {
            pc
        },
        scause: e.spec_cause(),
        stval: 0,
        ..c
    }
}

/// The CSR file after trap entry into machine mode: the interrupted
/// privilege goes to `mstatus.MPP`, `mstatus.MIE` moves to `mstatus.MPIE`
/// and is cleared, `mepc` takes the faulting address (the next address for
/// an interrupt), `mcause` takes the cause, and `mtval` is cleared (the
/// illegal-instruction path stores the offending code word over it).
pub open spec fn trap_to_m(c: Csr, p: Priv, pc: u64, e: Exception) -> Csr {
    let mpie = (c.mstatus & CSR_MSTATUS_MIE_MASK) >> 3;
    Csr {
        mstatus: (c.mstatus & !CSR_MSTATUS_MPP_MASK & !CSR_MSTATUS_MPIE_MASK
            & !CSR_MSTATUS_MIE_MASK) | (p.spec_code() << 11) | (mpie << 7),
        mepc: if e.spec_is_interrupt() {
            pc.wrapping_add(4)
        } else {
            pc
        },
        mcause: e.spec_cause(),
        mtval: 0,
        ..c
    }
}

/// Whether an illegal-instruction trap is one the model knows how to
/// deliver: a zero or disabled-compressed code word, or a fault raised by
/// the CSR instructions, SFENCE.VMA, SRET or WFI. Anything else marks an
/// instruction the model has not implemented.
pub open spec fn illegal_trap_supported(s: Emulator) -> bool {
    let raw = s.inst.raw;
    let op = raw & 0x7f;
    let f3 = (raw >> 12) & 0x7;
    let f7 = raw >> 25;
    ||| (s.inst.isa != InstIsa::C && raw == 0)
    ||| (!s.c_ext_enabled() && s.inst.isa == InstIsa::C)
    ||| (op == 0x73 && (f3 == 1 || f3 == 2 || f3 == 3 || (f3 == 0 && f7 == 0b1001) || raw
        == 0x1020_0073 || raw == 0x1050_0073))
}

/// What delivering the trap `e` does: the delegation decision, the saved
/// context, the privilege change and the vector redirect, relating the
/// machine before (`pre`) and after (`post`) and the result `r`.
#[verifier::opaque]
pub open spec fn post_handle_exception(
    pre: Emulator,
    post: Emulator,
    e: Exception,
    r: Result<(), Fault>,
) -> bool {
                let delegated = trap_delegated(pre.csr, pre.current_priv, e);
                let p2 = if delegated {
                    Priv::S
                } else {
                    Priv::M
                };
                let c2 = if delegated {
                    trap_to_s(pre.csr, pre.current_priv, pre.pc, e)
                } else {
                    trap_to_m(pre.csr, pre.current_priv, pre.pc, e)
                };
                let xtvec = if p2 == Priv::M {
                    c2.mtvec
                } else {
                    c2.stvec
                };
                if e == Exception::SuperSoftInt {
                    if p2 == Priv::M {
                        r == Result::<(), Fault>::Ok(()) && post == (Emulator {
                            csr: c2,
                            current_priv: p2,
                            pc: if xtvec & 0x3 == 1 {
                                (xtvec & !0x3).wrapping_add(4)
                            } else {
                                xtvec & !0x3
                            },
                            ..pre
                        })
                    } else {
                        r == Result::<(), Fault>::Err(Fault::VectoredJumpOutsideMMode) && post == (Emulator { csr: c2, current_priv: p2, ..pre })
                    }
                } else if e == Exception::IllegralInstruction {
                    if illegal_trap_supported(pre) {
                        r == Result::<(), Fault>::Ok(()) && post == (Emulator {
                            csr: if p2 == Priv::M {
                                Csr { mtval: pre.inst.raw as u64, ..c2 }
                            } else {
                                Csr { stval: pre.inst.raw as u64, ..c2 }
                            },
                            current_priv: p2,
                            pc: xtvec & !0x3,
                            ..pre
                        })
                    } else {
                        r == Result::<(), Fault>::Err(Fault::UnimplementedInstruction) && post == (Emulator { csr: c2, current_priv: p2, ..pre })
                    }
                } else {
                    r == Result::<(), Fault>::Ok(()) && post == (Emulator {
                        csr: c2,
                        current_priv: p2,
                        pc: xtvec & !0x3,
                        ..pre
                    })
                }
            }

impl Emulator {
    /// Redirects the program counter to the base of a trap vector (its low
    /// two bits masked off).
    pub fn exception_direct_jump(&mut self, xtvec: u64)
        ensures
            *final(self) == (Emulator { pc: xtvec & !0x3, ..*old(self) }),
    {
        let base: u64 = xtvec & !0x3;
        self.pc = base;
    }

    /// Redirects the program counter to an interrupt target: the vector
    /// base plus four times the cause code in Vectored mode (low vector
    /// bits 01), the bare base in Direct mode. Only supported from machine
    /// mode.
    pub fn interupt_vectored_jump(&mut self, xtvec: u64, xcause: u64) -> (r: Result<(), Fault>)
        ensures
            old(self).current_priv != Priv::M ==> r == Result::<(), Fault>::Err(
                Fault::VectoredJumpOutsideMMode,
            ) && *final(self) == *old(self),
            old(self).current_priv == Priv::M ==> r == Result::<(), Fault>::Ok(()) && *final(self)
                == (Emulator {
                pc: if xtvec & 0x3 == 1 {
                    (xtvec & !0x3).wrapping_add((xcause & !(1u64 << 63)).wrapping_mul(4))
                } else {
                    xtvec & !0x3
                },
                ..*old(self)
            }),
    {
        if self.current_priv != Priv::M {
            return Err(Fault::VectoredJumpOutsideMMode);
        }
        let base: u64 = xtvec & !0x3;
        if xtvec & 0x3 == 1 {
            let cause: u64 = xcause & !(1u64 << 63);
            self.pc = base.wrapping_add(cause.wrapping_mul(4));
        } else {
            self.pc = base;
        }
        Ok(())
    }

    /// Delivers a trap: applies delegation, saves the interrupted context
    /// into the target mode's status registers, enters the target mode, and
    /// redirects the program counter through the trap vector (for an
    /// interrupt with the vector in Vectored mode, offset by four times the
    /// cause code). An
    /// illegal-instruction trap for a code word the model should have
    /// implemented, or a vectored interrupt outside machine mode, ends the
    /// run instead (the saved context stays written, the program counter
    /// stays put).
    pub fn handle_exception(&mut self, e: Exception) -> (r: Result<(), Fault>)
        requires
            old(self).wf(),
        ensures
            final(self).wf(),
            post_handle_exception(*old(self), *final(self), e, r),
            final(self).riscv_tests_exit_memory_address == old(self).riscv_tests_exit_memory_address,
    {
        proof {
            reveal(post_handle_exception);
        }
        let is_interrupt: bool = e.is_interrupt();
        let medeleg: u64 = self.csr.medeleg;
        let mideleg: u64 = self.csr.mideleg;
        let cause_code: u64 = e.code();

        let delegated: bool = self.current_priv != Priv::M && ((!is_interrupt && (medeleg
            >> cause_code) & 0x1 != 0) || (is_interrupt && (mideleg >> cause_code) & 0x1 != 0));

        if delegated {
            let spp: u64 = self.current_priv.code();
            self.current_priv = Priv::S;

            let sstatus: u64 = self.csr.mstatus & CSR_SSTATUS_MASK;
            let spie: u64 = (sstatus & CSR_MSTATUS_SIE_MASK) >> 1;

            let sepc: u64 = if is_interrupt {
                self.pc.wrapping_add(4)
            } else {
                self.pc
            };
            let _ = self.write_raw_csr(CSR_SEPC, sepc);

            let next_sstatus: u64 = (sstatus & !CSR_MSTATUS_SPP_MASK & !CSR_MSTATUS_SPIE_MASK
                & !CSR_MSTATUS_SIE_MASK) | (spp << 8) | (spie << 5);
            let _ = self.write_raw_csr(CSR_SSTATUS, next_sstatus);

            let _ = self.write_raw_csr(CSR_SCAUSE, e.cause());
            let _ = self.write_raw_csr(CSR_STVAL, 0);
        } else {
            let mpp: u64 = self.current_priv.code();
            self.current_priv = Priv::M;

            let mstatus: u64 = self.csr.mstatus;
            let mpie: u64 = (mstatus & CSR_MSTATUS_MIE_MASK) >> 3;

            let mepc: u64 = if is_interrupt {
                self.pc.wrapping_add(4)
            } else {
                self.pc
            };
            let _ = self.write_raw_csr(CSR_MEPC, mepc);

            let next_mstatus: u64 = (mstatus & !CSR_MSTATUS_MPP_MASK & !CSR_MSTATUS_MPIE_MASK
                & !CSR_MSTATUS_MIE_MASK) | (mpp << 11) | (mpie << 7);
            let _ = self.write_raw_csr(CSR_MSTATUS, next_mstatus);

            let _ = self.write_raw_csr(CSR_MCAUSE, e.cause());
            let _ = self.write_raw_csr(CSR_MTVAL, 0);
        }

        let xtvec: u64 = if self.current_priv == Priv::M {
            self.csr.mtvec
        } else {
            self.csr.stvec
        };

        match e {
            Exception::EnvironmentCallFromMMode | Exception::EnvironmentCallFromUMode
                | Exception::EnvironmentCallFromSMode
                | Exception::InstructionAddressMissaligned => {
                self.exception_direct_jump(xtvec);
                Ok(())
            },
            Exception::IllegralInstruction => {
                let inst: u32 = self.inst.raw();
                if (self.inst.isa() != InstIsa::C && inst == 0) || (!self.is_c_extension_enabled()
                    && self.inst.isa() == InstIsa::C) {
                    if self.current_priv == Priv::M {
                        let _ = self.write_raw_csr(CSR_MTVAL, inst as u64);
                    } else {
                        let _ = self.write_raw_csr(CSR_STVAL, inst as u64);
                    }
                    self.exception_direct_jump(xtvec);
                    Ok(())
                } else {
                    let op: u32 = self.inst.op();
                    let funct3: u32 = (inst >> 12) & 0x7;
                    let funct7: u32 = inst >> 25;
                    if op == 0b1110011 && ((funct3 == 0b001 || funct3 == 0b010 || funct3 == 0b011)
                        || (funct3 == 0 && funct7 == 0b1001) || inst == 0x1020_0073 || inst
                        == 0x1050_0073) {
                        if self.current_priv == Priv::M {
                            let _ = self.write_raw_csr(CSR_MTVAL, inst as u64);
                        } else {
                            let _ = self.write_raw_csr(CSR_STVAL, inst as u64);
                        }
                        self.exception_direct_jump(xtvec);
                        Ok(())
                    } else {
                        Err(Fault::UnimplementedInstruction)
                    }
                }
            },
            Exception::SuperSoftInt => {
                proof {
                    assert(0x8000_0000_0000_0001u64 & !(1u64 << 63) == 1) by (bit_vector);
                }
                self.interupt_vectored_jump(xtvec, e.cause())
            },
        }
    }
}

} // verus!
