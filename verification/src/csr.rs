//! The control-and-status register file: named 64-bit registers with
//! per-register write masks (WARL behavior), privilege gating, the aliased
//! `sstatus` view of `mstatus`, and the raw accessors the trap unit uses.

use vstd::prelude::*;

use crate::emulator::Emulator;
use crate::exception::{Exception, Fault};
use crate::Priv;

verus! {

pub const CSR_SSTATUS: u64 = 0x100;
pub const CSR_STVEC: u64 = 0x105;
pub const CSR_SCOUNTEREN: u64 = 0x106;
pub const CSR_SEPC: u64 = 0x141;
pub const CSR_SCAUSE: u64 = 0x142;
pub const CSR_STVAL: u64 = 0x143;
pub const CSR_SATP: u64 = 0x180;
pub const CSR_MSTATUS: u64 = 0x300;
pub const CSR_MISA: u64 = 0x301;
pub const CSR_MEDELEG: u64 = 0x302;
pub const CSR_MIDELEG: u64 = 0x303;
pub const CSR_MIE: u64 = 0x304;
pub const CSR_MTVEC: u64 = 0x305;
pub const CSR_MCOUNTEREN: u64 = 0x306;
pub const CSR_MSCRATCH: u64 = 0x340;
pub const CSR_MEPC: u64 = 0x341;
pub const CSR_MCAUSE: u64 = 0x342;
pub const CSR_MTVAL: u64 = 0x343;
pub const CSR_MIP: u64 = 0x344;
pub const CSR_MCYCLE: u64 = 0x800;
pub const CSR_CYCLE: u64 = 0xc00;

pub const CSR_MSTATUS_MPP_MASK: u64 = 0x1800;
pub const CSR_MSTATUS_SPP_MASK: u64 = 0x100;
pub const CSR_MSTATUS_MIE_MASK: u64 = 0x8;
pub const CSR_MSTATUS_SIE_MASK: u64 = 0x2;
pub const CSR_MSTATUS_MPIE_MASK: u64 = 0x80;
pub const CSR_MSTATUS_SPIE_MASK: u64 = 0x20;
pub const CSR_MSTATUS_TVM_MASK: u64 = 0x10_0000;
pub const CSR_MSTATUS_TSR_MASK: u64 = 0x40_0000;
pub const CSR_MSTATUS_TW_MASK: u64 = 0x20_0000;
pub const CSR_MSTATUS_MPRV_MASK: u64 = 0x2_0000;
pub const CSR_MSTATUS_XXL_MASK: u64 = 0xa_0000_0000;

/// The `mstatus` bits this model implements.
pub const CSR_MSTATUS_MASK: u64 = 0x4019aa;

/// The `mstatus` bits visible through the `sstatus` alias.
pub const CSR_SSTATUS_MASK: u64 = 0x122;

/// The interrupt causes `mideleg`, `mie` and `mip` may carry.
pub const CAUSE_INTERRUPT_MASK: u64 = 0x2aaa;

/// The exception causes `medeleg` may carry.
pub const CAUSE_EXCEPTION_MASK: u64 = 0xcbbff;

/// The stored control-and-status registers. `sstatus` and `cycle` have no
/// storage of their own: they are computed views of `mstatus` and
/// `mcycle`.
#[derive(Debug, Clone, Copy, PartialEq, Eq, Structural)]
pub struct Csr {
    pub stvec: u64,
    pub scounteren: u64,
    pub sepc: u64,
    pub scause: u64,
    pub stval: u64,
    pub satp: u64,
    pub mstatus: u64,
    pub misa: u64,
    pub mtvec: u64,
    pub medeleg: u64,
    pub mideleg: u64,
    pub mie: u64,
    pub mcounteren: u64,
    pub mscratch: u64,
    pub mepc: u64,
    pub mcause: u64,
    pub mtval: u64,
    pub mip: u64,
    pub pmpcfg0: u64,
    pub pmpaddr0: u64,
    pub mnstatus: u64,
    pub mcycle: u64,
}

impl Csr {
    /// The reset values: `mstatus` holds only the 64-bit XLEN fields,
    /// `misa` advertises RV64 with the IMACSU extensions, everything else
    /// is zero.
    pub open spec fn spec_reset() -> Csr {
        Csr {
            stvec: 0,
            scounteren: 0,
            sepc: 0,
            scause: 0,
            stval: 0,
            satp: 0,
            mstatus: CSR_MSTATUS_XXL_MASK,
            misa: 0x8000_0000_0014_1105,
            mtvec: 0,
            medeleg: 0,
            mideleg: 0,
            mie: 0,
            mcounteren: 0,
            mscratch: 0,
            mepc: 0,
            mcause: 0,
            mtval: 0,
            mip: 0,
            pmpcfg0: 0,
            pmpaddr0: 0,
            mnstatus: 0,
            mcycle: 0,
        }
    }

    /// A freshly reset CSR file.
    pub fn reset() -> (r: Csr)
        ensures
            r == Csr::spec_reset(),
    {
        Csr {
            stvec: 0,
            scounteren: 0,
            sepc: 0,
            scause: 0,
            stval: 0,
            satp: 0,
            mstatus: CSR_MSTATUS_XXL_MASK,
            misa: 0x8000_0000_0014_1105,
            mtvec: 0,
            medeleg: 0,
            mideleg: 0,
            mie: 0,
            mcounteren: 0,
            mscratch: 0,
            mepc: 0,
            mcause: 0,
            mtval: 0,
            mip: 0,
            pmpcfg0: 0,
            pmpaddr0: 0,
            mnstatus: 0,
            mcycle: 0,
        }
    }
}

impl Default for Csr {
    /// The reset CSR file.
    fn default() -> (r: Self)
        ensures
            r == Csr::spec_reset(),
    {
        Csr::reset()
    }
}

/// What a raw (unchecked) read of a CSR address returns: the stored value,
/// a computed view (`sstatus` is `mstatus` masked, `cycle` is `mcycle`), a
/// fixed identification constant, or nothing for an unrecognized address.
pub open spec fn spec_csr_read_raw(c: Csr, csr: u64) -> Option<u64> {
    if csr == CSR_SSTATUS {
        Some(c.mstatus & CSR_SSTATUS_MASK)
    } else if csr == CSR_STVEC {
        Some(c.stvec)
    } else if csr == CSR_SCOUNTEREN {
        Some(c.scounteren)
    } else if csr == CSR_SEPC {
        Some(c.sepc)
    } else if csr == CSR_SCAUSE {
        Some(c.scause)
    } else if csr == CSR_STVAL {
        Some(c.stval)
    } else if csr == CSR_SATP {
        Some(c.satp)
    } else if csr == CSR_MSTATUS {
        Some(c.mstatus)
    } else if csr == CSR_MISA {
        Some(c.misa)
    } else if csr == CSR_MEDELEG {
        Some(c.medeleg)
    } else if csr == CSR_MIDELEG {
        Some(c.mideleg)
    } else if csr == CSR_MIE {
        Some(c.mie)
    } else if csr == CSR_MTVEC {
        Some(c.mtvec)
    } else if csr == CSR_MCOUNTEREN {
        Some(c.mcounteren)
    } else if csr == CSR_MSCRATCH {
        Some(c.mscratch)
    } else if csr == CSR_MEPC {
        Some(c.mepc)
    } else if csr == CSR_MCAUSE {
        Some(c.mcause)
    } else if csr == CSR_MTVAL {
        Some(c.mtval)
    } else if csr == CSR_MIP {
        Some(c.mip)
    } else if csr == CSR_MCYCLE || csr == CSR_CYCLE {
        Some(c.mcycle)
    } else if csr == 0xf11 {
        Some(0xba5eba11)
    } else if csr == 0xf12 {
        Some(0x05500550)
    } else if csr == 0xf13 {
        Some(0x1)
    } else if csr == 0xf14 {
        Some(0)
    } else {
        None
    }
}

/// What a checked CSR read returns: the raw read, gated by the privilege
/// field of the address and, for `cycle`, by `mcounteren`.
pub open spec fn spec_csr_read(c: Csr, p: Priv, csr: u64) -> Option<u64> {
    if (csr >> 8) & 0x3 > p.spec_code() {
        None
    } else if csr == CSR_CYCLE && p != Priv::M && c.mcounteren & 0x1 == 0 {
        None
    } else {
        spec_csr_read_raw(c, csr)
    }
}

/// The stored `mcause` value for a software write of `v`: cause values the
/// ISA defines (interrupt bit plus a defined interrupt code, or a defined
/// exception code) are stored as written, anything else is stored as zero.
pub open spec fn mcause_stored(v: u64) -> u64 {
    if v >> 63 == 1 {
        let code = v & !(1u64 << 63);
        if code == 1 || code == 3 || code == 5 || code == 7 || code == 9 || code == 11 || code
            == 13 {
            v
        } else {
            0
        }
    } else {
        if v <= 9 || v == 11 || v == 12 || v == 13 || v == 15 || v == 18 || v == 19 {
            v
        } else {
            0
        }
    }
}

/// Law: writing back a value `mcause` can hold is a no-op — the stored
/// form of a write is already in stored form, so a read-modify-write cycle
/// through `mcause` preserves it.
pub proof fn lemma_mcause_write_back_noop(v: u64)
    ensures
        mcause_stored(mcause_stored(v)) == mcause_stored(v),
{
    assert(0u64 >> 63 == 0) by (bit_vector);
}

/// What a checked CSR write stores, given the program counter (the `misa`
/// write consults it): the new CSR file, or nothing where the write raises
/// an illegal-instruction trap (a value with unsupported `mstatus` bits, a
/// non-Bare `satp`, or an unrecognized address).
pub open spec fn spec_csr_write_table(c: Csr, pc: u64, csr: u64, v: u64) -> Option<Csr> {
    if csr == CSR_SSTATUS {
        if v & 0x8000_0001_0001_e640 != 0 {
            None
        } else {
            Some(Csr { mstatus: (c.mstatus & !CSR_SSTATUS_MASK) | (v & CSR_SSTATUS_MASK), ..c })
        }
    } else if csr == CSR_STVEC {
        Some(Csr { stvec: v & 0xffff_ffff_ffff_fffd, ..c })
    } else if csr == CSR_SCOUNTEREN {
        Some(Csr { scounteren: v, ..c })
    } else if csr == CSR_SEPC {
        Some(Csr { sepc: v & 0xffff_ffff_ffff_fffc, ..c })
    } else if csr == CSR_SATP {
        if v != 0 {
            None
        } else {
            Some(c)
        }
    } else if csr == CSR_MSTATUS {
        if v & 0x8000_0005_002f_e640 != 0 {
            None
        } else {
            Some(Csr { mstatus: (v & CSR_MSTATUS_MASK) | CSR_MSTATUS_XXL_MASK, ..c })
        }
    } else if csr == CSR_MISA {
        if (v >> 2) & 0x1 == 1 {
            Some(Csr { misa: c.misa | 4, ..c })
        } else if pc.wrapping_add(2) % 4 == 0 {
            Some(Csr { misa: c.misa & !4, ..c })
        } else {
            Some(c)
        }
    } else if csr == CSR_MTVEC {
        Some(Csr { mtvec: v & 0xffff_ffff_ffff_fffd, ..c })
    } else if csr == CSR_MEDELEG {
        Some(Csr { medeleg: v & CAUSE_EXCEPTION_MASK, ..c })
    } else if csr == CSR_MIDELEG {
        Some(Csr { mideleg: v & CAUSE_INTERRUPT_MASK, ..c })
    } else if csr == CSR_MIE {
        Some(Csr { mie: v & 0xaaa, ..c })
    } else if csr == CSR_MCOUNTEREN {
        Some(Csr { mcounteren: v, ..c })
    } else if csr == CSR_MSCRATCH {
        Some(Csr { mscratch: v, ..c })
    } else if csr == CSR_MEPC {
        Some(Csr { mepc: v & 0xffff_ffff_ffff_fffc, ..c })
    } else if csr == CSR_MCAUSE {
        Some(Csr { mcause: mcause_stored(v), ..c })
    } else if csr == CSR_MTVAL {
        Some(Csr { mtval: v, ..c })
    } else if csr == CSR_MIP {
        Some(Csr { mip: v & 0xaaa, ..c })
    } else if csr == 0x3a0 {
        Some(Csr { pmpcfg0: v, ..c })
    } else if csr == 0x3b0 {
        Some(Csr { pmpaddr0: v & 0x3_ffff_ffff_ffff, ..c })
    } else if csr == 0x744 {
        Some(Csr { mnstatus: v & 0x8, ..c })
    } else {
        None
    }
}

/// What a checked CSR write does: nothing for a read-only address (top two
/// address bits `11`) or an address above the current privilege, else the
/// write table.
pub open spec fn spec_csr_write(c: Csr, pc: u64, p: Priv, csr: u64, v: u64) -> Option<Csr> {
    if (csr >> 10) & 0x3 == 0b11 {
        None
    } else if (csr >> 8) & 0x3 > p.spec_code() {
        None
    } else {
        spec_csr_write_table(c, pc, csr, v)
    }
}

/// A value masked then re-masked through an alias keeps exactly the masked
/// bits: what is stored into the `sstatus` window of `mstatus` is what a
/// read of `sstatus` returns.
proof fn lemma_alias_mask(m: u64, v: u64, k: u64)
    by (bit_vector)
    ensures
        ((m & !k) | (v & k)) & k == v & k,
{
}

/// Masking with all ones keeps the value, and or-ing with zero keeps it.
proof fn lemma_mask_all_ones(v: u64)
    by (bit_vector)
    ensures
        v & 0xffff_ffff_ffff_ffff == v,
        v | 0 == v,
{
}

/// The write mask of each implemented CSR whose stored value is the
/// written value gated by a fixed mask.
pub open spec fn csr_warl_mask(csr: u64) -> u64 {
    if csr == CSR_SSTATUS {
        CSR_SSTATUS_MASK
    } else if csr == CSR_MSTATUS {
        CSR_MSTATUS_MASK
    } else if csr == CSR_STVEC || csr == CSR_MTVEC {
        0xffff_ffff_ffff_fffd
    } else if csr == CSR_SEPC || csr == CSR_MEPC {
        0xffff_ffff_ffff_fffc
    } else if csr == CSR_MEDELEG {
        CAUSE_EXCEPTION_MASK
    } else if csr == CSR_MIDELEG {
        CAUSE_INTERRUPT_MASK
    } else if csr == CSR_MIE || csr == CSR_MIP {
        0xaaa
    } else {
        0xffff_ffff_ffff_ffff
    }
}

/// The bits of each implemented CSR that read back as set no matter what
/// was written (the fixed 64-bit XLEN fields of `mstatus`).
pub open spec fn csr_fixed_bits(csr: u64) -> u64 {
    if csr == CSR_MSTATUS {
        CSR_MSTATUS_XXL_MASK
    } else {
        0
    }
}

/// Whether the write-then-read law applies to a CSR address: the address
/// is implemented, writable, and its stored value is the written value
/// gated by a fixed mask. (`misa`, `satp` and `mcause` constrain their
/// values in ways that are not a mask; `pmpcfg0`, `pmpaddr0` and
/// `mnstatus` are stored but not readable in this model.)
pub open spec fn csr_is_masked_warl(csr: u64) -> bool {
    csr == CSR_SSTATUS || csr == CSR_STVEC || csr == CSR_SCOUNTEREN || csr == CSR_SEPC || csr
        == CSR_MSTATUS || csr == CSR_MTVEC || csr == CSR_MEDELEG || csr == CSR_MIDELEG || csr
        == CSR_MIE || csr == CSR_MCOUNTEREN || csr == CSR_MSCRATCH || csr == CSR_MEPC || csr
        == CSR_MTVAL || csr == CSR_MIP
}

/// Law: for every implemented CSR whose WARL behavior is a fixed mask,
/// writing `v` and reading back yields `v & mask`, plus the register's
/// fixed bits.
pub proof fn lemma_csr_write_then_read(c: Csr, pc: u64, csr: u64, v: u64)
    requires
        csr_is_masked_warl(csr),
        spec_csr_write_table(c, pc, csr, v).is_some(),
    ensures
        spec_csr_read_raw(spec_csr_write_table(c, pc, csr, v).unwrap(), csr) == Some(
            (v & csr_warl_mask(csr)) | csr_fixed_bits(csr),
        ),
{
    lemma_alias_mask(c.mstatus, v, CSR_SSTATUS_MASK);
    lemma_mask_all_ones(v);
    lemma_mask_all_ones(v & csr_warl_mask(csr));
}

/// Law: `sstatus` reads as `mstatus & SSTATUS_MASK` at all times. The
/// alias has no storage of its own, so this holds of every CSR state.
pub proof fn lemma_sstatus_is_masked_mstatus(c: Csr)
    ensures
        spec_csr_read_raw(c, CSR_SSTATUS) == Some(c.mstatus & CSR_SSTATUS_MASK),
{
}

/// Law: a software write leaves the low two bits of `mepc` and `sepc`
/// zero, whatever value was written.
pub proof fn lemma_epc_low_bits_zero(c: Csr, pc: u64, csr: u64, v: u64)
    requires
        csr == CSR_MEPC || csr == CSR_SEPC,
    ensures
        spec_csr_write_table(c, pc, csr, v).is_some(),
        spec_csr_write_table(c, pc, csr, v).unwrap().mepc & 3 == (if csr == CSR_MEPC {
            0u64
        } else {
            c.mepc & 3
        }),
        spec_csr_write_table(c, pc, csr, v).unwrap().sepc & 3 == (if csr == CSR_SEPC {
            0u64
        } else {
            c.sepc & 3
        }),
{
    assert((v & 0xffff_ffff_ffff_fffc) & 3 == 0) by (bit_vector);
}

/// What the interrupt poll after an instruction finds: nothing when
/// `mstatus.MIE` is clear, the privilege is below machine mode or no
/// enabled interrupt is pending; the supervisor software interrupt when it
/// alone is pending; a diagnostic fault for any other pending bit.
pub open spec fn spec_interrupt_check(s: Emulator) -> Result<(), Fault> {
    if s.csr.mstatus & CSR_MSTATUS_MIE_MASK == 0 || s.current_priv != Priv::M || s.csr.mie
        & s.csr.mip == 0 {
        Result::<(), Fault>::Ok(())
    } else if s.csr.mie & s.csr.mip == 2 {
        Result::<(), Fault>::Err(Fault::Trap(Exception::SuperSoftInt))
    } else if (s.csr.mie & s.csr.mip) & 2 != 0 {
        Result::<(), Fault>::Err(Fault::NestedInterrupt)
    } else {
        Result::<(), Fault>::Err(Fault::UnsupportedInterrupt)
    }
}

impl Emulator {
    /// Resets the CSR file.
    pub fn initialize_csr(&mut self)
        ensures
            *final(self) == (Emulator { csr: Csr::spec_reset(), ..*old(self) }),
    {
        self.csr = Csr::reset();
    }

    /// Enables or disables the compressed extension in `misa`. Disabling is
    /// ignored when the next instruction (at `pc + 2`) would not be 4-byte
    /// aligned; no trap is raised either way.
    pub fn set_c_extenstion(&mut self, enabled: bool)
        ensures
            *final(self) == (Emulator { csr: final(self).csr, ..*old(self) }),
            final(self).csr == (Csr { misa: final(self).csr.misa, ..old(self).csr }),
            final(self).csr.misa == (if enabled {
                old(self).csr.misa | 4
            } else if old(self).pc.wrapping_add(2) % 4 == 0 {
                old(self).csr.misa & !4
            } else {
                old(self).csr.misa
            }),
    {
        if enabled {
            self.csr.misa = self.csr.misa | 4;
        } else {
            if self.pc.wrapping_add(2) % 4 == 0 {
                self.csr.misa = self.csr.misa & !4;
            }
        }
    }

    /// Checks that the privilege field of a CSR address (bits 9:8) does not
    /// exceed the current privilege.
    pub fn check_csr_priv(&self, csr: u64) -> (r: Result<(), Fault>)
        ensures
            r == (if (csr >> 8) & 0x3 > self.current_priv.spec_code() {
                Result::<(), Fault>::Err(Fault::Trap(Exception::IllegralInstruction))
            } else {
                Result::<(), Fault>::Ok(())
            }),
    {
        if (csr >> 8) & 0x3 > self.current_priv.code() {
            Err(Fault::Trap(Exception::IllegralInstruction))
        } else {
            Ok(())
        }
    }

    /// Polls for a pending interrupt: with `mstatus.MIE` set, in machine
    /// mode, an active (`mie & mip`) supervisor software interrupt is
    /// returned as a trap. Any other active bit is outside the model's
    /// coverage.
    pub fn check_interrupt_active(&self) -> (r: Result<(), Fault>)
        ensures
            r == spec_interrupt_check(*self),
    {
        if self.csr.mstatus & CSR_MSTATUS_MIE_MASK == 0 {
            return Ok(());
        }
        if self.current_priv != Priv::M {
            return Ok(());
        }
        let active: u64 = self.csr.mie & self.csr.mip;
        if active == 0 {
            Ok(())
        } else if active == 2 {
            Err(Fault::Trap(Exception::SuperSoftInt))
        } else if active & 2 != 0 {
            Err(Fault::NestedInterrupt)
        } else {
            Err(Fault::UnsupportedInterrupt)
        }
    }

    /// Counts one executed instruction in `mcycle`.
    pub fn add_cycle(&mut self)
        ensures
            *final(self) == (Emulator { csr: final(self).csr, ..*old(self) }),
            final(self).csr == (Csr {
                mcycle: old(self).csr.mcycle.wrapping_add(1),
                ..old(self).csr
            }),
    {
        self.csr.mcycle = self.csr.mcycle.wrapping_add(1);
    }

    /// Reads a CSR without privilege or counter-enable checks: the stored
    /// value, or the computed view for the aliased registers. An
    /// unrecognized address is an illegal-instruction trap.
    pub fn read_raw_csr(&self, csr: u64) -> (r: Result<u64, Fault>)
        ensures
            r == (match spec_csr_read_raw(self.csr, csr) {
                Some(v) => Result::<u64, Fault>::Ok(v),
                None => Result::<u64, Fault>::Err(Fault::Trap(Exception::IllegralInstruction)),
            }),
    {
        match csr {
            CSR_SSTATUS => Ok(self.csr.mstatus & CSR_SSTATUS_MASK),
            CSR_STVEC => Ok(self.csr.stvec),
            CSR_SCOUNTEREN => Ok(self.csr.scounteren),
            CSR_SEPC => Ok(self.csr.sepc),
            CSR_SCAUSE => Ok(self.csr.scause),
            CSR_STVAL => Ok(self.csr.stval),
            CSR_SATP => Ok(self.csr.satp),
            CSR_MSTATUS => Ok(self.csr.mstatus),
            CSR_MISA => Ok(self.csr.misa),
            CSR_MEDELEG => Ok(self.csr.medeleg),
            CSR_MIDELEG => Ok(self.csr.mideleg),
            CSR_MIE => Ok(self.csr.mie),
            CSR_MTVEC => Ok(self.csr.mtvec),
            CSR_MCOUNTEREN => Ok(self.csr.mcounteren),
            CSR_MSCRATCH => Ok(self.csr.mscratch),
            CSR_MEPC => Ok(self.csr.mepc),
            CSR_MCAUSE => Ok(self.csr.mcause),
            CSR_MTVAL => Ok(self.csr.mtval),
            CSR_MIP => Ok(self.csr.mip),
            CSR_MCYCLE | CSR_CYCLE => Ok(self.csr.mcycle),
            0xf11 => Ok(0xba5eba11),
            0xf12 => Ok(0x05500550),
            0xf13 => Ok(0x1),
            0xf14 => Ok(0),
            _ => Err(Fault::Trap(Exception::IllegralInstruction)),
        }
    }

    /// Reads a CSR, after checking the privilege field of the address and,
    /// for the user-mode `cycle` counter, the counter-enable bit.
    pub fn read_csr(&self, csr: u64) -> (r: Result<u64, Fault>)
        requires
            csr < 0x1000,
        ensures
            r == (match spec_csr_read(self.csr, self.current_priv, csr) {
                Some(v) => Result::<u64, Fault>::Ok(v),
                None => Result::<u64, Fault>::Err(Fault::Trap(Exception::IllegralInstruction)),
            }),
    {
        self.check_csr_priv(csr)?;
        if csr == CSR_CYCLE {
            if self.current_priv != Priv::M && self.csr.mcounteren & 0x1 == 0 {
                return Err(Fault::Trap(Exception::IllegralInstruction));
            }
        }
        self.read_raw_csr(csr)
    }

    /// Writes a CSR: refuses a read-only address (bits 11:10 both set) or
    /// one above the current privilege, then stores the value through the
    /// register's write mask.
    pub fn write_csr(&mut self, csr: u64, value: u64) -> (r: Result<(), Fault>)
        requires
            csr < 0x1000,
        ensures
            *final(self) == (Emulator { csr: final(self).csr, ..*old(self) }),
            r == (match spec_csr_write(
                old(self).csr,
                old(self).pc,
                old(self).current_priv,
                csr,
                value,
            ) {
                Some(_) => Result::<(), Fault>::Ok(()),
                None => Result::<(), Fault>::Err(Fault::Trap(Exception::IllegralInstruction)),
            }),
            final(self).csr == (match spec_csr_write(
                old(self).csr,
                old(self).pc,
                old(self).current_priv,
                csr,
                value,
            ) {
                Some(c) => c,
                None => old(self).csr,
            }),
    {
        if (csr >> 10) & 0x3 == 0b11 {
            return Err(Fault::Trap(Exception::IllegralInstruction));
        }
        self.check_csr_priv(csr)?;
        match csr {
            CSR_SSTATUS => {
                if value & 0x8000_0001_0001_e640 != 0 {
                    return Err(Fault::Trap(Exception::IllegralInstruction));
                }
                self.csr.mstatus = (self.csr.mstatus & !CSR_SSTATUS_MASK) | (value
                    & CSR_SSTATUS_MASK);
            },
            CSR_STVEC => {
                self.csr.stvec = value & 0xffff_ffff_ffff_fffd;
            },
            CSR_SCOUNTEREN => {
                self.csr.scounteren = value;
            },
            CSR_SEPC => {
                self.csr.sepc = value & 0xffff_ffff_ffff_fffc;
            },
            CSR_SATP => {
                if value != 0 {
                    return Err(Fault::Trap(Exception::IllegralInstruction));
                }
            },
            CSR_MSTATUS => {
                if value & 0x8000_0005_002f_e640 != 0 {
                    return Err(Fault::Trap(Exception::IllegralInstruction));
                }
                self.csr.mstatus = (value & CSR_MSTATUS_MASK) | CSR_MSTATUS_XXL_MASK;
            },
            CSR_MISA => {
                self.set_c_extenstion((value >> 2) & 0x1 == 1);
            },
            CSR_MTVEC => {
                self.csr.mtvec = value & 0xffff_ffff_ffff_fffd;
            },
            CSR_MEDELEG => {
                self.csr.medeleg = value & CAUSE_EXCEPTION_MASK;
            },
            CSR_MIDELEG => {
                self.csr.mideleg = value & CAUSE_INTERRUPT_MASK;
            },
            CSR_MIE => {
                self.csr.mie = value & 0xaaa;
            },
            CSR_MCOUNTEREN => {
                self.csr.mcounteren = value;
            },
            CSR_MSCRATCH => {
                self.csr.mscratch = value;
            },
            CSR_MEPC => {
                self.csr.mepc = value & 0xffff_ffff_ffff_fffc;
            },
            CSR_MCAUSE => {
                let stored: u64 = if value >> 63 == 1 {
                    let code: u64 = value & !(1u64 << 63);
                    if code == 1 || code == 3 || code == 5 || code == 7 || code == 9 || code == 11
                        || code == 13 {
                        value
                    } else {
                        0
                    }
                } else {
                    if value <= 9 || value == 11 || value == 12 || value == 13 || value == 15
                        || value == 18 || value == 19 {
                        value
                    } else {
                        0
                    }
                };
                self.csr.mcause = stored;
            },
            CSR_MTVAL => {
                self.csr.mtval = value;
            },
            CSR_MIP => {
                self.csr.mip = value & 0xaaa;
            },
            0x3a0 => {
                self.csr.pmpcfg0 = value;
            },
            0x3b0 => {
                self.csr.pmpaddr0 = value & 0x3_ffff_ffff_ffff;
            },
            0x744 => {
                self.csr.mnstatus = value & 0x8;
            },
            _ => {
                return Err(Fault::Trap(Exception::IllegralInstruction));
            },
        }
        Ok(())
    }

    /// Writes a CSR with no checks and no masking, as the trap unit does
    /// when it saves trap state. Only the registers the trap unit touches
    /// are accepted; `sstatus` writes through the alias into `mstatus`.
    pub fn write_raw_csr(&mut self, csr: u64, value: u64) -> (r: Result<(), Fault>)
        ensures
            *final(self) == (Emulator { csr: final(self).csr, ..*old(self) }),
            csr == CSR_SSTATUS ==> r.is_ok() && final(self).csr == (Csr {
                mstatus: (old(self).csr.mstatus & !CSR_SSTATUS_MASK) | (value & CSR_SSTATUS_MASK),
                ..old(self).csr
            }),
            csr == CSR_MSTATUS ==> r.is_ok() && final(self).csr == (Csr {
                mstatus: value,
                ..old(self).csr
            }),
            csr == CSR_SEPC ==> r.is_ok() && final(self).csr == (Csr {
                sepc: value,
                ..old(self).csr
            }),
            csr == CSR_MEPC ==> r.is_ok() && final(self).csr == (Csr {
                mepc: value,
                ..old(self).csr
            }),
            csr == CSR_SCAUSE ==> r.is_ok() && final(self).csr == (Csr {
                scause: value,
                ..old(self).csr
            }),
            csr == CSR_MCAUSE ==> r.is_ok() && final(self).csr == (Csr {
                mcause: value,
                ..old(self).csr
            }),
            csr == CSR_STVAL ==> r.is_ok() && final(self).csr == (Csr {
                stval: value,
                ..old(self).csr
            }),
            csr == CSR_MTVAL ==> r.is_ok() && final(self).csr == (Csr {
                mtval: value,
                ..old(self).csr
            }),
            !(csr == CSR_SSTATUS || csr == CSR_MSTATUS || csr == CSR_SEPC || csr == CSR_MEPC || csr
                == CSR_SCAUSE || csr == CSR_MCAUSE || csr == CSR_STVAL || csr == CSR_MTVAL) ==> r
                == Result::<(), Fault>::Err(Fault::Trap(Exception::IllegralInstruction)) && final(self).csr == old(self).csr,
    {
        match csr {
            CSR_SSTATUS => {
                self.csr.mstatus = (self.csr.mstatus & !CSR_SSTATUS_MASK) | (value
                    & CSR_SSTATUS_MASK);
                Ok(())
            },
            CSR_MSTATUS => {
                self.csr.mstatus = value;
                Ok(())
            },
            CSR_SEPC => {
                self.csr.sepc = value;
                Ok(())
            },
            CSR_MEPC => {
                self.csr.mepc = value;
                Ok(())
            },
            CSR_SCAUSE => {
                self.csr.scause = value;
                Ok(())
            },
            CSR_MCAUSE => {
                self.csr.mcause = value;
                Ok(())
            },
            CSR_STVAL => {
                self.csr.stval = value;
                Ok(())
            },
            CSR_MTVAL => {
                self.csr.mtval = value;
                Ok(())
            },
            _ => Err(Fault::Trap(Exception::IllegralInstruction)),
        }
    }
}

} // verus!
