//! The executor: consumes the decoded instruction descriptor and performs
//! its semantics on the machine state — operand extraction, arithmetic,
//! memory access, control transfer, CSR access and the privileged
//! instructions.

use vstd::prelude::*;

use crate::alu::{alu_compute, spec_alu};
use crate::bits::{
    byte_of, as_signed, b_imm_field, extract_b_type, extract_i_type, extract_j_type,
    extract_r_type, extract_s_type, extract_u_type, j_imm_field, s_imm_field, sext, sign_extend,
    u64_from_le_bytes, u64_to_le_bytes,
};
use crate::cpu::{Inst, InstClass, InstFormat, InstKind};
use crate::csr::{CSR_MSTATUS, CSR_SSTATUS, CSR_MSTATUS_MIE_MASK, CSR_MSTATUS_MPIE_MASK,
    CSR_MSTATUS_MPP_MASK, CSR_MSTATUS_SIE_MASK, CSR_MSTATUS_SPIE_MASK, CSR_MSTATUS_SPP_MASK,
    CSR_MSTATUS_TSR_MASK, CSR_MSTATUS_TW_MASK, CSR_SSTATUS_MASK, Csr};
use crate::emulator::{Emulator, MEMORY_SIZE};
use crate::exception::{Exception, Fault};
use crate::register::Register;
use crate::Priv;

verus! {

/// The memory contents after writing the low `size` bytes of `v` at
/// `addr`, wrapping at the top of memory.
pub open spec fn mem_written(old_mem: Seq<u8>, addr: int, size: nat, v: u64) -> Seq<u8> {
    Seq::new(
        old_mem.len(),
        |j: int|
            if 0 <= (j - addr) % (MEMORY_SIZE as int) < size {
                byte_of(v, ((j - addr) % (MEMORY_SIZE as int)) as u64)
            } else {
                old_mem[j]
            },
    )
}

/// The register file after writing `v` to general register `rd` (a write
/// to `x0` changes nothing).
pub open spec fn with_rd(s: Emulator, rd: u64, v: u64) -> Seq<u64> {
    if rd == 0 {
        s.regs@
    } else {
        s.regs@.update(rd - 1, v)
    }
}

/// Whether a conditional branch is taken, by mnemonic; `None` for a
/// mnemonic that is not a conditional branch.
pub open spec fn spec_branch_taken(k: InstKind, a: u64, b: u64) -> Option<bool> {
    match k {
        InstKind::Beq => Some(a == b),
        InstKind::Bne => Some(a != b),
        InstKind::Blt => Some(as_signed(a) < as_signed(b)),
        InstKind::Bge => Some(as_signed(a) >= as_signed(b)),
        InstKind::Bltu => Some(a < b),
        InstKind::Bgeu => Some(a >= b),
        _ => None,
    }
}

/// How a load extends the value it read, by mnemonic.
pub open spec fn spec_load_extend(k: InstKind, v: u64) -> u64 {
    match k {
        InstKind::Lb => sext(7, v),
        InstKind::Lh => sext(15, v),
        InstKind::Lw | InstKind::CLw | InstKind::CLwsp | InstKind::CLd | InstKind::CLdsp => (
        if k == InstKind::Lw || k == InstKind::CLw || k == InstKind::CLwsp {
            sext(31, v)
        } else {
            v
        }),
        _ => v,
    }
}

/// The access width of a load, by mnemonic.
pub open spec fn spec_load_size(k: InstKind) -> nat {
    match k {
        InstKind::Lb | InstKind::Lbu => 1,
        InstKind::Lh | InstKind::Lhu => 2,
        InstKind::Lw | InstKind::Lwu | InstKind::CLw | InstKind::CLwsp => 4,
        _ => 8,
    }
}

/// What executing a conditional branch does (the B format). Relates the machine before (`pre`) and after (`post`)
/// and the result `r`.
pub open spec fn post_format_b(pre: Emulator, post: Emulator, r: Result<(), Fault>) -> bool {
                let raw = pre.inst.raw;
                let a = pre.reg_val(((raw >> 15) & 0x1f) as int);
                let b = pre.reg_val(((raw >> 20) & 0x1f) as int);
                let target = pre.pc.wrapping_add(sext(12, b_imm_field(raw) as u64));
                match spec_branch_taken(pre.inst.kind, a, b) {
                    Option::None => r == Result::<(), Fault>::Err(Fault::UnimplementedInstruction)
                        && post == pre,
                    Option::Some(false) => r == Result::<(), Fault>::Ok(()) && post
                        == pre,
                    Option::Some(true) => {
                        if !pre.c_ext_enabled() && target % 4 != 0 {
                            r == Result::<(), Fault>::Err(
                                Fault::Trap(Exception::InstructionAddressMissaligned),
                            ) && post == pre
                        } else {
                            r == Result::<(), Fault>::Ok(()) && post == (Emulator {
                                pc: target,
                                inst: (Inst { class: InstClass::Jump(true), ..pre.inst }),
                                ..pre
                            })
                        }
                    },
                }
            }

/// What executing JAL does (the J format). Relates the machine before (`pre`) and after (`post`)
/// and the result `r`.
pub open spec fn post_format_j(pre: Emulator, post: Emulator, r: Result<(), Fault>) -> bool {
                let raw = pre.inst.raw;
                let rd = ((raw >> 7) & 0x1f) as u64;
                let target = pre.pc.wrapping_add(sext(20, j_imm_field(raw) as u64));
                if !pre.c_ext_enabled() && target % 4 != 0 {
                    r == Result::<(), Fault>::Err(
                        Fault::Trap(Exception::InstructionAddressMissaligned),
                    ) && post == pre
                } else {
                    r == Result::<(), Fault>::Ok(()) && post == (Emulator {
                        pc: target,
                        regs: post.regs,
                        inst: (Inst { class: InstClass::Jump(true), ..pre.inst }),
                        ..pre
                    }) && post.regs@ == with_rd(
                        pre,
                        rd,
                        pre.pc.wrapping_add(4),
                    )
                }
            }

/// What executing LUI or AUIPC does (the U format). Relates the machine before (`pre`) and after (`post`)
/// and the result `r`.
pub open spec fn post_format_u(pre: Emulator, post: Emulator, r: Result<(), Fault>) -> bool {
                let raw = pre.inst.raw;
                let rd = ((raw >> 7) & 0x1f) as u64;
                let imm = sext(31, (raw & 0xffff_f000) as u64);
                match pre.inst.kind {
                    InstKind::Auipc => r == Result::<(), Fault>::Ok(()) && post
                        == (Emulator { regs: post.regs, ..pre }) && post.regs@
                        == with_rd(pre, rd, pre.pc.wrapping_add(imm)),
                    InstKind::Lui => r == Result::<(), Fault>::Ok(()) && post == (Emulator {
                        regs: post.regs,
                        ..pre
                    }) && post.regs@ == with_rd(pre, rd, imm),
                    _ => r == Result::<(), Fault>::Err(
                        Fault::Trap(Exception::IllegralInstruction),
                    ) && post == pre,
                }
            }

/// What executing a store does (the S format). Relates the machine before (`pre`) and after (`post`)
/// and the result `r`.
pub open spec fn post_format_s(pre: Emulator, post: Emulator, r: Result<(), Fault>) -> bool {
                let raw = pre.inst.raw;
                let a = pre.reg_val(((raw >> 15) & 0x1f) as int);
                let v = pre.reg_val(((raw >> 20) & 0x1f) as int);
                let addr = a.wrapping_add(sext(11, s_imm_field(raw) as u64));
                let size: nat = match pre.inst.kind {
                    InstKind::Sb => 1,
                    InstKind::Sh => 2,
                    InstKind::Sw => 4,
                    _ => 8,
                };
                match pre.inst.kind {
                    InstKind::Sb | InstKind::Sh | InstKind::Sw | InstKind::Sd => {
                        &&& r == Result::<(), Fault>::Ok(())
                        &&& post == (Emulator {
                            memory: post.memory,
                            riscv_tests_finished: post.riscv_tests_finished,
                            reserved_memory_ranges: post.reserved_memory_ranges,
                            ..pre
                        })
                        &&& post.memory@ == mem_written(
                            pre.memory@,
                            addr as usize as int,
                            size,
                            v,
                        )
                        &&& post.reserved_memory_ranges@
                            == crate::emulator::reservations_after_store(
                            pre.reserved_memory_ranges@,
                            addr as usize as int,
                            size as int,
                        )
                        &&& post.riscv_tests_finished == (pre.riscv_tests_finished
                            || addr as usize == pre.riscv_tests_exit_memory_address)
                    },
                    _ => r == Result::<(), Fault>::Err(Fault::UnimplementedInstruction) && post == pre,
                }
            }

/// What executing a load does. Relates the machine before (`pre`) and after (`post`)
/// and the result `r`.
pub open spec fn post_load(pre: Emulator, post: Emulator, r: Result<(), Fault>) -> bool {
    &&& r == Result::<(), Fault>::Ok(())
    &&& ({
                let raw = pre.inst.raw;
                let k = pre.inst.kind;
                let a = pre.reg_val(((raw >> 15) & 0x1f) as int);
                let addr = a.wrapping_add(sext(11, (raw >> 20) as u64));
                let v = spec_load_extend(
                    k,
                    pre.mem_val(addr as usize as int, spec_load_size(k)) as u64,
                );
                &&& post == (Emulator { regs: post.regs, ..pre })
                &&& post.regs@ == with_rd(pre, ((raw >> 7) & 0x1f) as u64, v)
            })
}

/// What executing an immediate-operand integer instruction does. Relates the machine before (`pre`) and after (`post`)
/// and the result `r`.
pub open spec fn post_alu_imm(pre: Emulator, post: Emulator, r: Result<(), Fault>) -> bool {
    &&& r == Result::<(), Fault>::Ok(())
    &&& ({
                let raw = pre.inst.raw;
                let k = pre.inst.kind;
                let a = pre.reg_val(((raw >> 15) & 0x1f) as int);
                let v = spec_alu(k, a, Emulator::spec_imm_operand(k, (raw >> 20) as u64));
                &&& post == (Emulator { regs: post.regs, ..pre })
                &&& post.regs@ == with_rd(pre, ((raw >> 7) & 0x1f) as u64, v)
            })
}

/// What executing JALR does. Relates the machine before (`pre`) and after (`post`)
/// and the result `r`.
pub open spec fn post_jalr(pre: Emulator, post: Emulator, r: Result<(), Fault>) -> bool {
                let raw = pre.inst.raw;
                let a = pre.reg_val(((raw >> 15) & 0x1f) as int);
                let target = a.wrapping_add(sext(11, (raw >> 20) as u64)) & !1u64;
                if !pre.c_ext_enabled() && target % 4 != 0 {
                    r == Result::<(), Fault>::Err(
                        Fault::Trap(Exception::InstructionAddressMissaligned),
                    ) && post == pre
                } else {
                    &&& r == Result::<(), Fault>::Ok(())
                    &&& post == (Emulator {
                        pc: target,
                        regs: post.regs,
                        inst: (Inst { class: InstClass::Jump(true), ..pre.inst }),
                        ..pre
                    })
                    &&& post.regs@ == with_rd(
                        pre,
                        ((raw >> 7) & 0x1f) as u64,
                        pre.pc.wrapping_add(4),
                    )
                }
            }

/// What executing a CSR instruction does. Relates the machine before (`pre`) and after (`post`)
/// and the result `r`.
pub open spec fn post_csr_op(pre: Emulator, post: Emulator, r: Result<(), Fault>) -> bool {
                let raw = pre.inst.raw;
                let k = pre.inst.kind;
                let rd = ((raw >> 7) & 0x1f) as u64;
                let addr = (raw >> 20) as u64;
                let src = Emulator::spec_csr_src(
                    k,
                    ((raw >> 15) & 0x1f) as u64,
                    pre.reg_val(((raw >> 15) & 0x1f) as int),
                );
                let reads = !(k == InstKind::Csrrw || k == InstKind::Csrrwi) || rd != 0;
                match crate::csr::spec_csr_read(pre.csr, pre.current_priv, addr) {
                    Option::None => {
                        if reads {
                            r == Result::<(), Fault>::Err(
                                Fault::Trap(Exception::IllegralInstruction),
                            ) && post == pre
                        } else {
                            // CSRRW with rd = x0 skips the read; the write decides.
                            match crate::csr::spec_csr_write(
                                pre.csr,
                                pre.pc,
                                pre.current_priv,
                                addr,
                                src,
                            ) {
                                Option::Some(c2) => r == Result::<(), Fault>::Ok(()) && post == (Emulator { csr: c2, ..pre }),
                                Option::None => r == Result::<(), Fault>::Err(
                                    Fault::Trap(Exception::IllegralInstruction),
                                ) && post == pre,
                            }
                        }
                    },
                    Option::Some(v) => {
                        match Emulator::spec_csr_wval(k, v, src) {
                            Option::None => {
                                // no write: the old value still goes to rd
                                &&& r == Result::<(), Fault>::Ok(())
                                &&& post == (Emulator {
                                    regs: post.regs,
                                    ..pre
                                })
                                &&& post.regs@ == with_rd(pre, rd, v)
                            },
                            Option::Some(wv) => {
                                match crate::csr::spec_csr_write(
                                    pre.csr,
                                    pre.pc,
                                    pre.current_priv,
                                    addr,
                                    wv,
                                ) {
                                    Option::Some(c2) => {
                                        &&& r == Result::<(), Fault>::Ok(())
                                        &&& post == (Emulator {
                                            csr: c2,
                                            regs: post.regs,
                                            ..pre
                                        })
                                        &&& post.regs@ == (if reads {
                                            with_rd(pre, rd, v)
                                        } else {
                                            pre.regs@
                                        })
                                    },
                                    Option::None => {
                                        // write refused: for the set/clear forms rd was
                                        // already written
                                        &&& r == Result::<(), Fault>::Err(
                                            Fault::Trap(Exception::IllegralInstruction),
                                        )
                                        &&& post == (Emulator {
                                            regs: post.regs,
                                            ..pre
                                        })
                                        &&& post.regs@ == (if k == InstKind::Csrrw || k
                                            == InstKind::Csrrwi {
                                            pre.regs@
                                        } else {
                                            with_rd(pre, rd, v)
                                        })
                                    },
                                }
                            },
                        }
                    },
                }
            }

/// What executing a register-operand integer instruction does. Relates the machine before (`pre`) and after (`post`)
/// and the result `r`.
pub open spec fn post_alu_reg(pre: Emulator, post: Emulator, r: Result<(), Fault>) -> bool {
    &&& r == Result::<(), Fault>::Ok(())
    &&& ({
                let raw = pre.inst.raw;
                let k = pre.inst.kind;
                let a = pre.reg_val(((raw >> 15) & 0x1f) as int);
                let b = pre.reg_val(((raw >> 20) & 0x1f) as int);
                &&& post == (Emulator { regs: post.regs, ..pre })
                &&& post.regs@ == with_rd(
                    pre,
                    ((raw >> 7) & 0x1f) as u64,
                    spec_alu(k, a, b),
                )
            })
}

/// What executing a word-sized atomic instruction does. Relates the machine before (`pre`) and after (`post`)
/// and the result `r`.
pub open spec fn post_atomic_w(pre: Emulator, post: Emulator, r: Result<(), Fault>) -> bool {
                let raw = pre.inst.raw;
                let k = pre.inst.kind;
                let rd = ((raw >> 7) & 0x1f) as u64;
                let addr = pre.reg_val(((raw >> 15) & 0x1f) as int);
                let rs2v = pre.reg_val(((raw >> 20) & 0x1f) as int);
                let a = addr as usize;
                let v = pre.mem_val(a as int, 4) as u64;
                if addr % 4 != 0 {
                    r == Result::<(), Fault>::Err(
                        Fault::Trap(Exception::InstructionAddressMissaligned),
                    ) && post == pre
                } else if k == InstKind::ScW {
                    let rsv = pre.reserved_memory_ranges@;
                    let hit = rsv.len() > 0 && rsv.last().0 <= a && rsv.last().1 >= a + 4;
                    let popped = if rsv.len() > 0 {
                        rsv.drop_last()
                    } else {
                        rsv
                    };
                    &&& r == Result::<(), Fault>::Ok(())
                    &&& post.reserved_memory_ranges@ == (if hit {
                        crate::emulator::reservations_after_store(popped, a as int, 4)
                    } else {
                        popped
                    })
                    &&& post.regs@ == with_rd(
                        pre,
                        rd,
                        if hit {
                            0u64
                        } else {
                            1u64
                        },
                    )
                    &&& post.memory@ == (if hit {
                        mem_written(pre.memory@, a as int, 4, rs2v % 0x1_0000_0000)
                    } else {
                        pre.memory@
                    })
                    &&& post.riscv_tests_finished == (pre.riscv_tests_finished || (hit
                        && a == pre.riscv_tests_exit_memory_address))
                    &&& post == (Emulator {
                        regs: post.regs,
                        memory: post.memory,
                        reserved_memory_ranges: post.reserved_memory_ranges,
                        riscv_tests_finished: post.riscv_tests_finished,
                        ..pre
                    })
                } else if k == InstKind::LrW {
                    &&& r == Result::<(), Fault>::Ok(())
                    &&& post.regs@ == with_rd(pre, rd, sext(31, v))
                    &&& post.reserved_memory_ranges@ == pre.reserved_memory_ranges@.filter(
                        |rg: (usize, usize)| a.wrapping_add(4) < rg.0 || a > rg.1,
                    ).push((a, a.wrapping_add(4)))
                    &&& post == (Emulator {
                        regs: post.regs,
                        reserved_memory_ranges: post.reserved_memory_ranges,
                        ..pre
                    })
                } else {
                    let stored = Emulator::spec_amo32(k, v, rs2v);
                    &&& r == Result::<(), Fault>::Ok(())
                    &&& post.memory@ == mem_written(pre.memory@, a as int, 4, stored)
                    &&& post.regs@ == with_rd(pre, rd, sext(31, v))
                    &&& post.reserved_memory_ranges@
                        == crate::emulator::reservations_after_store(
                        pre.reserved_memory_ranges@,
                        a as int,
                        4,
                    )
                    &&& post.riscv_tests_finished == (pre.riscv_tests_finished || a
                        == pre.riscv_tests_exit_memory_address)
                    &&& post == (Emulator {
                        regs: post.regs,
                        memory: post.memory,
                        reserved_memory_ranges: post.reserved_memory_ranges,
                        riscv_tests_finished: post.riscv_tests_finished,
                        ..pre
                    })
                }
            }

/// What executing a doubleword-sized atomic instruction does. Relates the machine before (`pre`) and after (`post`)
/// and the result `r`.
pub open spec fn post_atomic_d(pre: Emulator, post: Emulator, r: Result<(), Fault>) -> bool {
                let raw = pre.inst.raw;
                let k = pre.inst.kind;
                let rd = ((raw >> 7) & 0x1f) as u64;
                let addr = pre.reg_val(((raw >> 15) & 0x1f) as int);
                let rs2v = pre.reg_val(((raw >> 20) & 0x1f) as int);
                let a = addr as usize;
                let v = pre.mem_val(a as int, 8) as u64;
                if addr % 8 != 0 {
                    r == Result::<(), Fault>::Err(
                        Fault::Trap(Exception::InstructionAddressMissaligned),
                    ) && post == pre
                } else {
                    let stored = Emulator::spec_amo64(k, v, rs2v);
                    &&& r == Result::<(), Fault>::Ok(())
                    &&& post.memory@ == mem_written(pre.memory@, a as int, 8, stored)
                    &&& post.regs@ == with_rd(pre, rd, v)
                    &&& post.reserved_memory_ranges@
                        == crate::emulator::reservations_after_store(
                        pre.reserved_memory_ranges@,
                        a as int,
                        8,
                    )
                    &&& post.riscv_tests_finished == (pre.riscv_tests_finished || a
                        == pre.riscv_tests_exit_memory_address)
                    &&& post == (Emulator {
                        regs: post.regs,
                        memory: post.memory,
                        reserved_memory_ranges: post.reserved_memory_ranges,
                        riscv_tests_finished: post.riscv_tests_finished,
                        ..pre
                    })
                }
            }

/// What executing a CA-format compressed instruction does. Relates the machine before (`pre`) and after (`post`)
/// and the result `r`.
pub open spec fn post_format_ca(pre: Emulator, post: Emulator, r: Result<(), Fault>) -> bool {
                let raw16 = pre.inst.raw as u16;
                let k = pre.inst.kind;
                let rd = (((raw16 >> 7) & 0x7) + 8) as u64;
                let a = pre.reg_val(rd as int);
                let b = pre.reg_val((((raw16 >> 2) & 0x7) + 8) as int);
                if k == InstKind::CSub || k == InstKind::CXor || k == InstKind::COr || k
                    == InstKind::CAnd || k == InstKind::CSubw || k == InstKind::CAddw {
                    &&& r == Result::<(), Fault>::Ok(())
                    &&& post == (Emulator { regs: post.regs, ..pre })
                    &&& post.regs@ == with_rd(pre, rd, spec_alu(k, a, b))
                } else {
                    r == Result::<(), Fault>::Err(Fault::UnimplementedInstruction) && post
                        == pre
                }
            }

/// What executing a CB-format compressed instruction does. Relates the machine before (`pre`) and after (`post`)
/// and the result `r`.
pub open spec fn post_format_cb(pre: Emulator, post: Emulator, r: Result<(), Fault>) -> bool {
                let raw16 = pre.inst.raw as u16;
                let k = pre.inst.kind;
                let rd = (((raw16 >> 7) & 0x7) + 8) as u64;
                let offset = crate::bits::cb_imm_field(raw16) as u64;
                let imm = ((offset >> 2) & 0x20) | (offset & 0x1f);
                let a = pre.reg_val(rd as int);
                if k == InstKind::CSrli || k == InstKind::CSrai {
                    if imm == 0 {
                        r == Result::<(), Fault>::Ok(()) && post == pre
                    } else {
                        &&& r == Result::<(), Fault>::Ok(())
                        &&& post == (Emulator { regs: post.regs, ..pre })
                        &&& post.regs@ == with_rd(
                            pre,
                            rd,
                            spec_alu(
                                if k == InstKind::CSrli {
                                    InstKind::Srli
                                } else {
                                    InstKind::Srai
                                },
                                a,
                                imm,
                            ),
                        )
                    }
                } else if k == InstKind::CAndi {
                    &&& r == Result::<(), Fault>::Ok(())
                    &&& post == (Emulator { regs: post.regs, ..pre })
                    &&& post.regs@ == with_rd(pre, rd, a & sext(5, imm))
                } else if k == InstKind::CBeqz || k == InstKind::CBnez {
                    let target = ((offset << 1) & 0x100) | ((offset << 3) & 0xc0) | ((offset << 5)
                        & 0x20) | ((offset >> 2) & 0x18) | (offset & 0x6);
                    let taken = (k == InstKind::CBeqz && a == 0) || (k == InstKind::CBnez && a
                        != 0);
                    if taken {
                        r == Result::<(), Fault>::Ok(()) && post == (Emulator {
                            pc: pre.pc.wrapping_add(sext(8, target)),
                            inst: (Inst { class: InstClass::Jump(true), ..pre.inst }),
                            ..pre
                        })
                    } else {
                        r == Result::<(), Fault>::Ok(()) && post == pre
                    }
                } else {
                    r == Result::<(), Fault>::Err(Fault::UnimplementedInstruction) && post
                        == pre
                }
            }

/// What executing C.J does. Relates the machine before (`pre`) and after (`post`)
/// and the result `r`.
pub open spec fn post_format_cj(pre: Emulator, post: Emulator, r: Result<(), Fault>) -> bool {
                let raw = pre.inst.raw;
                let imm = (raw >> 1) & 0xffe;
                let target = ((imm & 0xb40) | ((imm << 3) & 0x400) | ((imm << 2) & 0x80) | ((imm
                    << 4) & 0x20) | ((imm >> 6) & 0x10) | ((imm >> 1) & 0xe)) as u64;
                if pre.inst.kind == InstKind::CJ {
                    r == Result::<(), Fault>::Ok(()) && post == (Emulator {
                        pc: pre.pc.wrapping_add(sext(11, target)),
                        inst: (Inst { class: InstClass::Jump(true), ..pre.inst }),
                        ..pre
                    })
                } else {
                    r == Result::<(), Fault>::Err(Fault::UnimplementedInstruction) && post
                        == pre
                }
            }

/// What executing a CI-format compressed instruction does. Relates the machine before (`pre`) and after (`post`)
/// and the result `r`.
pub open spec fn post_format_ci(pre: Emulator, post: Emulator, r: Result<(), Fault>) -> bool {
                let raw16 = pre.inst.raw as u16;
                let k = pre.inst.kind;
                let rd = ((raw16 >> 7) & 0x1f) as u64;
                let imm = crate::bits::ci_imm_field(raw16) as u64;
                let a = pre.reg_val(rd as int);
                let sp = pre.reg_val(2);
                if k == InstKind::CNop {
                    r == Result::<(), Fault>::Ok(()) && post == pre
                } else if k == InstKind::CAddi {
                    if imm == 0 {
                        r == Result::<(), Fault>::Err(Fault::UnimplementedInstruction) && post == pre
                    } else {
                        &&& r == Result::<(), Fault>::Ok(())
                        &&& post == (Emulator { regs: post.regs, ..pre })
                        &&& post.regs@ == with_rd(
                            pre,
                            rd,
                            a.wrapping_add(sext(5, imm)),
                        )
                    }
                } else if k == InstKind::CAddiw {
                    if rd == 0 {
                        r == Result::<(), Fault>::Err(Fault::UnimplementedInstruction) && post == pre
                    } else {
                        &&& r == Result::<(), Fault>::Ok(())
                        &&& post == (Emulator { regs: post.regs, ..pre })
                        &&& post.regs@ == with_rd(
                            pre,
                            rd,
                            spec_alu(InstKind::CAddiw, a, sext(5, imm)),
                        )
                    }
                } else if k == InstKind::CLi {
                    &&& r == Result::<(), Fault>::Ok(())
                    &&& post == (Emulator { regs: post.regs, ..pre })
                    &&& post.regs@ == (if rd == 0 {
                        pre.regs@
                    } else {
                        with_rd(pre, rd, sext(5, imm))
                    })
                } else if k == InstKind::CLui {
                    if imm == 0 {
                        r == Result::<(), Fault>::Err(Fault::UnimplementedInstruction) && post == pre
                    } else {
                        &&& r == Result::<(), Fault>::Ok(())
                        &&& post == (Emulator { regs: post.regs, ..pre })
                        &&& post.regs@ == with_rd(pre, rd, sext(17, imm << 12))
                    }
                } else if k == InstKind::CAddi16sp {
                    let nzimm = ((imm << 4) & 0x200) | ((imm << 6) & 0x180) | ((imm << 3) & 0x40)
                        | ((imm << 5) & 0x20) | (imm & 0x10);
                    if rd == 0 {
                        r == Result::<(), Fault>::Err(Fault::UnimplementedInstruction) && post == pre
                    } else {
                        &&& r == Result::<(), Fault>::Ok(())
                        &&& post == (Emulator { regs: post.regs, ..pre })
                        &&& post.regs@ == with_rd(
                            pre,
                            2,
                            sp.wrapping_add(sext(9, nzimm)),
                        )
                    }
                } else if k == InstKind::CSlli {
                    if rd != 0 && imm != 0 {
                        &&& r == Result::<(), Fault>::Ok(())
                        &&& post == (Emulator { regs: post.regs, ..pre })
                        &&& post.regs@ == with_rd(pre, rd, a << (imm % 64))
                    } else {
                        r == Result::<(), Fault>::Ok(()) && post == pre
                    }
                } else if k == InstKind::CLwsp || k == InstKind::CLdsp {
                    let off = ((imm << 6) & 0xc0) | (imm & 0x3c);
                    let offd = ((imm << 6) & 0x1c0) | (imm & 0x38);
                    if rd == 0 {
                        r == Result::<(), Fault>::Err(Fault::UnimplementedInstruction) && post == pre
                    } else if k == InstKind::CLwsp {
                        let v = pre.mem_val(sp.wrapping_add(off) as usize as int, 4) as u64;
                        &&& r == Result::<(), Fault>::Ok(())
                        &&& post == (Emulator { regs: post.regs, ..pre })
                        &&& post.regs@ == with_rd(pre, rd, sext(31, v))
                    } else {
                        let v = pre.mem_val(sp.wrapping_add(offd) as usize as int, 8) as u64;
                        &&& r == Result::<(), Fault>::Ok(())
                        &&& post == (Emulator { regs: post.regs, ..pre })
                        &&& post.regs@ == with_rd(pre, rd, v)
                    }
                } else {
                    r == Result::<(), Fault>::Err(Fault::UnimplementedInstruction) && post
                        == pre
                }
            }

/// What executing C.ADDI4SPN does (the CIW format). Relates the machine before (`pre`) and after (`post`)
/// and the result `r`.
pub open spec fn post_format_ciw(pre: Emulator, post: Emulator, r: Result<(), Fault>) -> bool {
                let raw16 = pre.inst.raw as u16;
                let rd = (((raw16 >> 2) & 0x7) + 8) as u64;
                let imm = ((raw16 >> 5) & 0xff) as u64;
                let nzuimm = ((imm & 0x3c) << 4) | ((imm & 0xc0) >> 2) | ((imm & 0x1) << 3) | ((
                imm & 0x2) << 1);
                if pre.inst.kind != InstKind::CAddi4spn {
                    r == Result::<(), Fault>::Err(Fault::UnimplementedInstruction) && post
                        == pre
                } else if imm == 0 {
                    r == Result::<(), Fault>::Err(Fault::Trap(Exception::IllegralInstruction))
                        && post == pre
                } else {
                    &&& r == Result::<(), Fault>::Ok(())
                    &&& post == (Emulator { regs: post.regs, ..pre })
                    &&& post.regs@ == with_rd(
                        pre,
                        rd,
                        pre.reg_val(2).wrapping_add(nzuimm),
                    )
                }
            }

/// What executing a compressed register-relative load or store does. Relates the machine before (`pre`) and after (`post`)
/// and the result `r`.
pub open spec fn post_format_clcs(pre: Emulator, post: Emulator, r: Result<(), Fault>) -> bool {
                let raw16 = pre.inst.raw as u16;
                let k = pre.inst.kind;
                let fr = (((raw16 >> 2) & 0x7) + 8) as u64;
                let base = pre.reg_val((((raw16 >> 7) & 0x7) + 8) as int);
                let imm = ((raw16 >> 5) & 0x3) as u64;
                let offw = ((imm << 6) & 0x40) | ((imm << 1) & 0x38) | ((imm << 1) & 0x4);
                let offd = ((imm << 6) & 0xc0) | ((imm << 1) & 0x38);
                if k == InstKind::CLw {
                    let v = pre.mem_val(base.wrapping_add(offw) as usize as int, 4) as u64;
                    &&& r == Result::<(), Fault>::Ok(())
                    &&& post == (Emulator { regs: post.regs, ..pre })
                    &&& post.regs@ == with_rd(pre, fr, sext(31, v))
                } else if k == InstKind::CLd {
                    let v = pre.mem_val(base.wrapping_add(offd) as usize as int, 8) as u64;
                    &&& r == Result::<(), Fault>::Ok(())
                    &&& post == (Emulator { regs: post.regs, ..pre })
                    &&& post.regs@ == with_rd(pre, fr, v)
                } else if k == InstKind::CSw || k == InstKind::CSd {
                    let addr = if k == InstKind::CSw {
                        base.wrapping_add(offw)
                    } else {
                        base.wrapping_add(offd)
                    };
                    let size: nat = if k == InstKind::CSw {
                        4
                    } else {
                        8
                    };
                    &&& r == Result::<(), Fault>::Ok(())
                    &&& post == (Emulator {
                        memory: post.memory,
                        riscv_tests_finished: post.riscv_tests_finished,
                        reserved_memory_ranges: post.reserved_memory_ranges,
                        ..pre
                    })
                    &&& post.memory@ == mem_written(
                        pre.memory@,
                        addr as usize as int,
                        size,
                        pre.reg_val(fr as int),
                    )
                    &&& post.reserved_memory_ranges@
                        == crate::emulator::reservations_after_store(
                        pre.reserved_memory_ranges@,
                        addr as usize as int,
                        size as int,
                    )
                    &&& post.riscv_tests_finished == (pre.riscv_tests_finished || addr
                        as usize == pre.riscv_tests_exit_memory_address)
                } else {
                    r == Result::<(), Fault>::Err(Fault::UnimplementedInstruction) && post
                        == pre
                }
            }

/// What executing a CR-format compressed instruction does. Relates the machine before (`pre`) and after (`post`)
/// and the result `r`.
pub open spec fn post_format_cr(pre: Emulator, post: Emulator, r: Result<(), Fault>) -> bool {
                let raw16 = pre.inst.raw as u16;
                let k = pre.inst.kind;
                let rs2 = ((raw16 >> 2) & 0x1f) as u64;
                let rd = ((raw16 >> 7) & 0x1f) as u64;
                let a = pre.reg_val(rd as int);
                let b = pre.reg_val(rs2 as int);
                if k == InstKind::CJr || k == InstKind::CJalr {
                    let a2 = if k == InstKind::CJalr && rd == 1 {
                        pre.pc.wrapping_add(2)
                    } else {
                        a
                    };
                    if rd == 0 {
                        r == Result::<(), Fault>::Err(Fault::UnimplementedInstruction) && post == pre
                    } else {
                        &&& r == Result::<(), Fault>::Ok(())
                        &&& post == (Emulator {
                            pc: a2 & !1u64,
                            regs: post.regs,
                            inst: (Inst { class: InstClass::Jump(true), ..pre.inst }),
                            ..pre
                        })
                        &&& post.regs@ == (if k == InstKind::CJalr {
                            with_rd(pre, 1, pre.pc.wrapping_add(2))
                        } else {
                            pre.regs@
                        })
                    }
                } else if k == InstKind::CMv {
                    &&& r == Result::<(), Fault>::Ok(())
                    &&& post == (Emulator { regs: post.regs, ..pre })
                    &&& post.regs@ == (if rd == 0 {
                        pre.regs@
                    } else {
                        with_rd(pre, rd, b)
                    })
                } else if k == InstKind::CAdd {
                    &&& r == Result::<(), Fault>::Ok(())
                    &&& post == (Emulator { regs: post.regs, ..pre })
                    &&& post.regs@ == (if rd == 0 {
                        pre.regs@
                    } else {
                        with_rd(pre, rd, a.wrapping_add(b))
                    })
                } else {
                    r == Result::<(), Fault>::Err(Fault::UnimplementedInstruction) && post
                        == pre
                }
            }

/// What executing a compressed stack-pointer store does. Relates the machine before (`pre`) and after (`post`)
/// and the result `r`.
pub open spec fn post_format_css(pre: Emulator, post: Emulator, r: Result<(), Fault>) -> bool {
                let raw16 = pre.inst.raw as u16;
                let k = pre.inst.kind;
                let v = pre.reg_val(((raw16 >> 2) & 0x1f) as int);
                let imm = ((raw16 >> 7) & 0x3f) as u64;
                let sp = pre.reg_val(2);
                if k == InstKind::CSwsp || k == InstKind::CSdsp {
                    let addr = if k == InstKind::CSwsp {
                        sp.wrapping_add(((imm << 6) & 0xc0) | (imm & 0x3c))
                    } else {
                        sp.wrapping_add(((imm << 6) & 0x1c0) | (imm & 0x38))
                    };
                    let size: nat = if k == InstKind::CSwsp {
                        4
                    } else {
                        8
                    };
                    &&& r == Result::<(), Fault>::Ok(())
                    &&& post == (Emulator {
                        memory: post.memory,
                        riscv_tests_finished: post.riscv_tests_finished,
                        reserved_memory_ranges: post.reserved_memory_ranges,
                        ..pre
                    })
                    &&& post.memory@ == mem_written(
                        pre.memory@,
                        addr as usize as int,
                        size,
                        v,
                    )
                    &&& post.reserved_memory_ranges@
                        == crate::emulator::reservations_after_store(
                        pre.reserved_memory_ranges@,
                        addr as usize as int,
                        size as int,
                    )
                    &&& post.riscv_tests_finished == (pre.riscv_tests_finished || addr
                        as usize == pre.riscv_tests_exit_memory_address)
                } else {
                    r == Result::<(), Fault>::Err(Fault::UnimplementedInstruction) && post
                        == pre
                }
            }

/// What executing FENCE, ECALL, SRET, MRET or WFI does (the Other
/// format). Relates the machine before (`pre`) and after (`post`) and the
/// result `r`.
pub open spec fn post_format_other(pre: Emulator, post: Emulator, r: Result<(), Fault>) -> bool {
    &&& (pre.inst.kind == InstKind::Fence ==> post == pre && r == (
    if pre.inst.raw == 0x8330_000f || pre.inst.raw == 0x0100_000f {
        Result::<(), Fault>::Err(Fault::Trap(Exception::IllegralInstruction))
    } else {
        Result::<(), Fault>::Ok(())
    }))
    &&& (pre.inst.kind == InstKind::Ecall ==> post == pre && r == Result::<(), Fault>::Err(
        Fault::Trap(
            match pre.current_priv {
                Priv::M => Exception::EnvironmentCallFromMMode,
                Priv::S => Exception::EnvironmentCallFromSMode,
                Priv::U => Exception::EnvironmentCallFromUMode,
            },
        ),
    ))
    &&& (pre.inst.kind == InstKind::Mret ==> ({
        if pre.current_priv != Priv::M {
            r == Result::<(), Fault>::Err(Fault::Trap(Exception::IllegralInstruction)) && post
                == pre
        } else {
            let mstatus = pre.csr.mstatus;
            let mpp = (mstatus & CSR_MSTATUS_MPP_MASK) >> 11;
            let mpie = (mstatus & CSR_MSTATUS_MPIE_MASK) >> 7;
            if mpp == 2 {
                r == Result::<(), Fault>::Err(Fault::InvalidPrivilege) && post == pre
            } else {
                let new_mstatus = (mstatus & !CSR_MSTATUS_MIE_MASK & !CSR_MSTATUS_MPP_MASK
                    & !CSR_MSTATUS_MPIE_MASK) | (mpie << 3) | (1u64 << 7);
                &&& r == Result::<(), Fault>::Ok(())
                &&& post == (Emulator {
                    csr: (Csr { mstatus: new_mstatus, ..pre.csr }),
                    pc: pre.csr.mepc,
                    current_priv: post.current_priv,
                    inst: (Inst { class: InstClass::Jump(true), ..pre.inst }),
                    ..pre
                })
                &&& post.current_priv.spec_code() == mpp
                &&& post.csr.mstatus & CSR_MSTATUS_MIE_MASK == mpie << 3
                &&& post.csr.mstatus & CSR_MSTATUS_MPIE_MASK == 1u64 << 7
                &&& post.csr.mstatus & CSR_MSTATUS_MPP_MASK == 0
            }
        }
    }))
    &&& (pre.inst.kind == InstKind::Sret ==> ({
        if pre.current_priv == Priv::U {
            r == Result::<(), Fault>::Err(Fault::Trap(Exception::IllegralInstruction)) && post
                == pre
        } else if pre.current_priv == Priv::S && pre.csr.mstatus & CSR_MSTATUS_TSR_MASK != 0 {
            r == Result::<(), Fault>::Err(Fault::Trap(Exception::IllegralInstruction)) && post
                == pre
        } else {
            let mstatus = pre.csr.mstatus;
            let spp = (mstatus & CSR_MSTATUS_SPP_MASK) >> 8;
            let spie = (mstatus & CSR_MSTATUS_SPIE_MASK) >> 5;
            let new_sstatus = (mstatus & !CSR_MSTATUS_SPP_MASK & !CSR_MSTATUS_SPIE_MASK
                & !CSR_MSTATUS_SIE_MASK) | (1u64 << 5) | (spie << 1);
            &&& r == Result::<(), Fault>::Ok(())
            &&& post == (Emulator {
                csr: (Csr {
                    mstatus: (mstatus & !CSR_SSTATUS_MASK) | (new_sstatus & CSR_SSTATUS_MASK),
                    ..pre.csr
                }),
                pc: pre.csr.sepc,
                current_priv: post.current_priv,
                inst: (Inst { class: InstClass::Jump(true), ..pre.inst }),
                ..pre
            })
            &&& post.current_priv.spec_code() == spp
        }
    }))
    &&& (pre.inst.kind == InstKind::Wfi ==> ({
        if pre.current_priv != Priv::S {
            r == Result::<(), Fault>::Err(Fault::Trap(Exception::IllegralInstruction)) && post
                == pre
        } else if pre.csr.mstatus & CSR_MSTATUS_TW_MASK != 0 {
            r == Result::<(), Fault>::Err(Fault::WfiTimeout) && post == pre
        } else {
            post == pre && ((r == Result::<(), Fault>::Ok(())) <==> (pre.csr.mie & pre.csr.mip
                == 2))
        }
    }))
    &&& (!(pre.inst.kind == InstKind::Fence || pre.inst.kind == InstKind::Ecall || pre.inst.kind
        == InstKind::Mret || pre.inst.kind == InstKind::Sret || pre.inst.kind == InstKind::Wfi)
        ==> r == Result::<(), Fault>::Err(Fault::UnimplementedInstruction) && post == pre)
}

/// What executing an I-format instruction does, by mnemonic group.
pub open spec fn post_format_i(pre: Emulator, post: Emulator, r: Result<(), Fault>) -> bool {
    match pre.inst.kind {
        InstKind::Lb | InstKind::Lh | InstKind::Lw | InstKind::Ld | InstKind::Lbu | InstKind::Lhu
            | InstKind::Lwu => post_load(pre, post, r),
        InstKind::Addi | InstKind::Slli | InstKind::Slti | InstKind::Sltiu | InstKind::Xori
            | InstKind::Srli | InstKind::Srai | InstKind::Ori | InstKind::Andi | InstKind::Addiw
            | InstKind::Slliw | InstKind::Srliw | InstKind::Sraiw => post_alu_imm(pre, post, r),
        InstKind::Jalr => post_jalr(pre, post, r),
        InstKind::Csrrw | InstKind::Csrrs | InstKind::Csrrc | InstKind::Csrrwi | InstKind::Csrrsi
            | InstKind::Csrrci => post_csr_op(pre, post, r),
        _ => r == Result::<(), Fault>::Err(Fault::UnimplementedInstruction) && post == pre,
    }
}

/// What executing an R-format instruction does, by mnemonic group.
pub open spec fn post_format_r(pre: Emulator, post: Emulator, r: Result<(), Fault>) -> bool {
    match pre.inst.kind {
        InstKind::Add | InstKind::Mul | InstKind::Sub | InstKind::Sll | InstKind::Mulh
            | InstKind::Slt | InstKind::Mulhsu | InstKind::Sltu | InstKind::Mulhu | InstKind::Xor
            | InstKind::Div | InstKind::Or | InstKind::Rem | InstKind::Srl | InstKind::Divu
            | InstKind::Sra | InstKind::And | InstKind::Remu | InstKind::Addw | InstKind::Mulw
            | InstKind::Subw | InstKind::Sllw | InstKind::Divw | InstKind::Srlw | InstKind::Divuw
            | InstKind::Sraw | InstKind::Remw | InstKind::Remuw => post_alu_reg(pre, post, r),
        InstKind::SfenceVma => post == pre && r == (if pre.current_priv != Priv::S {
            Result::<(), Fault>::Err(Fault::SfenceOutsideSMode)
        } else {
            Result::<(), Fault>::Err(Fault::Trap(Exception::IllegralInstruction))
        }),
        InstKind::LrW | InstKind::ScW | InstKind::AmoswapW | InstKind::AmoaddW | InstKind::AmoxorW
            | InstKind::AmoandW | InstKind::AmoorW | InstKind::AmominW | InstKind::AmomaxW
            | InstKind::AmominuW | InstKind::AmomaxuW => post_atomic_w(pre, post, r),
        InstKind::AmoswapD | InstKind::AmoaddD | InstKind::AmoxorD | InstKind::AmoandD
            | InstKind::AmoorD | InstKind::AmominD | InstKind::AmomaxD | InstKind::AmominuD
            | InstKind::AmomaxuD => post_atomic_d(pre, post, r),
        _ => r == Result::<(), Fault>::Err(Fault::UnimplementedInstruction) && post == pre,
    }
}

/// What executing the decoded instruction does: an unrecognized code word,
/// or a compressed one while the compressed extension is off, raises an
/// illegal-instruction trap and changes nothing; otherwise the per-format
/// relation applies.
#[verifier::opaque]
pub open spec fn post_exec(pre: Emulator, post: Emulator, r: Result<(), Fault>) -> bool {
    if !(pre.inst.class != InstClass::Invalid && (pre.inst.raw % 4 < 3 ==> pre.c_ext_enabled())) {
        r == Result::<(), Fault>::Err(Fault::Trap(Exception::IllegralInstruction)) && post == pre
    } else {
        match pre.inst.format {
            InstFormat::B => post_format_b(pre, post, r),
            InstFormat::I => post_format_i(pre, post, r),
            InstFormat::J => post_format_j(pre, post, r),
            InstFormat::R => post_format_r(pre, post, r),
            InstFormat::S => post_format_s(pre, post, r),
            InstFormat::U => post_format_u(pre, post, r),
            InstFormat::Ca => post_format_ca(pre, post, r),
            InstFormat::Cb => post_format_cb(pre, post, r),
            InstFormat::Cj => post_format_cj(pre, post, r),
            InstFormat::Ci => post_format_ci(pre, post, r),
            InstFormat::Ciw => post_format_ciw(pre, post, r),
            InstFormat::Cl | InstFormat::Cs => post_format_clcs(pre, post, r),
            InstFormat::Cr => post_format_cr(pre, post, r),
            InstFormat::Css => post_format_css(pre, post, r),
            InstFormat::Other => post_format_other(pre, post, r),
        }
    }
}

impl Emulator {
    /// Reads the `size`-byte little-endian word at `address`.
    pub fn mem_read_val(&self, address: u64, size: usize) -> (r: u64)
        requires
            self.wf(),
            1 <= size <= 8,
        ensures
            r == self.mem_val(address as usize as int, size as nat),
    {
        let bytes = self.memory.read(address as usize, size);
        proof {
            assert(bytes@ =~= self.mem_bytes(address as usize as int, size as nat));
        }
        u64_from_le_bytes(bytes.as_slice())
    }

    /// Writes the low `size` bytes of `v` at `address`, in little-endian
    /// order. A write that touches the test sentinel address raises the
    /// completion flag.
    pub fn mem_write_val(&mut self, address: u64, size: usize, v: u64)
        requires
            old(self).wf(),
            1 <= size <= 8,
        ensures
            final(self).wf(),
            *final(self) == (Emulator {
                memory: final(self).memory,
                riscv_tests_finished: final(self).riscv_tests_finished,
                reserved_memory_ranges: final(self).reserved_memory_ranges,
                ..*old(self)
            }),
            final(self).riscv_tests_finished == (old(self).riscv_tests_finished || address as usize
                == old(self).riscv_tests_exit_memory_address),
            final(self).reserved_memory_ranges@ == crate::emulator::reservations_after_store(
                old(self).reserved_memory_ranges@,
                address as usize as int,
                size as int,
            ),
            final(self).memory@ == mem_written(
                old(self).memory@,
                address as usize as int,
                size as nat,
                v,
            ),
    {
        let bytes = u64_to_le_bytes(v, size);
        self.write_memory(address as usize, bytes.as_slice());
        proof {
            assert(final(self).memory@ =~= mem_written(
                old(self).memory@,
                address as usize as int,
                size as nat,
                v,
            ));
        }
    }

    /// Executes the decoded instruction, dispatching on its format: the
    /// result and the whole machine after the call are fixed by `post_exec`
    /// for every decoded instruction. Returns the trap the instruction
    /// raised, if any, or a diagnostic fault for the situations outside the
    /// model's coverage.
    pub fn exec(&mut self) -> (r: Result<(), Fault>)
        requires
            old(self).wf(),
        ensures
            final(self).wf(),
            post_exec(*old(self), *final(self), r),
            final(self).riscv_tests_exit_memory_address == old(self).riscv_tests_exit_memory_address,
            old(self).riscv_tests_finished ==> final(self).riscv_tests_finished,
            final(self).inst.raw == old(self).inst.raw,
            final(self).inst.isa == old(self).inst.isa,
    {
        proof {
            reveal(post_exec);
        }
        if !self.can_exec() {
            return Err(Fault::Trap(Exception::IllegralInstruction));
        }
        match self.inst.format() {
            InstFormat::B => self.exec_format_b(),
            InstFormat::I => self.exec_format_i(),
            InstFormat::J => self.exec_format_j(),
            InstFormat::R => self.exec_format_r(),
            InstFormat::S => self.exec_format_s(),
            InstFormat::U => self.exec_format_u(),
            InstFormat::Ca => self.exec_format_ca(),
            InstFormat::Cb => self.exec_format_cb(),
            InstFormat::Cj => self.exec_format_cj(),
            InstFormat::Ci => self.exec_format_ci(),
            InstFormat::Ciw => self.exec_format_ciw(),
            InstFormat::Cl | InstFormat::Cs => self.exec_format_clcs(),
            InstFormat::Cr => self.exec_format_cr(),
            InstFormat::Css => self.exec_format_css(),
            InstFormat::Other => self.exec_format_other(),
        }
    }


    /// Executes an I-format instruction: the loads, the
    /// immediate-operand integer instructions, JALR, and the CSR
    /// instructions (each group in its own function below).
    fn exec_format_i(&mut self) -> (r: Result<(), Fault>)
        requires
            old(self).wf(),
            old(self).inst.format == InstFormat::I,
        ensures
            final(self).wf(),
            post_format_i(*old(self), *final(self), r),
    {
        match self.inst.kind {
            InstKind::Lb | InstKind::Lh | InstKind::Lw | InstKind::Ld | InstKind::Lbu
                | InstKind::Lhu | InstKind::Lwu => self.exec_load(),
            InstKind::Addi | InstKind::Slli | InstKind::Slti | InstKind::Sltiu | InstKind::Xori
                | InstKind::Srli | InstKind::Srai | InstKind::Ori | InstKind::Andi
                | InstKind::Addiw | InstKind::Slliw | InstKind::Srliw | InstKind::Sraiw => {
                self.exec_alu_imm()
            },
            InstKind::Jalr => self.exec_jalr(),
            InstKind::Csrrw | InstKind::Csrrs | InstKind::Csrrc | InstKind::Csrrwi
                | InstKind::Csrrsi | InstKind::Csrrci => self.exec_csr_op(),
            _ => Err(Fault::UnimplementedInstruction),
        }
    }

    /// Executes a load: `rd` receives the value at `rs1 + offset`,
    /// zero- or sign-extended by the mnemonic's width.
    fn exec_load(&mut self) -> (r: Result<(), Fault>)
        requires
            old(self).wf(),
            old(self).inst.kind == InstKind::Lb || old(self).inst.kind == InstKind::Lh || old(self).inst.kind == InstKind::Lw || old(self).inst.kind == InstKind::Ld || old(self).inst.kind == InstKind::Lbu || old(self).inst.kind == InstKind::Lhu || old(self).inst.kind == InstKind::Lwu,
        ensures
            final(self).wf(),
            post_load(*old(self), *final(self), r),
    {
        let (rd, rs1, imm) = extract_i_type(self.inst.raw());
        let addr: u64 = self.read_reg(Register::X(rs1)).wrapping_add(sign_extend(11, imm));
        proof {
            crate::bits::lemma_le_val_bound(
                old(self).mem_bytes(addr as usize as int, spec_load_size(old(self).inst.kind)),
            );
            vstd::arithmetic::power2::lemma2_to64();
        }
        match self.inst.kind {
            InstKind::Lb => {
                let v: u64 = self.mem_read_val(addr, 1);
                self.write_reg(Register::X(rd), sign_extend(7, v));
                Ok(())
            },
            InstKind::Lh => {
                let v: u64 = self.mem_read_val(addr, 2);
                self.write_reg(Register::X(rd), sign_extend(15, v));
                Ok(())
            },
            InstKind::Lw => {
                let v: u64 = self.mem_read_val(addr, 4);
                self.write_reg(Register::X(rd), sign_extend(31, v));
                Ok(())
            },
            InstKind::Ld => {
                let v: u64 = self.mem_read_val(addr, 8);
                self.write_reg(Register::X(rd), v);
                Ok(())
            },
            InstKind::Lbu => {
                let v: u64 = self.mem_read_val(addr, 1);
                self.write_reg(Register::X(rd), v);
                Ok(())
            },
            InstKind::Lhu => {
                let v: u64 = self.mem_read_val(addr, 2);
                self.write_reg(Register::X(rd), v);
                Ok(())
            },
            _ => {
                let v: u64 = self.mem_read_val(addr, 4);
                self.write_reg(Register::X(rd), v);
                Ok(())
            },
        }
    }

    /// The processed second operand of an immediate-operand integer
    /// instruction: the raw field for the shifts, the sign-extended
    /// immediate for everything else.
    pub open spec fn spec_imm_operand(k: InstKind, imm: u64) -> u64 {
        match k {
            InstKind::Slli | InstKind::Srli | InstKind::Srai | InstKind::Slliw | InstKind::Srliw
                | InstKind::Sraiw => imm,
            _ => sext(11, imm),
        }
    }

    /// Executes an immediate-operand integer instruction: `rd` receives
    /// the mnemonic's arithmetic on `rs1` and the immediate.
    fn exec_alu_imm(&mut self) -> (r: Result<(), Fault>)
        requires
            old(self).wf(),
        ensures
            final(self).wf(),
            post_alu_imm(*old(self), *final(self), r),
    {
        let (rd, rs1, imm) = extract_i_type(self.inst.raw());
        let a: u64 = self.read_reg(Register::X(rs1));
        let b: u64 = match self.inst.kind {
            InstKind::Slli | InstKind::Srli | InstKind::Srai | InstKind::Slliw | InstKind::Srliw
                | InstKind::Sraiw => imm,
            _ => sign_extend(11, imm),
        };
        let v: u64 = alu_compute(self.inst.kind, a, b);
        self.write_reg(Register::X(rd), v);
        Ok(())
    }

    /// Executes JALR: links `pc + 4` into `rd` and jumps to
    /// `(rs1 + offset) & !1`; a misaligned target raises the misaligned
    /// trap and changes nothing.
    fn exec_jalr(&mut self) -> (r: Result<(), Fault>)
        requires
            old(self).wf(),
        ensures
            final(self).wf(),
            post_jalr(*old(self), *final(self), r),
    {
        let (rd, rs1, imm) = extract_i_type(self.inst.raw());
        let offset: u64 = sign_extend(11, imm);
        let pc: u64 = self.pc;
        let dst: u64 = self.read_reg(Register::X(rs1)).wrapping_add(offset) & !1u64;
        self.check_misaligned(dst)?;
        self.write_reg(Register::X(rd), pc.wrapping_add(4));
        self.write_reg(Register::Pc, dst);
        self.inst.set_class(InstClass::Jump(true));
        Ok(())
    }

    /// The source operand of a CSR instruction: the `rs1` register value
    /// for the register forms, the five-bit field itself for the
    /// immediate forms.
    pub open spec fn spec_csr_src(k: InstKind, field: u64, rs1val: u64) -> u64 {
        match k {
            InstKind::Csrrw | InstKind::Csrrs | InstKind::Csrrc => rs1val,
            _ => field,
        }
    }

    /// What a CSR instruction writes back, given the current CSR value and
    /// its source operand: the source for CSRRW, the set- or clear-bits
    /// combination for CSRRS/CSRRC when the source is non-zero, nothing
    /// otherwise.
    pub open spec fn spec_csr_wval(k: InstKind, v: u64, src: u64) -> Option<u64> {
        match k {
            InstKind::Csrrw | InstKind::Csrrwi => Some(src),
            InstKind::Csrrs | InstKind::Csrrsi => if src != 0 {
                Some(v | src)
            } else {
                None
            },
            _ => if src != 0 {
                Some(v & !src)
            } else {
                None
            },
        }
    }

    /// Executes a CSR instruction: the old CSR value goes to `rd` (for
    /// CSRRW only when `rd` is not `x0`), and the source is stored,
    /// or-ed in, or cleared, through the register's write mask and the
    /// privilege and read-only checks. A refused access raises an
    /// illegal-instruction trap; for the set/clear forms the old value has
    /// already been written to `rd` when the write is refused.
    fn exec_csr_op(&mut self) -> (r: Result<(), Fault>)
        requires
            old(self).wf(),
            old(self).inst.kind == InstKind::Csrrw || old(self).inst.kind == InstKind::Csrrs
                || old(self).inst.kind == InstKind::Csrrc || old(self).inst.kind
                == InstKind::Csrrwi || old(self).inst.kind == InstKind::Csrrsi || old(self).inst.kind == InstKind::Csrrci,
        ensures
            final(self).wf(),
            post_csr_op(*old(self), *final(self), r),
    {
        let (rd, rs1, imm) = extract_i_type(self.inst.raw());
        match self.inst.kind {
            InstKind::Csrrw | InstKind::Csrrwi => {
                let src: u64 = if self.inst.kind == InstKind::Csrrw {
                    self.read_reg(Register::X(rs1))
                } else {
                    rs1 as u64
                };
                let v: u64 = if rd != 0 {
                    match self.read_csr(imm) {
                        Ok(v) => v,
                        Err(f) => {
                            return Err(f);
                        },
                    }
                } else {
                    0
                };
                self.write_csr(imm, src)?;
                if rd != 0 {
                    self.write_reg(Register::X(rd), v);
                }
                Ok(())
            },
            _ => {
                let src: u64 = match self.inst.kind {
                    InstKind::Csrrs | InstKind::Csrrc => self.read_reg(Register::X(rs1)),
                    _ => rs1 as u64,
                };
                let v: u64 = match self.read_csr(imm) {
                    Ok(v) => v,
                    Err(f) => {
                        return Err(f);
                    },
                };
                self.write_reg(Register::X(rd), v);
                if src != 0 {
                    let wv: u64 = match self.inst.kind {
                        InstKind::Csrrs | InstKind::Csrrsi => v | src,
                        _ => v & !src,
                    };
                    self.write_csr(imm, wv)?;
                }
                Ok(())
            },
        }
    }

    /// Executes an R-format instruction: the register-operand integer
    /// instructions, SFENCE.VMA, and the atomic extension.
    fn exec_format_r(&mut self) -> (r: Result<(), Fault>)
        requires
            old(self).wf(),
            old(self).inst.format == InstFormat::R,
        ensures
            final(self).wf(),
            post_format_r(*old(self), *final(self), r),
    {
        match self.inst.kind {
            InstKind::Add | InstKind::Mul | InstKind::Sub | InstKind::Sll | InstKind::Mulh
                | InstKind::Slt | InstKind::Mulhsu | InstKind::Sltu | InstKind::Mulhu
                | InstKind::Xor | InstKind::Div | InstKind::Or | InstKind::Rem | InstKind::Srl
                | InstKind::Divu | InstKind::Sra | InstKind::And | InstKind::Remu | InstKind::Addw
                | InstKind::Mulw | InstKind::Subw | InstKind::Sllw | InstKind::Divw
                | InstKind::Srlw | InstKind::Divuw | InstKind::Sraw | InstKind::Remw
                | InstKind::Remuw => self.exec_alu_reg(),
            InstKind::SfenceVma => {
                if self.current_priv != Priv::S {
                    Err(Fault::SfenceOutsideSMode)
                } else {
                    Err(Fault::Trap(Exception::IllegralInstruction))
                }
            },
            InstKind::LrW | InstKind::ScW | InstKind::AmoswapW | InstKind::AmoaddW
                | InstKind::AmoxorW | InstKind::AmoandW | InstKind::AmoorW | InstKind::AmominW
                | InstKind::AmomaxW | InstKind::AmominuW | InstKind::AmomaxuW => {
                self.exec_atomic_w()
            },
            InstKind::AmoswapD | InstKind::AmoaddD | InstKind::AmoxorD | InstKind::AmoandD
                | InstKind::AmoorD | InstKind::AmominD | InstKind::AmomaxD | InstKind::AmominuD
                | InstKind::AmomaxuD => self.exec_atomic_d(),
            _ => Err(Fault::UnimplementedInstruction),
        }
    }

    /// Executes a register-operand integer instruction: `rd` receives the
    /// mnemonic's arithmetic on `rs1` and `rs2`.
    fn exec_alu_reg(&mut self) -> (r: Result<(), Fault>)
        requires
            old(self).wf(),
        ensures
            final(self).wf(),
            post_alu_reg(*old(self), *final(self), r),
    {
        let (rd, rs1, rs2, _) = extract_r_type(self.inst.raw());
        let a: u64 = self.read_reg(Register::X(rs1));
        let b: u64 = self.read_reg(Register::X(rs2));
        let v: u64 = alu_compute(self.inst.kind, a, b);
        self.write_reg(Register::X(rd), v);
        Ok(())
    }

    /// The value a word-sized atomic read-modify-write stores, from the
    /// value read and `rs2` (both taken on their low 32 bits).
    pub open spec fn spec_amo32(k: InstKind, v: u64, rs2: u64) -> u64 {
        match k {
            InstKind::AmoswapW => rs2 % 0x1_0000_0000,
            InstKind::AmoaddW => v.wrapping_add(rs2) % 0x1_0000_0000,
            InstKind::AmoxorW => (v ^ rs2) % 0x1_0000_0000,
            InstKind::AmoandW => (v & rs2) % 0x1_0000_0000,
            InstKind::AmoorW => (v | rs2) % 0x1_0000_0000,
            InstKind::AmominW => if crate::bits::as_signed32(rs2) > crate::bits::as_signed32(v) {
                v % 0x1_0000_0000
            } else {
                rs2 % 0x1_0000_0000
            },
            InstKind::AmomaxW => if crate::bits::as_signed32(v) > crate::bits::as_signed32(rs2) {
                v % 0x1_0000_0000
            } else {
                rs2 % 0x1_0000_0000
            },
            InstKind::AmominuW => if v % 0x1_0000_0000 <= rs2 % 0x1_0000_0000 {
                v % 0x1_0000_0000
            } else {
                rs2 % 0x1_0000_0000
            },
            _ => if v % 0x1_0000_0000 >= rs2 % 0x1_0000_0000 {
                v % 0x1_0000_0000
            } else {
                rs2 % 0x1_0000_0000
            },
        }
    }

    /// The value a doubleword-sized atomic read-modify-write stores, from
    /// the value read and `rs2`.
    pub open spec fn spec_amo64(k: InstKind, v: u64, rs2: u64) -> u64 {
        match k {
            InstKind::AmoswapD => rs2,
            InstKind::AmoaddD => v.wrapping_add(rs2),
            InstKind::AmoxorD => v ^ rs2,
            InstKind::AmoandD => v & rs2,
            InstKind::AmoorD => v | rs2,
            InstKind::AmominD => if as_signed(rs2) > as_signed(v) {
                v
            } else {
                rs2
            },
            InstKind::AmomaxD => if as_signed(v) > as_signed(rs2) {
                v
            } else {
                rs2
            },
            InstKind::AmominuD => if v <= rs2 {
                v
            } else {
                rs2
            },
            _ => if v >= rs2 {
                v
            } else {
                rs2
            },
        }
    }

    /// Executes a word-sized atomic instruction at the address in `rs1`: a
    /// misaligned address traps and changes nothing. LR.W loads the
    /// sign-extended word into `rd` and records a four-byte reservation;
    /// SC.W stores `rs2` and clears `rd` if the most recent reservation
    /// covers the access (consuming a reservation either way), else sets
    /// `rd` to one without storing; the read-modify-write forms store the
    /// combination of the old word and `rs2` and give `rd` the
    /// sign-extended old word.
    fn exec_atomic_w(&mut self) -> (r: Result<(), Fault>)
        requires
            old(self).wf(),
            old(self).inst.kind == InstKind::LrW || old(self).inst.kind == InstKind::ScW || old(self).inst.kind == InstKind::AmoswapW || old(self).inst.kind == InstKind::AmoaddW || old(self).inst.kind == InstKind::AmoxorW || old(self).inst.kind == InstKind::AmoandW || old(self).inst.kind == InstKind::AmoorW || old(self).inst.kind == InstKind::AmominW || old(self).inst.kind == InstKind::AmomaxW || old(self).inst.kind == InstKind::AmominuW || old(self).inst.kind == InstKind::AmomaxuW,
        ensures
            final(self).wf(),
            post_atomic_w(*old(self), *final(self), r),
    {
        let (rd, rs1, rs2, _) = extract_r_type(self.inst.raw());
        let addr64: u64 = self.read_reg(Register::X(rs1));
        let rs2v: u64 = self.read_reg(Register::X(rs2));
        self.check_misaligned_nbyte_misaligned(addr64, 4)?;
        let a: usize = addr64 as usize;
        if self.inst.kind == InstKind::ScW {
            let popped = self.pop_reserved_memory_range();
            match popped {
                Some(range) => {
                    if range.0 <= a && range.1 >= a && range.1 - a >= 4 {
                        self.mem_write_val(addr64, 4, rs2v % 0x1_0000_0000);
                        self.write_reg(Register::X(rd), 0);
                    } else {
                        self.write_reg(Register::X(rd), 1);
                    }
                },
                None => {
                    self.write_reg(Register::X(rd), 1);
                },
            }
            Ok(())
        } else if self.inst.kind == InstKind::LrW {
            let v: u64 = self.mem_read_val(addr64, 4);
            proof {
                crate::bits::lemma_le_val_bound(old(self).mem_bytes(a as int, 4));
                vstd::arithmetic::power2::lemma2_to64();
            }
            self.write_reg(Register::X(rd), sign_extend(31, v));
            self.push_reserved_memory_range((a, a.wrapping_add(4)));
            Ok(())
        } else {
            let v: u64 = self.mem_read_val(addr64, 4);
            proof {
                crate::bits::lemma_le_val_bound(old(self).mem_bytes(a as int, 4));
                vstd::arithmetic::power2::lemma2_to64();
            }
            let stored: u64 = match self.inst.kind {
                InstKind::AmoswapW => rs2v % 0x1_0000_0000,
                InstKind::AmoaddW => v.wrapping_add(rs2v) % 0x1_0000_0000,
                InstKind::AmoxorW => (v ^ rs2v) % 0x1_0000_0000,
                InstKind::AmoandW => (v & rs2v) % 0x1_0000_0000,
                InstKind::AmoorW => (v | rs2v) % 0x1_0000_0000,
                InstKind::AmominW => {
                    if crate::bits::signed_lt32(rs2v, v) {
                        rs2v % 0x1_0000_0000
                    } else if crate::bits::signed_lt32(v, rs2v) {
                        v % 0x1_0000_0000
                    } else {
                        rs2v % 0x1_0000_0000
                    }
                },
                InstKind::AmomaxW => {
                    if crate::bits::signed_lt32(rs2v, v) {
                        v % 0x1_0000_0000
                    } else {
                        rs2v % 0x1_0000_0000
                    }
                },
                InstKind::AmominuW => {
                    if v % 0x1_0000_0000 <= rs2v % 0x1_0000_0000 {
                        v % 0x1_0000_0000
                    } else {
                        rs2v % 0x1_0000_0000
                    }
                },
                _ => {
                    if v % 0x1_0000_0000 >= rs2v % 0x1_0000_0000 {
                        v % 0x1_0000_0000
                    } else {
                        rs2v % 0x1_0000_0000
                    }
                },
            };
            self.mem_write_val(addr64, 4, stored);
            self.write_reg(Register::X(rd), sign_extend(31, v));
            Ok(())
        }
    }

    /// Executes a doubleword-sized atomic read-modify-write at the address
    /// in `rs1`: a misaligned address traps and changes nothing; otherwise
    /// the combination of the old doubleword and `rs2` is stored and `rd`
    /// receives the old doubleword.
    fn exec_atomic_d(&mut self) -> (r: Result<(), Fault>)
        requires
            old(self).wf(),
            old(self).inst.kind == InstKind::AmoswapD || old(self).inst.kind == InstKind::AmoaddD
                || old(self).inst.kind == InstKind::AmoxorD || old(self).inst.kind
                == InstKind::AmoandD || old(self).inst.kind == InstKind::AmoorD || old(self).inst.kind == InstKind::AmominD || old(self).inst.kind == InstKind::AmomaxD || old(self).inst.kind == InstKind::AmominuD || old(self).inst.kind == InstKind::AmomaxuD,
        ensures
            final(self).wf(),
            post_atomic_d(*old(self), *final(self), r),
    {
        let (rd, rs1, rs2, _) = extract_r_type(self.inst.raw());
        let addr64: u64 = self.read_reg(Register::X(rs1));
        let rs2v: u64 = self.read_reg(Register::X(rs2));
        self.check_misaligned_nbyte_misaligned(addr64, 8)?;
        let a: usize = addr64 as usize;
        let v: u64 = self.mem_read_val(addr64, 8);
        proof {
            crate::bits::lemma_le_val_bound(old(self).mem_bytes(a as int, 8));
            vstd::arithmetic::power2::lemma2_to64();
        }
        let stored: u64 = match self.inst.kind {
            InstKind::AmoswapD => rs2v,
            InstKind::AmoaddD => v.wrapping_add(rs2v),
            InstKind::AmoxorD => v ^ rs2v,
            InstKind::AmoandD => v & rs2v,
            InstKind::AmoorD => v | rs2v,
            InstKind::AmominD => {
                if crate::bits::signed_lt(rs2v, v) {
                    rs2v
                } else if crate::bits::signed_lt(v, rs2v) {
                    v
                } else {
                    rs2v
                }
            },
            InstKind::AmomaxD => {
                if crate::bits::signed_lt(rs2v, v) {
                    v
                } else {
                    rs2v
                }
            },
            InstKind::AmominuD => {
                if v <= rs2v {
                    v
                } else {
                    rs2v
                }
            },
            _ => {
                if v >= rs2v {
                    v
                } else {
                    rs2v
                }
            },
        };
        self.mem_write_val(addr64, 8, stored);
        self.write_reg(Register::X(rd), v);
        Ok(())
    }

    /// Executes a CA-format compressed instruction: the two-operand
    /// integer operation of the mnemonic, on the compressed register pair,
    /// written back to the first register.
    fn exec_format_ca(&mut self) -> (r: Result<(), Fault>)
        requires
            old(self).wf(),
        ensures
            final(self).wf(),
            post_format_ca(*old(self), *final(self), r),
    {
        let (rs2, rd, _) = crate::bits::extract_clcs_type(self.inst.raw() as u16);
        match self.inst.kind {
            InstKind::CSub | InstKind::CXor | InstKind::COr | InstKind::CAnd | InstKind::CSubw
                | InstKind::CAddw => {
                let a: u64 = self.read_reg(Register::X(rd));
                let b: u64 = self.read_reg(Register::X(rs2));
                let v: u64 = alu_compute(self.inst.kind, a, b);
                self.write_reg(Register::X(rd), v);
                Ok(())
            },
            _ => Err(Fault::UnimplementedInstruction),
        }
    }

    /// Executes a CB-format compressed instruction: the shift and and
    /// immediates on a compressed register (a zero shift amount encodes a
    /// hint and changes nothing), and the compare-with-zero branches.
    fn exec_format_cb(&mut self) -> (r: Result<(), Fault>)
        requires
            old(self).wf(),
        ensures
            final(self).wf(),
            post_format_cb(*old(self), *final(self), r),
    {
        let (rd, offset) = crate::bits::extract_cb_type(self.inst.raw() as u16);
        let imm: u64 = ((offset >> 2) & 0x20) | (offset & 0x1f);
        match self.inst.kind {
            InstKind::CSrli => {
                if imm != 0 {
                    let a: u64 = self.read_reg(Register::X(rd));
                    let v: u64 = alu_compute(InstKind::Srli, a, imm);
                    self.write_reg(Register::X(rd), v);
                }
                Ok(())
            },
            InstKind::CSrai => {
                if imm != 0 {
                    let a: u64 = self.read_reg(Register::X(rd));
                    let v: u64 = alu_compute(InstKind::Srai, a, imm);
                    self.write_reg(Register::X(rd), v);
                }
                Ok(())
            },
            InstKind::CAndi => {
                let a: u64 = self.read_reg(Register::X(rd));
                self.write_reg(Register::X(rd), a & sign_extend(5, imm));
                Ok(())
            },
            InstKind::CBeqz | InstKind::CBnez => {
                let target: u64 = ((offset << 1) & 0x100) | ((offset << 3) & 0xc0) | ((offset
                    << 5) & 0x20) | ((offset >> 2) & 0x18) | (offset & 0x6);
                let a: u64 = self.read_reg(Register::X(rd));
                if (self.inst.kind == InstKind::CBeqz && a == 0) || (self.inst.kind
                    == InstKind::CBnez && a != 0) {
                    let dst: u64 = self.pc.wrapping_add(sign_extend(8, target));
                    self.write_reg(Register::Pc, dst);
                    self.inst.set_class(InstClass::Jump(true));
                }
                Ok(())
            },
            _ => Err(Fault::UnimplementedInstruction),
        }
    }

    /// Executes C.J: an unconditional jump by the scattered 12-bit offset.
    fn exec_format_cj(&mut self) -> (r: Result<(), Fault>)
        requires
            old(self).wf(),
        ensures
            final(self).wf(),
            post_format_cj(*old(self), *final(self), r),
    {
        match self.inst.kind {
            InstKind::CJ => {
                let imm: u32 = (self.inst.raw() >> 1) & 0xffe;
                let offset: u32 = (imm & 0xb40) | ((imm << 3) & 0x400) | ((imm << 2) & 0x80) | ((
                imm << 4) & 0x20) | ((imm >> 6) & 0x10) | ((imm >> 1) & 0xe);
                let dst: u64 = self.pc.wrapping_add(sign_extend(11, offset as u64));
                self.write_reg(Register::Pc, dst);
                self.inst.set_class(InstClass::Jump(true));
                Ok(())
            },
            _ => Err(Fault::UnimplementedInstruction),
        }
    }

    /// Executes a CI-format compressed instruction: the immediate
    /// arithmetic forms, the stack-pointer loads, and C.NOP. The reserved
    /// operand encodings the reference behavior aborts on (a zero C.ADDI
    /// immediate, a zero destination where the ISA reserves it) end the
    /// run as unimplemented.
    fn exec_format_ci(&mut self) -> (r: Result<(), Fault>)
        requires
            old(self).wf(),
        ensures
            final(self).wf(),
            post_format_ci(*old(self), *final(self), r),
    {
        let (rd, imm) = crate::bits::extract_ci_type(self.inst.raw() as u16);
        match self.inst.kind {
            InstKind::CNop => Ok(()),
            InstKind::CAddi => {
                if imm == 0 {
                    return Err(Fault::UnimplementedInstruction);
                }
                let a: u64 = self.read_reg(Register::X(rd));
                self.write_reg(Register::X(rd), a.wrapping_add(sign_extend(5, imm)));
                Ok(())
            },
            InstKind::CAddiw => {
                if rd == 0 {
                    return Err(Fault::UnimplementedInstruction);
                }
                let a: u64 = self.read_reg(Register::X(rd));
                let v: u64 = alu_compute(InstKind::CAddiw, a, sign_extend(5, imm));
                self.write_reg(Register::X(rd), v);
                Ok(())
            },
            InstKind::CLi => {
                if rd != 0 {
                    self.write_reg(Register::X(rd), sign_extend(5, imm));
                }
                Ok(())
            },
            InstKind::CLui => {
                if imm == 0 {
                    return Err(Fault::UnimplementedInstruction);
                }
                let nzimm: u64 = imm << 12;
                self.write_reg(Register::X(rd), sign_extend(17, nzimm));
                Ok(())
            },
            InstKind::CAddi16sp => {
                if rd == 0 {
                    return Err(Fault::UnimplementedInstruction);
                }
                let nzimm: u64 = ((imm << 4) & 0x200) | ((imm << 6) & 0x180) | ((imm << 3) & 0x40)
                    | ((imm << 5) & 0x20) | (imm & 0x10);
                let sp: u64 = self.read_reg(Register::X(2));
                self.write_reg(Register::X(2), sp.wrapping_add(sign_extend(9, nzimm)));
                Ok(())
            },
            InstKind::CSlli => {
                if rd != 0 && imm != 0 {
                    let a: u64 = self.read_reg(Register::X(rd));
                    self.write_reg(Register::X(rd), a << (imm % 64));
                }
                Ok(())
            },
            InstKind::CLwsp => {
                if rd == 0 {
                    return Err(Fault::UnimplementedInstruction);
                }
                let offset: u64 = ((imm << 6) & 0xc0) | (imm & 0x3c);
                let addr: u64 = self.read_reg(Register::X(2)).wrapping_add(offset);
                let v: u64 = self.mem_read_val(addr, 4);
                proof {
                    crate::bits::lemma_le_val_bound(
                        old(self).mem_bytes(addr as usize as int, 4),
                    );
                    vstd::arithmetic::power2::lemma2_to64();
                }
                self.write_reg(Register::X(rd), sign_extend(31, v));
                Ok(())
            },
            InstKind::CLdsp => {
                if rd == 0 {
                    return Err(Fault::UnimplementedInstruction);
                }
                let offset: u64 = ((imm << 6) & 0x1c0) | (imm & 0x38);
                let addr: u64 = self.read_reg(Register::X(2)).wrapping_add(offset);
                let v: u64 = self.mem_read_val(addr, 8);
                proof {
                    crate::bits::lemma_le_val_bound(
                        old(self).mem_bytes(addr as usize as int, 8),
                    );
                    vstd::arithmetic::power2::lemma2_to64();
                }
                self.write_reg(Register::X(rd), v);
                Ok(())
            },
            _ => Err(Fault::UnimplementedInstruction),
        }
    }

    /// Executes C.ADDI4SPN: adds the scattered zero-extended immediate to
    /// the stack pointer into a compressed register; the all-zero
    /// immediate is a reserved encoding and raises an illegal-instruction
    /// trap.
    fn exec_format_ciw(&mut self) -> (r: Result<(), Fault>)
        requires
            old(self).wf(),
        ensures
            final(self).wf(),
            post_format_ciw(*old(self), *final(self), r),
    {
        let (rd, imm) = crate::bits::extract_ciw_type(self.inst.raw() as u16);
        match self.inst.kind {
            InstKind::CAddi4spn => {
                if imm == 0 {
                    return Err(Fault::Trap(Exception::IllegralInstruction));
                }
                let nzuimm: u64 = ((imm & 0x3c) << 4) | ((imm & 0xc0) >> 2) | ((imm & 0x1) << 3)
                    | ((imm & 0x2) << 1);
                let sp: u64 = self.read_reg(Register::X(2));
                self.write_reg(Register::X(rd), sp.wrapping_add(nzuimm));
                Ok(())
            },
            _ => Err(Fault::UnimplementedInstruction),
        }
    }

    /// Executes the compressed register-relative loads and stores: the
    /// word or doubleword at the compressed base register plus the
    /// rearranged offset.
    fn exec_format_clcs(&mut self) -> (r: Result<(), Fault>)
        requires
            old(self).wf(),
        ensures
            final(self).wf(),
            post_format_clcs(*old(self), *final(self), r),
    {
        let (fr, sr, imm) = crate::bits::extract_clcs_type(self.inst.raw() as u16);
        match self.inst.kind {
            InstKind::CLw => {
                let offset: u64 = crate::bits::calc_c_offset_5_3_2_6(imm);
                let addr: u64 = self.read_reg(Register::X(sr)).wrapping_add(offset);
                let v: u64 = self.mem_read_val(addr, 4);
                proof {
                    crate::bits::lemma_le_val_bound(
                        old(self).mem_bytes(addr as usize as int, 4),
                    );
                    vstd::arithmetic::power2::lemma2_to64();
                }
                self.write_reg(Register::X(fr), sign_extend(31, v));
                Ok(())
            },
            InstKind::CLd => {
                let offset: u64 = crate::bits::calc_c_offset_5_3_7_6(imm);
                let addr: u64 = self.read_reg(Register::X(sr)).wrapping_add(offset);
                let v: u64 = self.mem_read_val(addr, 8);
                proof {
                    crate::bits::lemma_le_val_bound(
                        old(self).mem_bytes(addr as usize as int, 8),
                    );
                    vstd::arithmetic::power2::lemma2_to64();
                }
                self.write_reg(Register::X(fr), v);
                Ok(())
            },
            InstKind::CSw => {
                let offset: u64 = crate::bits::calc_c_offset_5_3_2_6(imm);
                let addr: u64 = self.read_reg(Register::X(sr)).wrapping_add(offset);
                let v: u64 = self.read_reg(Register::X(fr));
                self.mem_write_val(addr, 4, v);
                Ok(())
            },
            InstKind::CSd => {
                let offset: u64 = crate::bits::calc_c_offset_5_3_7_6(imm);
                let addr: u64 = self.read_reg(Register::X(sr)).wrapping_add(offset);
                let v: u64 = self.read_reg(Register::X(fr));
                self.mem_write_val(addr, 8, v);
                Ok(())
            },
            _ => Err(Fault::UnimplementedInstruction),
        }
    }

    /// Executes a CR-format compressed instruction: the register jumps
    /// (C.JR, C.JALR, which mask the target's low bit and for C.JALR link
    /// `pc + 2` into `x1`) and the register moves and adds (a zero
    /// destination encodes a hint and changes nothing).
    fn exec_format_cr(&mut self) -> (r: Result<(), Fault>)
        requires
            old(self).wf(),
        ensures
            final(self).wf(),
            post_format_cr(*old(self), *final(self), r),
    {
        let (rs2, rd) = crate::bits::extract_cr_type(self.inst.raw() as u16);
        match self.inst.kind {
            InstKind::CJr | InstKind::CJalr => {
                if rd == 0 {
                    return Err(Fault::UnimplementedInstruction);
                }
                if self.inst.kind == InstKind::CJalr {
                    let link: u64 = self.pc.wrapping_add(2);
                    self.write_reg(Register::X(1), link);
                }
                let dst: u64 = self.read_reg(Register::X(rd)) & !1u64;
                self.write_reg(Register::Pc, dst);
                self.inst.set_class(InstClass::Jump(true));
                Ok(())
            },
            InstKind::CMv => {
                if rd != 0 {
                    let b: u64 = self.read_reg(Register::X(rs2));
                    self.write_reg(Register::X(rd), b);
                }
                Ok(())
            },
            InstKind::CAdd => {
                if rd != 0 {
                    let a: u64 = self.read_reg(Register::X(rd));
                    let b: u64 = self.read_reg(Register::X(rs2));
                    self.write_reg(Register::X(rd), a.wrapping_add(b));
                }
                Ok(())
            },
            _ => Err(Fault::UnimplementedInstruction),
        }
    }

    /// Executes the compressed stack-pointer stores: the word or
    /// doubleword of `rs2` goes to the stack pointer plus the rearranged
    /// offset.
    fn exec_format_css(&mut self) -> (r: Result<(), Fault>)
        requires
            old(self).wf(),
        ensures
            final(self).wf(),
            post_format_css(*old(self), *final(self), r),
    {
        let (rs2, imm) = crate::bits::extract_css_type(self.inst.raw() as u16);
        match self.inst.kind {
            InstKind::CSwsp => {
                let offset: u64 = ((imm << 6) & 0xc0) | (imm & 0x3c);
                let addr: u64 = self.read_reg(Register::X(2)).wrapping_add(offset);
                let v: u64 = self.read_reg(Register::X(rs2));
                self.mem_write_val(addr, 4, v);
                Ok(())
            },
            InstKind::CSdsp => {
                let offset: u64 = ((imm << 6) & 0x1c0) | (imm & 0x38);
                let addr: u64 = self.read_reg(Register::X(2)).wrapping_add(offset);
                let v: u64 = self.read_reg(Register::X(rs2));
                self.mem_write_val(addr, 8, v);
                Ok(())
            },
            _ => Err(Fault::UnimplementedInstruction),
        }
    }

    /// Executes a conditional branch: on a taken branch whose target is
    /// properly aligned the program counter moves to `pc + offset` and the
    /// descriptor is marked a taken jump; a misaligned target raises the
    /// misaligned trap and leaves the state unchanged; an untaken branch
    /// changes nothing.
    fn exec_format_b(&mut self) -> (r: Result<(), Fault>)
        requires
            old(self).wf(),
            old(self).inst.format == InstFormat::B,
        ensures
            final(self).wf(),
            post_format_b(*old(self), *final(self), r),
    {
        let (rs1, rs2, imm) = extract_b_type(self.inst.raw());
        let offset: u64 = sign_extend(12, imm);
        let a: u64 = self.read_reg(Register::X(rs1));
        let b: u64 = self.read_reg(Register::X(rs2));
        let flag: bool = match self.inst.kind {
            InstKind::Beq => a == b,
            InstKind::Bne => a != b,
            InstKind::Blt => crate::bits::signed_lt(a, b),
            InstKind::Bge => !crate::bits::signed_lt(a, b),
            InstKind::Bltu => a < b,
            InstKind::Bgeu => a >= b,
            _ => {
                return Err(Fault::UnimplementedInstruction);
            },
        };
        if flag {
            let dst: u64 = self.pc.wrapping_add(offset);
            self.check_misaligned(dst)?;
            self.inst.set_class(InstClass::Jump(true));
            self.write_reg(Register::Pc, dst);
        }
        Ok(())
    }

    /// Executes JAL: links `pc + 4` into `rd` and jumps to `pc + offset`;
    /// a misaligned target raises the misaligned trap and changes nothing.
    fn exec_format_j(&mut self) -> (r: Result<(), Fault>)
        requires
            old(self).wf(),
            old(self).inst.format == InstFormat::J,
        ensures
            final(self).wf(),
            post_format_j(*old(self), *final(self), r),
    {
        let (rd, imm) = extract_j_type(self.inst.raw());
        let offset: u64 = sign_extend(20, imm);
        let pc: u64 = self.pc;
        let dst: u64 = pc.wrapping_add(offset);
        self.check_misaligned(dst)?;
        self.write_reg(Register::X(rd), pc.wrapping_add(4));
        self.write_reg(Register::Pc, dst);
        self.inst.set_class(InstClass::Jump(true));
        Ok(())
    }

    /// Executes LUI and AUIPC: the sign-extended upper immediate, for
    /// AUIPC added to the program counter, is written to `rd`.
    fn exec_format_u(&mut self) -> (r: Result<(), Fault>)
        requires
            old(self).wf(),
            old(self).inst.format == InstFormat::U,
        ensures
            final(self).wf(),
            post_format_u(*old(self), *final(self), r),
    {
        let (rd, imm) = extract_u_type(self.inst.raw());
        match self.inst.kind {
            InstKind::Auipc => {
                let v: u64 = self.pc.wrapping_add(sign_extend(31, imm));
                self.write_reg(Register::X(rd), v);
                Ok(())
            },
            InstKind::Lui => {
                self.write_reg(Register::X(rd), sign_extend(31, imm));
                Ok(())
            },
            _ => Err(Fault::Trap(Exception::IllegralInstruction)),
        }
    }

    /// Executes a store: the low bytes of `rs2` go to memory at
    /// `rs1 + offset`.
    fn exec_format_s(&mut self) -> (r: Result<(), Fault>)
        requires
            old(self).wf(),
            old(self).inst.format == InstFormat::S,
        ensures
            final(self).wf(),
            post_format_s(*old(self), *final(self), r),
    {
        let (rs1, rs2, imm) = extract_s_type(self.inst.raw());
        let addr: u64 = self.read_reg(Register::X(rs1)).wrapping_add(sign_extend(11, imm));
        let v: u64 = self.read_reg(Register::X(rs2));
        match self.inst.kind {
            InstKind::Sb => {
                self.mem_write_val(addr, 1, v);
                Ok(())
            },
            InstKind::Sh => {
                self.mem_write_val(addr, 2, v);
                Ok(())
            },
            InstKind::Sw => {
                self.mem_write_val(addr, 4, v);
                Ok(())
            },
            InstKind::Sd => {
                self.mem_write_val(addr, 8, v);
                Ok(())
            },
            _ => Err(Fault::UnimplementedInstruction),
        }
    }

    /// Executes the instructions without operand fields: FENCE (a no-op,
    /// with the FENCE.TSO and PAUSE encodings refused), ECALL, SRET, MRET
    /// and WFI. After MRET from machine mode, `mstatus.MIE` is restored
    /// from `mstatus.MPIE`, `mstatus.MPIE` is set, `mstatus.MPP` becomes
    /// user mode, the privilege becomes the saved `MPP`, and execution
    /// continues at `mepc`; SRET is symmetric on the supervisor fields.
    fn exec_format_other(&mut self) -> (r: Result<(), Fault>)
        requires
            old(self).wf(),
            old(self).inst.format == InstFormat::Other,
        ensures
            final(self).wf(),
            post_format_other(*old(self), *final(self), r),
    {
        match self.inst.kind {
            InstKind::Fence => {
                if self.inst.raw() == 0x8330_000f || self.inst.raw() == 0x0100_000f {
                    Err(Fault::Trap(Exception::IllegralInstruction))
                } else {
                    Ok(())
                }
            },
            InstKind::Ecall => {
                match self.current_priv {
                    Priv::M => Err(Fault::Trap(Exception::EnvironmentCallFromMMode)),
                    Priv::S => Err(Fault::Trap(Exception::EnvironmentCallFromSMode)),
                    Priv::U => Err(Fault::Trap(Exception::EnvironmentCallFromUMode)),
                }
            },
            InstKind::Mret => {
                if self.current_priv != Priv::M {
                    return Err(Fault::Trap(Exception::IllegralInstruction));
                }
                let mstatus: u64 = self.csr.mstatus;
                let mpp: u64 = (mstatus & CSR_MSTATUS_MPP_MASK) >> 11;
                let mpie: u64 = (mstatus & CSR_MSTATUS_MPIE_MASK) >> 7;
                proof {
                    assert((mstatus & CSR_MSTATUS_MPP_MASK) >> 11 <= 3) by (bit_vector);
                }
                if mpp == 2 {
                    return Err(Fault::InvalidPrivilege);
                }
                let new_mstatus: u64 = (mstatus & !CSR_MSTATUS_MIE_MASK & !CSR_MSTATUS_MPP_MASK
                    & !CSR_MSTATUS_MPIE_MASK) | (mpie << 3) | (1u64 << 7);
                let _ = self.write_raw_csr(CSR_MSTATUS, new_mstatus);
                self.write_reg(Register::Pc, self.csr.mepc);
                self.current_priv = Priv::from(mpp);
                self.inst.set_class(InstClass::Jump(true));
                proof {
                    let m2 = new_mstatus;
                    assert(((mstatus & !0x8u64 & !0x1800u64 & !0x80u64) | (mpie << 3) | (
                    1u64 << 7)) & 0x8u64 == mpie << 3 && ((mstatus & !0x8u64 & !0x1800u64
                        & !0x80u64) | (mpie << 3) | (1u64 << 7)) & 0x80u64 == 1u64 << 7 && ((
                    mstatus & !0x8u64 & !0x1800u64 & !0x80u64) | (mpie << 3) | (1u64 << 7))
                        & 0x1800u64 == 0) by (bit_vector)
                        requires
                            mpie == (mstatus & 0x80u64) >> 7,
                    ;
                }
                Ok(())
            },
            InstKind::Sret => {
                match self.current_priv {
                    Priv::M | Priv::S => {
                        let mstatus: u64 = self.csr.mstatus;
                        if self.current_priv == Priv::S && mstatus & CSR_MSTATUS_TSR_MASK != 0 {
                            return Err(Fault::Trap(Exception::IllegralInstruction));
                        }
                        let spp: u64 = (mstatus & CSR_MSTATUS_SPP_MASK) >> 8;
                        let spie: u64 = (mstatus & CSR_MSTATUS_SPIE_MASK) >> 5;
                        proof {
                            assert((mstatus & CSR_MSTATUS_SPP_MASK) >> 8 <= 1) by (bit_vector);
                        }
                        let new_sstatus: u64 = (mstatus & !CSR_MSTATUS_SPP_MASK
                            & !CSR_MSTATUS_SPIE_MASK & !CSR_MSTATUS_SIE_MASK) | (1u64 << 5) | (spie
                            << 1);
                        let _ = self.write_raw_csr(CSR_SSTATUS, new_sstatus);
                        self.write_reg(Register::Pc, self.csr.sepc);
                        self.current_priv = Priv::from(spp);
                        self.inst.set_class(InstClass::Jump(true));
                        Ok(())
                    },
                    _ => Err(Fault::Trap(Exception::IllegralInstruction)),
                }
            },
            InstKind::Wfi => {
                if self.current_priv != Priv::S {
                    return Err(Fault::Trap(Exception::IllegralInstruction));
                }
                if self.csr.mstatus & CSR_MSTATUS_TW_MASK != 0 {
                    return Err(Fault::WfiTimeout);
                }
                let active: u64 = self.csr.mie & self.csr.mip;
                if active == 2 {
                    Ok(())
                } else if active == 0 {
                    Err(Fault::WfiNoPendingInterrupt)
                } else if active & 2 != 0 {
                    Err(Fault::NestedInterrupt)
                } else {
                    Err(Fault::UnsupportedInterrupt)
                }
            },
            _ => Err(Fault::UnimplementedInstruction),
        }
    }
}

} // verus!
