//! The decoder: classifies a 16- or 32-bit code word into an instruction
//! descriptor, following the opcode/funct3/funct7 dispatch of the base ISA
//! and the quadrant/funct3 dispatch of the compressed extension. Reserved
//! and unrecognized encodings yield the invalid descriptor.

use vstd::prelude::*;

use crate::cpu::{Inst, InstClass, InstFormat, InstIsa, InstKind};

verus! {

/// A descriptor with the given fields.
pub open spec fn inst_of(k: InstKind, c: InstClass, f: InstFormat, i: InstIsa, raw: u32) -> Inst {
    Inst { kind: k, class: c, format: f, isa: i, raw }
}

/// Builds a descriptor with the given fields.
fn build_inst(k: InstKind, c: InstClass, f: InstFormat, i: InstIsa, raw: u32) -> (r: Inst)
    ensures
        r == inst_of(k, c, f, i, raw),
{
    Inst { kind: k, class: c, format: f, isa: i, raw }
}

/// The decoding table for 16-bit (compressed) code words: what `c_decode`
/// returns for the low 16 bits of `raw_inst`.
#[verifier::opaque]
pub open spec fn spec_c_decode(raw_inst: u32) -> Inst {
    let raw = raw_inst % 0x10000;
    let op = raw % 4;
    let f3 = raw / 0x2000;
    let rd = (raw / 0x80) % 32;
    if op == 0 && f3 == 0 {
        inst_of(InstKind::CAddi4spn, InstClass::Alu, InstFormat::Ciw, InstIsa::C, raw)
    } else if op == 0 && f3 == 2 {
        inst_of(InstKind::CLw, InstClass::Load, InstFormat::Cl, InstIsa::C, raw)
    } else if op == 0 && f3 == 3 {
        inst_of(InstKind::CLd, InstClass::Load, InstFormat::Cl, InstIsa::C, raw)
    } else if op == 0 && f3 == 6 {
        inst_of(InstKind::CSw, InstClass::Store, InstFormat::Cs, InstIsa::C, raw)
    } else if op == 0 && f3 == 7 {
        inst_of(InstKind::CSd, InstClass::Store, InstFormat::Cs, InstIsa::C, raw)
    } else if op == 1 && f3 == 0 {
        if rd == 0 {
            inst_of(InstKind::CNop, InstClass::Alu, InstFormat::Ci, InstIsa::C, raw)
        } else {
            inst_of(InstKind::CAddi, InstClass::Alu, InstFormat::Ci, InstIsa::C, raw)
        }
    } else if op == 1 && f3 == 1 {
        inst_of(InstKind::CAddiw, InstClass::Alu, InstFormat::Ci, InstIsa::C, raw)
    } else if op == 1 && f3 == 2 {
        inst_of(InstKind::CLi, InstClass::Load, InstFormat::Ci, InstIsa::C, raw)
    } else if op == 1 && f3 == 3 {
        if rd == 0 {
            Inst::spec_invalid()
        } else if rd == 2 {
            inst_of(InstKind::CAddi16sp, InstClass::Alu, InstFormat::Ci, InstIsa::C, raw)
        } else {
            inst_of(InstKind::CLui, InstClass::Load, InstFormat::Ci, InstIsa::C, raw)
        }
    } else if op == 1 && f3 == 4 {
        let sub = (raw / 0x400) % 4;
        if sub == 0 {
            inst_of(InstKind::CSrli, InstClass::Alu, InstFormat::Cb, InstIsa::C, raw)
        } else if sub == 1 {
            inst_of(InstKind::CSrai, InstClass::Alu, InstFormat::Cb, InstIsa::C, raw)
        } else if sub == 2 {
            inst_of(InstKind::CAndi, InstClass::Alu, InstFormat::Cb, InstIsa::C, raw)
        } else {
            let hi = (raw / 0x1000) % 2;
            let lo = (raw / 0x20) % 4;
            if hi == 0 && lo == 0 {
                inst_of(InstKind::CSub, InstClass::Alu, InstFormat::Ca, InstIsa::C, raw)
            } else if hi == 0 && lo == 1 {
                inst_of(InstKind::CXor, InstClass::Alu, InstFormat::Ca, InstIsa::C, raw)
            } else if hi == 0 && lo == 2 {
                inst_of(InstKind::COr, InstClass::Alu, InstFormat::Ca, InstIsa::C, raw)
            } else if hi == 0 && lo == 3 {
                inst_of(InstKind::CAnd, InstClass::Alu, InstFormat::Ca, InstIsa::C, raw)
            } else if hi == 1 && lo == 0 {
                inst_of(InstKind::CSubw, InstClass::Alu, InstFormat::Ca, InstIsa::C, raw)
            } else if hi == 1 && lo == 1 {
                inst_of(InstKind::CAddw, InstClass::Alu, InstFormat::Ca, InstIsa::C, raw)
            } else {
                Inst::spec_invalid()
            }
        }
    } else if op == 1 && f3 == 5 {
        inst_of(InstKind::CJ, InstClass::Jump(false), InstFormat::Cj, InstIsa::C, raw)
    } else if op == 1 && f3 == 6 {
        inst_of(InstKind::CBeqz, InstClass::Jump(false), InstFormat::Cb, InstIsa::C, raw)
    } else if op == 1 && f3 == 7 {
        inst_of(InstKind::CBnez, InstClass::Jump(false), InstFormat::Cb, InstIsa::C, raw)
    } else if op == 2 && f3 == 0 {
        inst_of(InstKind::CSlli, InstClass::Alu, InstFormat::Ci, InstIsa::C, raw)
    } else if op == 2 && f3 == 2 {
        inst_of(InstKind::CLwsp, InstClass::Load, InstFormat::Ci, InstIsa::C, raw)
    } else if op == 2 && f3 == 3 {
        inst_of(InstKind::CLdsp, InstClass::Load, InstFormat::Ci, InstIsa::C, raw)
    } else if op == 2 && f3 == 4 {
        if raw == 0x9002 {
            inst_of(InstKind::CEbreak, InstClass::System, InstFormat::Other, InstIsa::C, raw)
        } else {
            let hi = (raw / 0x1000) % 2;
            let rs2 = (raw / 4) % 32;
            if hi == 0 && rs2 == 0 {
                inst_of(InstKind::CJr, InstClass::Jump(false), InstFormat::Cr, InstIsa::C, raw)
            } else if hi == 0 {
                inst_of(InstKind::CMv, InstClass::Alu, InstFormat::Cr, InstIsa::C, raw)
            } else if rs2 == 0 {
                inst_of(InstKind::CJalr, InstClass::Jump(false), InstFormat::Cr, InstIsa::C, raw)
            } else {
                inst_of(InstKind::CAdd, InstClass::Alu, InstFormat::Cr, InstIsa::C, raw)
            }
        }
    } else if op == 2 && f3 == 6 {
        inst_of(InstKind::CSwsp, InstClass::Store, InstFormat::Css, InstIsa::C, raw)
    } else if op == 2 && f3 == 7 {
        inst_of(InstKind::CSdsp, InstClass::Store, InstFormat::Css, InstIsa::C, raw)
    } else {
        Inst::spec_invalid()
    }
}

/// The full decoding table: what `decode` returns for a code word.
#[verifier::opaque]
pub open spec fn spec_decode(raw_inst: u32) -> Inst {
    if raw_inst == 0 {
        Inst::spec_invalid()
    } else if raw_inst % 4 < 3 {
        spec_c_decode(raw_inst)
    } else {
        let raw = raw_inst;
        let op = raw % 128;
        let f3 = (raw / 0x1000) % 8;
        if op == 0x03 {
            if f3 == 0 {
                inst_of(InstKind::Lb, InstClass::Load, InstFormat::I, InstIsa::I, raw)
            } else if f3 == 1 {
                inst_of(InstKind::Lh, InstClass::Load, InstFormat::I, InstIsa::I, raw)
            } else if f3 == 2 {
                inst_of(InstKind::Lw, InstClass::Load, InstFormat::I, InstIsa::I, raw)
            } else if f3 == 3 {
                inst_of(InstKind::Ld, InstClass::Load, InstFormat::I, InstIsa::I, raw)
            } else if f3 == 4 {
                inst_of(InstKind::Lbu, InstClass::Load, InstFormat::I, InstIsa::I, raw)
            } else if f3 == 5 {
                inst_of(InstKind::Lhu, InstClass::Load, InstFormat::I, InstIsa::I, raw)
            } else if f3 == 6 {
                inst_of(InstKind::Lwu, InstClass::Load, InstFormat::I, InstIsa::I, raw)
            } else {
                Inst::spec_invalid()
            }
        } else if op == 0x0f {
            inst_of(InstKind::Fence, InstClass::System, InstFormat::Other, InstIsa::Zifencei, raw)
        } else if op == 0x13 {
            let shf = raw / 0x400_0000;
            if f3 == 0 {
                inst_of(InstKind::Addi, InstClass::Alu, InstFormat::I, InstIsa::I, raw)
            } else if f3 == 1 && shf == 0 {
                inst_of(InstKind::Slli, InstClass::Alu, InstFormat::I, InstIsa::I, raw)
            } else if f3 == 2 {
                inst_of(InstKind::Slti, InstClass::Alu, InstFormat::I, InstIsa::I, raw)
            } else if f3 == 3 {
                inst_of(InstKind::Sltiu, InstClass::Alu, InstFormat::I, InstIsa::I, raw)
            } else if f3 == 4 {
                inst_of(InstKind::Xori, InstClass::Alu, InstFormat::I, InstIsa::I, raw)
            } else if f3 == 5 && shf == 0 {
                inst_of(InstKind::Srli, InstClass::Alu, InstFormat::I, InstIsa::I, raw)
            } else if f3 == 5 && shf == 0x10 {
                inst_of(InstKind::Srai, InstClass::Alu, InstFormat::I, InstIsa::I, raw)
            } else if f3 == 6 {
                inst_of(InstKind::Ori, InstClass::Alu, InstFormat::I, InstIsa::I, raw)
            } else if f3 == 7 {
                inst_of(InstKind::Andi, InstClass::Alu, InstFormat::I, InstIsa::I, raw)
            } else {
                Inst::spec_invalid()
            }
        } else if op == 0x17 {
            inst_of(InstKind::Auipc, InstClass::Alu, InstFormat::U, InstIsa::I, raw)
        } else if op == 0x1b {
            let shf = raw / 0x400_0000;
            if f3 == 0 {
                inst_of(InstKind::Addiw, InstClass::Alu, InstFormat::I, InstIsa::I, raw)
            } else if f3 == 1 && shf == 0 {
                inst_of(InstKind::Slliw, InstClass::Alu, InstFormat::I, InstIsa::I, raw)
            } else if f3 == 5 && shf == 0 {
                inst_of(InstKind::Srliw, InstClass::Alu, InstFormat::I, InstIsa::I, raw)
            } else if f3 == 5 && shf == 0x10 {
                inst_of(InstKind::Sraiw, InstClass::Alu, InstFormat::I, InstIsa::I, raw)
            } else {
                Inst::spec_invalid()
            }
        } else if op == 0x23 {
            if f3 == 0 {
                inst_of(InstKind::Sb, InstClass::Store, InstFormat::S, InstIsa::I, raw)
            } else if f3 == 1 {
                inst_of(InstKind::Sh, InstClass::Store, InstFormat::S, InstIsa::I, raw)
            } else if f3 == 2 {
                inst_of(InstKind::Sw, InstClass::Store, InstFormat::S, InstIsa::I, raw)
            } else if f3 == 3 {
                inst_of(InstKind::Sd, InstClass::Store, InstFormat::S, InstIsa::I, raw)
            } else {
                Inst::spec_invalid()
            }
        } else if op == 0x2f {
            let f5 = raw / 0x800_0000;
            if f3 == 2 {
                if f5 == 0 {
                    inst_of(InstKind::AmoaddW, InstClass::Atomic, InstFormat::R, InstIsa::A, raw)
                } else if f5 == 1 {
                    inst_of(InstKind::AmoswapW, InstClass::Atomic, InstFormat::R, InstIsa::A, raw)
                } else if f5 == 2 {
                    inst_of(InstKind::LrW, InstClass::Atomic, InstFormat::R, InstIsa::A, raw)
                } else if f5 == 3 {
                    inst_of(InstKind::ScW, InstClass::Atomic, InstFormat::R, InstIsa::A, raw)
                } else if f5 == 4 {
                    inst_of(InstKind::AmoxorW, InstClass::Atomic, InstFormat::R, InstIsa::A, raw)
                } else if f5 == 8 {
                    inst_of(InstKind::AmoorW, InstClass::Atomic, InstFormat::R, InstIsa::A, raw)
                } else if f5 == 0xc {
                    inst_of(InstKind::AmoandW, InstClass::Atomic, InstFormat::R, InstIsa::A, raw)
                } else if f5 == 0x10 {
                    inst_of(InstKind::AmominW, InstClass::Atomic, InstFormat::R, InstIsa::A, raw)
                } else if f5 == 0x14 {
                    inst_of(InstKind::AmomaxW, InstClass::Atomic, InstFormat::R, InstIsa::A, raw)
                } else if f5 == 0x18 {
                    inst_of(InstKind::AmominuW, InstClass::Atomic, InstFormat::R, InstIsa::A, raw)
                } else if f5 == 0x1c {
                    inst_of(InstKind::AmomaxuW, InstClass::Atomic, InstFormat::R, InstIsa::A, raw)
                } else {
                    Inst::spec_invalid()
                }
            } else if f3 == 3 {
                if f5 == 0 {
                    inst_of(InstKind::AmoaddD, InstClass::Atomic, InstFormat::R, InstIsa::A, raw)
                } else if f5 == 1 {
                    inst_of(InstKind::AmoswapD, InstClass::Atomic, InstFormat::R, InstIsa::A, raw)
                } else if f5 == 4 {
                    inst_of(InstKind::AmoxorD, InstClass::Atomic, InstFormat::R, InstIsa::A, raw)
                } else if f5 == 8 {
                    inst_of(InstKind::AmoorD, InstClass::Atomic, InstFormat::R, InstIsa::A, raw)
                } else if f5 == 0xc {
                    inst_of(InstKind::AmoandD, InstClass::Atomic, InstFormat::R, InstIsa::A, raw)
                } else if f5 == 0x10 {
                    inst_of(InstKind::AmominD, InstClass::Atomic, InstFormat::R, InstIsa::A, raw)
                } else if f5 == 0x14 {
                    inst_of(InstKind::AmomaxD, InstClass::Atomic, InstFormat::R, InstIsa::A, raw)
                } else if f5 == 0x18 {
                    inst_of(InstKind::AmominuD, InstClass::Atomic, InstFormat::R, InstIsa::A, raw)
                } else if f5 == 0x1c {
                    inst_of(InstKind::AmomaxuD, InstClass::Atomic, InstFormat::R, InstIsa::A, raw)
                } else {
                    Inst::spec_invalid()
                }
            } else {
                Inst::spec_invalid()
            }
        } else if op == 0x33 {
            let f7 = raw / 0x200_0000;
            if f3 == 0 && f7 == 0 {
                inst_of(InstKind::Add, InstClass::Alu, InstFormat::R, InstIsa::I, raw)
            } else if f3 == 0 && f7 == 1 {
                inst_of(InstKind::Mul, InstClass::Alu, InstFormat::R, InstIsa::M, raw)
            } else if f3 == 0 && f7 == 0x20 {
                inst_of(InstKind::Sub, InstClass::Alu, InstFormat::R, InstIsa::I, raw)
            } else if f3 == 1 && f7 == 0 {
                inst_of(InstKind::Sll, InstClass::Alu, InstFormat::R, InstIsa::I, raw)
            } else if f3 == 1 && f7 == 1 {
                inst_of(InstKind::Mulh, InstClass::Alu, InstFormat::R, InstIsa::M, raw)
            } else if f3 == 2 && f7 == 0 {
                inst_of(InstKind::Slt, InstClass::Alu, InstFormat::R, InstIsa::I, raw)
            } else if f3 == 2 && f7 == 1 {
                inst_of(InstKind::Mulhsu, InstClass::Alu, InstFormat::R, InstIsa::M, raw)
            } else if f3 == 3 && f7 == 0 {
                inst_of(InstKind::Sltu, InstClass::Alu, InstFormat::R, InstIsa::I, raw)
            } else if f3 == 3 && f7 == 1 {
                inst_of(InstKind::Mulhu, InstClass::Alu, InstFormat::R, InstIsa::M, raw)
            } else if f3 == 4 && f7 == 0 {
                inst_of(InstKind::Xor, InstClass::Alu, InstFormat::R, InstIsa::I, raw)
            } else if f3 == 4 && f7 == 1 {
                inst_of(InstKind::Div, InstClass::Alu, InstFormat::R, InstIsa::M, raw)
            } else if f3 == 6 && f7 == 0 {
                inst_of(InstKind::Or, InstClass::Alu, InstFormat::R, InstIsa::I, raw)
            } else if f3 == 6 && f7 == 1 {
                inst_of(InstKind::Rem, InstClass::Alu, InstFormat::R, InstIsa::M, raw)
            } else if f3 == 5 && f7 == 0 {
                inst_of(InstKind::Srl, InstClass::Alu, InstFormat::R, InstIsa::I, raw)
            } else if f3 == 5 && f7 == 1 {
                inst_of(InstKind::Divu, InstClass::Alu, InstFormat::R, InstIsa::M, raw)
            } else if f3 == 5 && f7 == 0x20 {
                inst_of(InstKind::Sra, InstClass::Alu, InstFormat::R, InstIsa::I, raw)
            } else if f3 == 7 && f7 == 0 {
                inst_of(InstKind::And, InstClass::Alu, InstFormat::R, InstIsa::I, raw)
            } else if f3 == 7 && f7 == 1 {
                inst_of(InstKind::Remu, InstClass::Alu, InstFormat::R, InstIsa::M, raw)
            } else {
                Inst::spec_invalid()
            }
        } else if op == 0x37 {
            inst_of(InstKind::Lui, InstClass::Load, InstFormat::U, InstIsa::I, raw)
        } else if op == 0x3b {
            let f7 = raw / 0x200_0000;
            if f3 == 0 && f7 == 0 {
                inst_of(InstKind::Addw, InstClass::Alu, InstFormat::R, InstIsa::I, raw)
            } else if f3 == 0 && f7 == 1 {
                inst_of(InstKind::Mulw, InstClass::Alu, InstFormat::R, InstIsa::M, raw)
            } else if f3 == 0 && f7 == 0x20 {
                inst_of(InstKind::Subw, InstClass::Alu, InstFormat::R, InstIsa::I, raw)
            } else if f3 == 1 && f7 == 0 {
                inst_of(InstKind::Sllw, InstClass::Alu, InstFormat::R, InstIsa::I, raw)
            } else if f3 == 4 && f7 == 1 {
                inst_of(InstKind::Divw, InstClass::Alu, InstFormat::R, InstIsa::M, raw)
            } else if f3 == 5 && f7 == 0 {
                inst_of(InstKind::Srlw, InstClass::Alu, InstFormat::R, InstIsa::I, raw)
            } else if f3 == 5 && f7 == 1 {
                inst_of(InstKind::Divuw, InstClass::Alu, InstFormat::R, InstIsa::M, raw)
            } else if f3 == 5 && f7 == 0x20 {
                inst_of(InstKind::Sraw, InstClass::Alu, InstFormat::R, InstIsa::I, raw)
            } else if f3 == 6 && f7 == 1 {
                inst_of(InstKind::Remw, InstClass::Alu, InstFormat::R, InstIsa::M, raw)
            } else if f3 == 7 && f7 == 1 {
                inst_of(InstKind::Remuw, InstClass::Alu, InstFormat::R, InstIsa::M, raw)
            } else {
                Inst::spec_invalid()
            }
        } else if op == 0x63 {
            if f3 == 0 {
                inst_of(InstKind::Beq, InstClass::Jump(false), InstFormat::B, InstIsa::I, raw)
            } else if f3 == 1 {
                inst_of(InstKind::Bne, InstClass::Jump(false), InstFormat::B, InstIsa::I, raw)
            } else if f3 == 5 {
                inst_of(InstKind::Bge, InstClass::Jump(false), InstFormat::B, InstIsa::I, raw)
            } else if f3 == 4 {
                inst_of(InstKind::Blt, InstClass::Jump(false), InstFormat::B, InstIsa::I, raw)
            } else if f3 == 6 {
                inst_of(InstKind::Bltu, InstClass::Jump(false), InstFormat::B, InstIsa::I, raw)
            } else if f3 == 7 {
                inst_of(InstKind::Bgeu, InstClass::Jump(false), InstFormat::B, InstIsa::I, raw)
            } else {
                Inst::spec_invalid()
            }
        } else if op == 0x67 {
            inst_of(InstKind::Jalr, InstClass::Jump(false), InstFormat::I, InstIsa::I, raw)
        } else if op == 0x6f {
            inst_of(InstKind::Jal, InstClass::Jump(false), InstFormat::J, InstIsa::I, raw)
        } else if op == 0x73 {
            if f3 == 0 {
                if raw / 0x200_0000 == 0x09 {
                    inst_of(
                        InstKind::SfenceVma,
                        InstClass::System,
                        InstFormat::R,
                        InstIsa::Zifencei,
                        raw,
                    )
                } else if raw == 0x0000_0073 {
                    inst_of(InstKind::Ecall, InstClass::System, InstFormat::Other, InstIsa::I, raw)
                } else if raw == 0x1020_0073 {
                    inst_of(InstKind::Sret, InstClass::System, InstFormat::Other, InstIsa::I, raw)
                } else if raw == 0x3020_0073 {
                    inst_of(InstKind::Mret, InstClass::System, InstFormat::Other, InstIsa::I, raw)
                } else if raw == 0x1050_0073 {
                    inst_of(InstKind::Wfi, InstClass::System, InstFormat::Other, InstIsa::I, raw)
                } else {
                    Inst::spec_invalid()
                }
            } else if f3 == 1 {
                inst_of(InstKind::Csrrw, InstClass::Csr, InstFormat::I, InstIsa::Zicsr, raw)
            } else if f3 == 2 {
                inst_of(InstKind::Csrrs, InstClass::Csr, InstFormat::I, InstIsa::Zicsr, raw)
            } else if f3 == 3 {
                inst_of(InstKind::Csrrc, InstClass::Csr, InstFormat::I, InstIsa::Zicsr, raw)
            } else if f3 == 5 {
                inst_of(InstKind::Csrrwi, InstClass::Csr, InstFormat::I, InstIsa::Zicsr, raw)
            } else if f3 == 6 {
                inst_of(InstKind::Csrrsi, InstClass::Csr, InstFormat::I, InstIsa::Zicsr, raw)
            } else if f3 == 7 {
                inst_of(InstKind::Csrrci, InstClass::Csr, InstFormat::I, InstIsa::Zicsr, raw)
            } else {
                Inst::spec_invalid()
            }
        } else {
            Inst::spec_invalid()
        }
    }
}

/// Decodes the low 16 bits of a code word as a compressed instruction.
#[verifier::rlimit(100)]
pub fn c_decode(raw_inst: u32) -> (r: Inst)
    ensures
        r == spec_c_decode(raw_inst),
{
    proof {
        reveal(spec_c_decode);
    }
    let raw: u32 = raw_inst % 0x10000;
    let op: u32 = raw % 4;
    let f3: u32 = raw / 0x2000;
    let rd: u32 = (raw / 0x80) % 32;
    match (op, f3) {
        (0, 0) => build_inst(InstKind::CAddi4spn, InstClass::Alu, InstFormat::Ciw, InstIsa::C, raw),
        (0, 2) => build_inst(InstKind::CLw, InstClass::Load, InstFormat::Cl, InstIsa::C, raw),
        (0, 3) => build_inst(InstKind::CLd, InstClass::Load, InstFormat::Cl, InstIsa::C, raw),
        (0, 6) => build_inst(InstKind::CSw, InstClass::Store, InstFormat::Cs, InstIsa::C, raw),
        (0, 7) => build_inst(InstKind::CSd, InstClass::Store, InstFormat::Cs, InstIsa::C, raw),
        (1, 0) => {
            if rd == 0 {
                build_inst(InstKind::CNop, InstClass::Alu, InstFormat::Ci, InstIsa::C, raw)
            } else {
                build_inst(InstKind::CAddi, InstClass::Alu, InstFormat::Ci, InstIsa::C, raw)
            }
        },
        (1, 1) => build_inst(InstKind::CAddiw, InstClass::Alu, InstFormat::Ci, InstIsa::C, raw),
        (1, 2) => build_inst(InstKind::CLi, InstClass::Load, InstFormat::Ci, InstIsa::C, raw),
        (1, 3) => {
            if rd == 0 {
                Inst::invalid()
            } else if rd == 2 {
                build_inst(InstKind::CAddi16sp, InstClass::Alu, InstFormat::Ci, InstIsa::C, raw)
            } else {
                build_inst(InstKind::CLui, InstClass::Load, InstFormat::Ci, InstIsa::C, raw)
            }
        },
        (1, 4) => {
            match (raw / 0x400) % 4 {
                0 => build_inst(InstKind::CSrli, InstClass::Alu, InstFormat::Cb, InstIsa::C, raw),
                1 => build_inst(InstKind::CSrai, InstClass::Alu, InstFormat::Cb, InstIsa::C, raw),
                2 => build_inst(InstKind::CAndi, InstClass::Alu, InstFormat::Cb, InstIsa::C, raw),
                _ => {
                    match ((raw / 0x1000) % 2, (raw / 0x20) % 4) {
                        (0, 0) => build_inst(
                            InstKind::CSub,
                            InstClass::Alu,
                            InstFormat::Ca,
                            InstIsa::C,
                            raw,
                        ),
                        (0, 1) => build_inst(
                            InstKind::CXor,
                            InstClass::Alu,
                            InstFormat::Ca,
                            InstIsa::C,
                            raw,
                        ),
                        (0, 2) => build_inst(
                            InstKind::COr,
                            InstClass::Alu,
                            InstFormat::Ca,
                            InstIsa::C,
                            raw,
                        ),
                        (0, 3) => build_inst(
                            InstKind::CAnd,
                            InstClass::Alu,
                            InstFormat::Ca,
                            InstIsa::C,
                            raw,
                        ),
                        (1, 0) => build_inst(
                            InstKind::CSubw,
                            InstClass::Alu,
                            InstFormat::Ca,
                            InstIsa::C,
                            raw,
                        ),
                        (1, 1) => build_inst(
                            InstKind::CAddw,
                            InstClass::Alu,
                            InstFormat::Ca,
                            InstIsa::C,
                            raw,
                        ),
                        _ => Inst::invalid(),
                    }
                },
            }
        },
        (1, 5) => build_inst(InstKind::CJ, InstClass::Jump(false), InstFormat::Cj, InstIsa::C, raw),
        (1, 6) => build_inst(
            InstKind::CBeqz,
            InstClass::Jump(false),
            InstFormat::Cb,
            InstIsa::C,
            raw,
        ),
        (1, 7) => build_inst(
            InstKind::CBnez,
            InstClass::Jump(false),
            InstFormat::Cb,
            InstIsa::C,
            raw,
        ),
        (2, 0) => build_inst(InstKind::CSlli, InstClass::Alu, InstFormat::Ci, InstIsa::C, raw),
        (2, 2) => build_inst(InstKind::CLwsp, InstClass::Load, InstFormat::Ci, InstIsa::C, raw),
        (2, 3) => build_inst(InstKind::CLdsp, InstClass::Load, InstFormat::Ci, InstIsa::C, raw),
        (2, 4) => {
            if raw == 0x9002 {
                build_inst(InstKind::CEbreak, InstClass::System, InstFormat::Other, InstIsa::C, raw)
            } else {
                let hi: u32 = (raw / 0x1000) % 2;
                let rs2: u32 = (raw / 4) % 32;
                if hi == 0 && rs2 == 0 {
                    build_inst(InstKind::CJr, InstClass::Jump(false), InstFormat::Cr, InstIsa::C, raw)
                } else if hi == 0 {
                    build_inst(InstKind::CMv, InstClass::Alu, InstFormat::Cr, InstIsa::C, raw)
                } else if rs2 == 0 {
                    build_inst(
                        InstKind::CJalr,
                        InstClass::Jump(false),
                        InstFormat::Cr,
                        InstIsa::C,
                        raw,
                    )
                } else {
                    build_inst(InstKind::CAdd, InstClass::Alu, InstFormat::Cr, InstIsa::C, raw)
                }
            }
        },
        (2, 6) => build_inst(InstKind::CSwsp, InstClass::Store, InstFormat::Css, InstIsa::C, raw),
        (2, 7) => build_inst(InstKind::CSdsp, InstClass::Store, InstFormat::Css, InstIsa::C, raw),
        _ => Inst::invalid(),
    }
}

/// The class the decoder assigns to each mnemonic.
pub open spec fn kind_class(k: InstKind) -> InstClass {
    match k {
        InstKind::Lb | InstKind::Lh | InstKind::Lw | InstKind::Ld | InstKind::Lbu | InstKind::Lhu
            | InstKind::Lwu | InstKind::Lui | InstKind::CLw | InstKind::CLd | InstKind::CLi
            | InstKind::CLui | InstKind::CLwsp | InstKind::CLdsp => InstClass::Load,
        InstKind::Sb | InstKind::Sh | InstKind::Sw | InstKind::Sd | InstKind::CSw | InstKind::CSd
            | InstKind::CSwsp | InstKind::CSdsp => InstClass::Store,
        InstKind::AmoaddW | InstKind::AmoswapW | InstKind::LrW | InstKind::ScW | InstKind::AmoxorW
            | InstKind::AmoorW | InstKind::AmoandW | InstKind::AmominW | InstKind::AmomaxW
            | InstKind::AmominuW | InstKind::AmomaxuW | InstKind::AmoaddD | InstKind::AmoswapD
            | InstKind::AmoxorD | InstKind::AmoorD | InstKind::AmoandD | InstKind::AmominD
            | InstKind::AmomaxD | InstKind::AmominuD | InstKind::AmomaxuD => InstClass::Atomic,
        InstKind::Beq | InstKind::Bne | InstKind::Bge | InstKind::Blt | InstKind::Bltu
            | InstKind::Bgeu | InstKind::Jalr | InstKind::Jal | InstKind::CJ | InstKind::CBeqz
            | InstKind::CBnez | InstKind::CJr | InstKind::CJalr => InstClass::Jump(false),
        InstKind::Fence | InstKind::SfenceVma | InstKind::Ecall | InstKind::Sret | InstKind::Mret
            | InstKind::Wfi | InstKind::CEbreak => InstClass::System,
        InstKind::Csrrw | InstKind::Csrrs | InstKind::Csrrc | InstKind::Csrrwi | InstKind::Csrrsi
            | InstKind::Csrrci => InstClass::Csr,
        InstKind::Invalid => InstClass::Invalid,
        _ => InstClass::Alu,
    }
}

/// The format the decoder assigns to each mnemonic.
pub open spec fn kind_format(k: InstKind) -> InstFormat {
    match k {
        InstKind::Lb | InstKind::Lh | InstKind::Lw | InstKind::Ld | InstKind::Lbu | InstKind::Lhu
            | InstKind::Lwu | InstKind::Addi | InstKind::Slli | InstKind::Slti | InstKind::Sltiu
            | InstKind::Xori | InstKind::Srli | InstKind::Srai | InstKind::Ori | InstKind::Andi
            | InstKind::Addiw | InstKind::Slliw | InstKind::Srliw | InstKind::Sraiw
            | InstKind::Jalr | InstKind::Csrrw | InstKind::Csrrs | InstKind::Csrrc
            | InstKind::Csrrwi | InstKind::Csrrsi | InstKind::Csrrci => InstFormat::I,
        InstKind::Auipc | InstKind::Lui => InstFormat::U,
        InstKind::Sb | InstKind::Sh | InstKind::Sw | InstKind::Sd => InstFormat::S,
        InstKind::Beq | InstKind::Bne | InstKind::Bge | InstKind::Blt | InstKind::Bltu
            | InstKind::Bgeu => InstFormat::B,
        InstKind::Jal => InstFormat::J,
        InstKind::Fence | InstKind::Ecall | InstKind::Sret | InstKind::Mret | InstKind::Wfi
            | InstKind::CEbreak | InstKind::Invalid => InstFormat::Other,
        InstKind::CAddi4spn => InstFormat::Ciw,
        InstKind::CLw | InstKind::CLd => InstFormat::Cl,
        InstKind::CSw | InstKind::CSd => InstFormat::Cs,
        InstKind::CNop | InstKind::CAddi | InstKind::CAddiw | InstKind::CLi | InstKind::CAddi16sp
            | InstKind::CLui | InstKind::CSlli | InstKind::CLwsp | InstKind::CLdsp
            => InstFormat::Ci,
        InstKind::CSrli | InstKind::CSrai | InstKind::CAndi | InstKind::CBeqz | InstKind::CBnez
            => InstFormat::Cb,
        InstKind::CSub | InstKind::CXor | InstKind::COr | InstKind::CAnd | InstKind::CSubw
            | InstKind::CAddw => InstFormat::Ca,
        InstKind::CJ => InstFormat::Cj,
        InstKind::CJr | InstKind::CMv | InstKind::CJalr | InstKind::CAdd => InstFormat::Cr,
        InstKind::CSwsp | InstKind::CSdsp => InstFormat::Css,
        _ => InstFormat::R,
    }
}

/// The ISA subset the decoder assigns to each mnemonic.
pub open spec fn kind_isa(k: InstKind) -> InstIsa {
    match k {
        InstKind::Mul | InstKind::Mulh | InstKind::Mulhsu | InstKind::Mulhu | InstKind::Div
            | InstKind::Divu | InstKind::Rem | InstKind::Remu | InstKind::Mulw | InstKind::Divw
            | InstKind::Divuw | InstKind::Remw | InstKind::Remuw => InstIsa::M,
        InstKind::AmoaddW | InstKind::AmoswapW | InstKind::LrW | InstKind::ScW | InstKind::AmoxorW
            | InstKind::AmoorW | InstKind::AmoandW | InstKind::AmominW | InstKind::AmomaxW
            | InstKind::AmominuW | InstKind::AmomaxuW | InstKind::AmoaddD | InstKind::AmoswapD
            | InstKind::AmoxorD | InstKind::AmoorD | InstKind::AmoandD | InstKind::AmominD
            | InstKind::AmomaxD | InstKind::AmominuD | InstKind::AmomaxuD => InstIsa::A,
        InstKind::Fence | InstKind::SfenceVma => InstIsa::Zifencei,
        InstKind::Csrrw | InstKind::Csrrs | InstKind::Csrrc | InstKind::Csrrwi | InstKind::Csrrsi
            | InstKind::Csrrci => InstIsa::Zicsr,
        InstKind::CAddi4spn | InstKind::CLw | InstKind::CLd | InstKind::CSw | InstKind::CSd
            | InstKind::CNop | InstKind::CAddi | InstKind::CAddiw | InstKind::CLi
            | InstKind::CAddi16sp | InstKind::CLui | InstKind::CSrli | InstKind::CSrai
            | InstKind::CAndi | InstKind::CSub | InstKind::CXor | InstKind::COr | InstKind::CAnd
            | InstKind::CSubw | InstKind::CAddw | InstKind::CJ | InstKind::CBeqz | InstKind::CBnez
            | InstKind::CSlli | InstKind::CLwsp | InstKind::CLdsp | InstKind::CEbreak
            | InstKind::CJr | InstKind::CMv | InstKind::CJalr | InstKind::CAdd | InstKind::CSwsp
            | InstKind::CSdsp => InstIsa::C,
        InstKind::Invalid => InstIsa::Invalid,
        _ => InstIsa::I,
    }
}

/// The encoder: a canonical code word for each mnemonic (operand fields
/// zero or, where a zero field would change the decoding, the smallest
/// distinguishing value).
pub open spec fn canonical_encoding(k: InstKind) -> u32 {
    match k {
        InstKind::Lb => 0x0000_0003,
        InstKind::Lh => 0x0000_1003,
        InstKind::Lw => 0x0000_2003,
        InstKind::Ld => 0x0000_3003,
        InstKind::Lbu => 0x0000_4003,
        InstKind::Lhu => 0x0000_5003,
        InstKind::Lwu => 0x0000_6003,
        InstKind::Fence => 0x0000_000f,
        InstKind::Addi => 0x0000_0013,
        InstKind::Slli => 0x0000_1013,
        InstKind::Slti => 0x0000_2013,
        InstKind::Sltiu => 0x0000_3013,
        InstKind::Xori => 0x0000_4013,
        InstKind::Srli => 0x0000_5013,
        InstKind::Srai => 0x4000_5013,
        InstKind::Ori => 0x0000_6013,
        InstKind::Andi => 0x0000_7013,
        InstKind::Auipc => 0x0000_0017,
        InstKind::Addiw => 0x0000_001b,
        InstKind::Slliw => 0x0000_101b,
        InstKind::Srliw => 0x0000_501b,
        InstKind::Sraiw => 0x4000_501b,
        InstKind::Sb => 0x0000_0023,
        InstKind::Sh => 0x0000_1023,
        InstKind::Sw => 0x0000_2023,
        InstKind::Sd => 0x0000_3023,
        InstKind::AmoaddW => 0x0000_202f,
        InstKind::AmoswapW => 0x0800_202f,
        InstKind::LrW => 0x1000_202f,
        InstKind::ScW => 0x1800_202f,
        InstKind::AmoxorW => 0x2000_202f,
        InstKind::AmoorW => 0x4000_202f,
        InstKind::AmoandW => 0x6000_202f,
        InstKind::AmominW => 0x8000_202f,
        InstKind::AmomaxW => 0xa000_202f,
        InstKind::AmominuW => 0xc000_202f,
        InstKind::AmomaxuW => 0xe000_202f,
        InstKind::AmoaddD => 0x0000_302f,
        InstKind::AmoswapD => 0x0800_302f,
        InstKind::AmoxorD => 0x2000_302f,
        InstKind::AmoorD => 0x4000_302f,
        InstKind::AmoandD => 0x6000_302f,
        InstKind::AmominD => 0x8000_302f,
        InstKind::AmomaxD => 0xa000_302f,
        InstKind::AmominuD => 0xc000_302f,
        InstKind::AmomaxuD => 0xe000_302f,
        InstKind::Add => 0x0000_0033,
        InstKind::Mul => 0x0200_0033,
        InstKind::Sub => 0x4000_0033,
        InstKind::Sll => 0x0000_1033,
        InstKind::Mulh => 0x0200_1033,
        InstKind::Slt => 0x0000_2033,
        InstKind::Mulhsu => 0x0200_2033,
        InstKind::Sltu => 0x0000_3033,
        InstKind::Mulhu => 0x0200_3033,
        InstKind::Xor => 0x0000_4033,
        InstKind::Div => 0x0200_4033,
        InstKind::Or => 0x0000_6033,
        InstKind::Rem => 0x0200_6033,
        InstKind::Srl => 0x0000_5033,
        InstKind::Divu => 0x0200_5033,
        InstKind::Sra => 0x4000_5033,
        InstKind::And => 0x0000_7033,
        InstKind::Remu => 0x0200_7033,
        InstKind::Lui => 0x0000_0037,
        InstKind::Addw => 0x0000_003b,
        InstKind::Mulw => 0x0200_003b,
        InstKind::Subw => 0x4000_003b,
        InstKind::Sllw => 0x0000_103b,
        InstKind::Divw => 0x0200_403b,
        InstKind::Srlw => 0x0000_503b,
        InstKind::Divuw => 0x0200_503b,
        InstKind::Sraw => 0x4000_503b,
        InstKind::Remw => 0x0200_603b,
        InstKind::Remuw => 0x0200_703b,
        InstKind::Beq => 0x0000_0063,
        InstKind::Bne => 0x0000_1063,
        InstKind::Bge => 0x0000_5063,
        InstKind::Blt => 0x0000_4063,
        InstKind::Bltu => 0x0000_6063,
        InstKind::Bgeu => 0x0000_7063,
        InstKind::Jalr => 0x0000_0067,
        InstKind::Jal => 0x0000_006f,
        InstKind::SfenceVma => 0x1200_0073,
        InstKind::Ecall => 0x0000_0073,
        InstKind::Sret => 0x1020_0073,
        InstKind::Mret => 0x3020_0073,
        InstKind::Wfi => 0x1050_0073,
        InstKind::Csrrw => 0x0000_1073,
        InstKind::Csrrs => 0x0000_2073,
        InstKind::Csrrc => 0x0000_3073,
        InstKind::Csrrwi => 0x0000_5073,
        InstKind::Csrrsi => 0x0000_6073,
        InstKind::Csrrci => 0x0000_7073,
        InstKind::CAddi4spn => 0x0020,
        InstKind::CLw => 0x4000,
        InstKind::CLd => 0x6000,
        InstKind::CSw => 0xc000,
        InstKind::CSd => 0xe000,
        InstKind::CNop => 0x0001,
        InstKind::CAddi => 0x0081,
        InstKind::CAddiw => 0x2001,
        InstKind::CLi => 0x4001,
        InstKind::CAddi16sp => 0x6101,
        InstKind::CLui => 0x6281,
        InstKind::CSrli => 0x8001,
        InstKind::CSrai => 0x8401,
        InstKind::CAndi => 0x8801,
        InstKind::CSub => 0x8c01,
        InstKind::CXor => 0x8c21,
        InstKind::COr => 0x8c41,
        InstKind::CAnd => 0x8c61,
        InstKind::CSubw => 0x9c01,
        InstKind::CAddw => 0x9c21,
        InstKind::CJ => 0xa001,
        InstKind::CBeqz => 0xc001,
        InstKind::CBnez => 0xe001,
        InstKind::CSlli => 0x0002,
        InstKind::CLwsp => 0x4002,
        InstKind::CLdsp => 0x6002,
        InstKind::CEbreak => 0x9002,
        InstKind::CJr => 0x8082,
        InstKind::CMv => 0x8086,
        InstKind::CJalr => 0x9082,
        InstKind::CAdd => 0x9086,
        InstKind::CSwsp => 0xc002,
        InstKind::CSdsp => 0xe002,
        InstKind::Invalid => 0,
    }
}

/// Whether decoding the canonical encoding of `k` yields `k` back, with
/// the class, format and ISA subset of the decoding table.
pub open spec fn encode_round_trips(k: InstKind) -> bool {
    let d = spec_decode(canonical_encoding(k));
    &&& d.kind == k
    &&& d.class == kind_class(k)
    &&& d.format == kind_format(k)
    &&& d.isa == kind_isa(k)
}

/// Decoding the canonical encoding of any mnemonic yields that mnemonic
/// back, with the class, format and ISA subset of the decoding table.
#[verifier::rlimit(100)]
pub proof fn lemma_encode_decodes(k: InstKind)
    requires
        k != InstKind::Invalid,
    ensures
        encode_round_trips(k),
{
    lemma_all_encodings_decode();
}

/// Decoding the canonical encoding of each mnemonic in turn yields that
/// mnemonic back.
#[verifier::rlimit(100)]
pub proof fn lemma_all_encodings_decode()
    ensures
        forall|k: InstKind| k != InstKind::Invalid ==> #[trigger] encode_round_trips(k),
{
    lemma_encodings_decode_0();
    lemma_encodings_decode_1();
    lemma_encodings_decode_2();
    lemma_encodings_decode_3();
    lemma_encodings_decode_3b();
    lemma_encodings_decode_4();
    lemma_encodings_decode_5();
}

/// Decoding the canonical encoding of each of one block of mnemonics
/// yields that mnemonic back.
#[verifier::rlimit(100)]
proof fn lemma_encodings_decode_0()
    ensures
        encode_round_trips(InstKind::Lb),
        encode_round_trips(InstKind::Lh),
        encode_round_trips(InstKind::Lw),
        encode_round_trips(InstKind::Ld),
        encode_round_trips(InstKind::Lbu),
        encode_round_trips(InstKind::Lhu),
        encode_round_trips(InstKind::Lwu),
        encode_round_trips(InstKind::Fence),
        encode_round_trips(InstKind::Addi),
        encode_round_trips(InstKind::Slli),
        encode_round_trips(InstKind::Slti),
        encode_round_trips(InstKind::Sltiu),
        encode_round_trips(InstKind::Xori),
        encode_round_trips(InstKind::Srli),
        encode_round_trips(InstKind::Srai),
        encode_round_trips(InstKind::Ori),
        encode_round_trips(InstKind::Andi),
        encode_round_trips(InstKind::Auipc),
        encode_round_trips(InstKind::Addiw),
        encode_round_trips(InstKind::Slliw),
        encode_round_trips(InstKind::Srliw),
        encode_round_trips(InstKind::Sraiw),
{
    reveal(spec_decode);
    reveal(spec_c_decode);
    assert(encode_round_trips(InstKind::Lb));
    assert(encode_round_trips(InstKind::Lh));
    assert(encode_round_trips(InstKind::Lw));
    assert(encode_round_trips(InstKind::Ld));
    assert(encode_round_trips(InstKind::Lbu));
    assert(encode_round_trips(InstKind::Lhu));
    assert(encode_round_trips(InstKind::Lwu));
    assert(encode_round_trips(InstKind::Fence));
    assert(encode_round_trips(InstKind::Addi));
    assert(encode_round_trips(InstKind::Slli));
    assert(encode_round_trips(InstKind::Slti));
    assert(encode_round_trips(InstKind::Sltiu));
    assert(encode_round_trips(InstKind::Xori));
    assert(encode_round_trips(InstKind::Srli));
    assert(encode_round_trips(InstKind::Srai));
    assert(encode_round_trips(InstKind::Ori));
    assert(encode_round_trips(InstKind::Andi));
    assert(encode_round_trips(InstKind::Auipc));
    assert(encode_round_trips(InstKind::Addiw));
    assert(encode_round_trips(InstKind::Slliw));
    assert(encode_round_trips(InstKind::Srliw));
    assert(encode_round_trips(InstKind::Sraiw));
}

/// Decoding the canonical encoding of each of one block of mnemonics
/// yields that mnemonic back.
#[verifier::rlimit(100)]
proof fn lemma_encodings_decode_1()
    ensures
        encode_round_trips(InstKind::Sb),
        encode_round_trips(InstKind::Sh),
        encode_round_trips(InstKind::Sw),
        encode_round_trips(InstKind::Sd),
        encode_round_trips(InstKind::AmoaddW),
        encode_round_trips(InstKind::AmoswapW),
        encode_round_trips(InstKind::LrW),
        encode_round_trips(InstKind::ScW),
        encode_round_trips(InstKind::AmoxorW),
        encode_round_trips(InstKind::AmoorW),
        encode_round_trips(InstKind::AmoandW),
        encode_round_trips(InstKind::AmominW),
        encode_round_trips(InstKind::AmomaxW),
        encode_round_trips(InstKind::AmominuW),
        encode_round_trips(InstKind::AmomaxuW),
        encode_round_trips(InstKind::AmoaddD),
        encode_round_trips(InstKind::AmoswapD),
        encode_round_trips(InstKind::AmoxorD),
        encode_round_trips(InstKind::AmoorD),
        encode_round_trips(InstKind::AmoandD),
        encode_round_trips(InstKind::AmominD),
        encode_round_trips(InstKind::AmomaxD),
{
    reveal(spec_decode);
    reveal(spec_c_decode);
    assert(encode_round_trips(InstKind::Sb));
    assert(encode_round_trips(InstKind::Sh));
    assert(encode_round_trips(InstKind::Sw));
    assert(encode_round_trips(InstKind::Sd));
    assert(encode_round_trips(InstKind::AmoaddW));
    assert(encode_round_trips(InstKind::AmoswapW));
    assert(encode_round_trips(InstKind::LrW));
    assert(encode_round_trips(InstKind::ScW));
    assert(encode_round_trips(InstKind::AmoxorW));
    assert(encode_round_trips(InstKind::AmoorW));
    assert(encode_round_trips(InstKind::AmoandW));
    assert(encode_round_trips(InstKind::AmominW));
    assert(encode_round_trips(InstKind::AmomaxW));
    assert(encode_round_trips(InstKind::AmominuW));
    assert(encode_round_trips(InstKind::AmomaxuW));
    assert(encode_round_trips(InstKind::AmoaddD));
    assert(encode_round_trips(InstKind::AmoswapD));
    assert(encode_round_trips(InstKind::AmoxorD));
    assert(encode_round_trips(InstKind::AmoorD));
    assert(encode_round_trips(InstKind::AmoandD));
    assert(encode_round_trips(InstKind::AmominD));
    assert(encode_round_trips(InstKind::AmomaxD));
}

/// Decoding the canonical encoding of each of one block of mnemonics
/// yields that mnemonic back.
#[verifier::rlimit(100)]
proof fn lemma_encodings_decode_2()
    ensures
        encode_round_trips(InstKind::AmominuD),
        encode_round_trips(InstKind::AmomaxuD),
        encode_round_trips(InstKind::Add),
        encode_round_trips(InstKind::Mul),
        encode_round_trips(InstKind::Sub),
        encode_round_trips(InstKind::Sll),
        encode_round_trips(InstKind::Mulh),
        encode_round_trips(InstKind::Slt),
        encode_round_trips(InstKind::Mulhsu),
        encode_round_trips(InstKind::Sltu),
        encode_round_trips(InstKind::Mulhu),
        encode_round_trips(InstKind::Xor),
        encode_round_trips(InstKind::Div),
        encode_round_trips(InstKind::Or),
        encode_round_trips(InstKind::Rem),
        encode_round_trips(InstKind::Srl),
        encode_round_trips(InstKind::Divu),
        encode_round_trips(InstKind::Sra),
        encode_round_trips(InstKind::And),
        encode_round_trips(InstKind::Remu),
        encode_round_trips(InstKind::Lui),
        encode_round_trips(InstKind::Addw),
{
    reveal(spec_decode);
    reveal(spec_c_decode);
    assert(encode_round_trips(InstKind::AmominuD));
    assert(encode_round_trips(InstKind::AmomaxuD));
    assert(encode_round_trips(InstKind::Add));
    assert(encode_round_trips(InstKind::Mul));
    assert(encode_round_trips(InstKind::Sub));
    assert(encode_round_trips(InstKind::Sll));
    assert(encode_round_trips(InstKind::Mulh));
    assert(encode_round_trips(InstKind::Slt));
    assert(encode_round_trips(InstKind::Mulhsu));
    assert(encode_round_trips(InstKind::Sltu));
    assert(encode_round_trips(InstKind::Mulhu));
    assert(encode_round_trips(InstKind::Xor));
    assert(encode_round_trips(InstKind::Div));
    assert(encode_round_trips(InstKind::Or));
    assert(encode_round_trips(InstKind::Rem));
    assert(encode_round_trips(InstKind::Srl));
    assert(encode_round_trips(InstKind::Divu));
    assert(encode_round_trips(InstKind::Sra));
    assert(encode_round_trips(InstKind::And));
    assert(encode_round_trips(InstKind::Remu));
    assert(encode_round_trips(InstKind::Lui));
    assert(encode_round_trips(InstKind::Addw));
}

/// Decoding the canonical encoding of each of one block of mnemonics
/// yields that mnemonic back.
#[verifier::rlimit(100)]
proof fn lemma_encodings_decode_3()
    ensures
        encode_round_trips(InstKind::Mulw),
        encode_round_trips(InstKind::Subw),
        encode_round_trips(InstKind::Sllw),
        encode_round_trips(InstKind::Divw),
        encode_round_trips(InstKind::Srlw),
        encode_round_trips(InstKind::Divuw),
        encode_round_trips(InstKind::Sraw),
        encode_round_trips(InstKind::Remw),
        encode_round_trips(InstKind::Remuw),
        encode_round_trips(InstKind::Beq),
        encode_round_trips(InstKind::Bne),
{
    reveal(spec_decode);
    reveal(spec_c_decode);
    assert(encode_round_trips(InstKind::Mulw));
    assert(encode_round_trips(InstKind::Subw));
    assert(encode_round_trips(InstKind::Sllw));
    assert(encode_round_trips(InstKind::Divw));
    assert(encode_round_trips(InstKind::Srlw));
    assert(encode_round_trips(InstKind::Divuw));
    assert(encode_round_trips(InstKind::Sraw));
    assert(encode_round_trips(InstKind::Remw));
    assert(encode_round_trips(InstKind::Remuw));
    assert(encode_round_trips(InstKind::Beq));
    assert(encode_round_trips(InstKind::Bne));
}

/// Decoding the canonical encoding of each of one block of mnemonics
/// yields that mnemonic back.
#[verifier::rlimit(100)]
proof fn lemma_encodings_decode_3b()
    ensures
        encode_round_trips(InstKind::Bge),
        encode_round_trips(InstKind::Blt),
        encode_round_trips(InstKind::Bltu),
        encode_round_trips(InstKind::Bgeu),
        encode_round_trips(InstKind::Jalr),
        encode_round_trips(InstKind::Jal),
        encode_round_trips(InstKind::SfenceVma),
        encode_round_trips(InstKind::Ecall),
        encode_round_trips(InstKind::Sret),
        encode_round_trips(InstKind::Mret),
        encode_round_trips(InstKind::Wfi),
{
    reveal(spec_decode);
    reveal(spec_c_decode);
    assert(encode_round_trips(InstKind::Bge));
    assert(encode_round_trips(InstKind::Blt));
    assert(encode_round_trips(InstKind::Bltu));
    assert(encode_round_trips(InstKind::Bgeu));
    assert(encode_round_trips(InstKind::Jalr));
    assert(encode_round_trips(InstKind::Jal));
    assert(encode_round_trips(InstKind::SfenceVma));
    assert(encode_round_trips(InstKind::Ecall));
    assert(encode_round_trips(InstKind::Sret));
    assert(encode_round_trips(InstKind::Mret));
    assert(encode_round_trips(InstKind::Wfi));
}

/// Decoding the canonical encoding of each of one block of mnemonics
/// yields that mnemonic back.
#[verifier::rlimit(100)]
proof fn lemma_encodings_decode_4()
    ensures
        encode_round_trips(InstKind::Csrrw),
        encode_round_trips(InstKind::Csrrs),
        encode_round_trips(InstKind::Csrrc),
        encode_round_trips(InstKind::Csrrwi),
        encode_round_trips(InstKind::Csrrsi),
        encode_round_trips(InstKind::Csrrci),
        encode_round_trips(InstKind::CAddi4spn),
        encode_round_trips(InstKind::CLw),
        encode_round_trips(InstKind::CLd),
        encode_round_trips(InstKind::CSw),
        encode_round_trips(InstKind::CSd),
        encode_round_trips(InstKind::CNop),
        encode_round_trips(InstKind::CAddi),
        encode_round_trips(InstKind::CAddiw),
        encode_round_trips(InstKind::CLi),
        encode_round_trips(InstKind::CAddi16sp),
        encode_round_trips(InstKind::CLui),
        encode_round_trips(InstKind::CSrli),
        encode_round_trips(InstKind::CSrai),
        encode_round_trips(InstKind::CAndi),
        encode_round_trips(InstKind::CSub),
        encode_round_trips(InstKind::CXor),
{
    reveal(spec_decode);
    reveal(spec_c_decode);
    assert(encode_round_trips(InstKind::Csrrw));
    assert(encode_round_trips(InstKind::Csrrs));
    assert(encode_round_trips(InstKind::Csrrc));
    assert(encode_round_trips(InstKind::Csrrwi));
    assert(encode_round_trips(InstKind::Csrrsi));
    assert(encode_round_trips(InstKind::Csrrci));
    assert(encode_round_trips(InstKind::CAddi4spn));
    assert(encode_round_trips(InstKind::CLw));
    assert(encode_round_trips(InstKind::CLd));
    assert(encode_round_trips(InstKind::CSw));
    assert(encode_round_trips(InstKind::CSd));
    assert(encode_round_trips(InstKind::CNop));
    assert(encode_round_trips(InstKind::CAddi));
    assert(encode_round_trips(InstKind::CAddiw));
    assert(encode_round_trips(InstKind::CLi));
    assert(encode_round_trips(InstKind::CAddi16sp));
    assert(encode_round_trips(InstKind::CLui));
    assert(encode_round_trips(InstKind::CSrli));
    assert(encode_round_trips(InstKind::CSrai));
    assert(encode_round_trips(InstKind::CAndi));
    assert(encode_round_trips(InstKind::CSub));
    assert(encode_round_trips(InstKind::CXor));
}

/// Decoding the canonical encoding of each of one block of mnemonics
/// yields that mnemonic back.
#[verifier::rlimit(100)]
proof fn lemma_encodings_decode_5()
    ensures
        encode_round_trips(InstKind::COr),
        encode_round_trips(InstKind::CAnd),
        encode_round_trips(InstKind::CSubw),
        encode_round_trips(InstKind::CAddw),
        encode_round_trips(InstKind::CJ),
        encode_round_trips(InstKind::CBeqz),
        encode_round_trips(InstKind::CBnez),
        encode_round_trips(InstKind::CSlli),
        encode_round_trips(InstKind::CLwsp),
        encode_round_trips(InstKind::CLdsp),
        encode_round_trips(InstKind::CEbreak),
        encode_round_trips(InstKind::CJr),
        encode_round_trips(InstKind::CMv),
        encode_round_trips(InstKind::CJalr),
        encode_round_trips(InstKind::CAdd),
        encode_round_trips(InstKind::CSwsp),
        encode_round_trips(InstKind::CSdsp),
{
    reveal(spec_decode);
    reveal(spec_c_decode);
    assert(encode_round_trips(InstKind::COr));
    assert(encode_round_trips(InstKind::CAnd));
    assert(encode_round_trips(InstKind::CSubw));
    assert(encode_round_trips(InstKind::CAddw));
    assert(encode_round_trips(InstKind::CJ));
    assert(encode_round_trips(InstKind::CBeqz));
    assert(encode_round_trips(InstKind::CBnez));
    assert(encode_round_trips(InstKind::CSlli));
    assert(encode_round_trips(InstKind::CLwsp));
    assert(encode_round_trips(InstKind::CLdsp));
    assert(encode_round_trips(InstKind::CEbreak));
    assert(encode_round_trips(InstKind::CJr));
    assert(encode_round_trips(InstKind::CMv));
    assert(encode_round_trips(InstKind::CJalr));
    assert(encode_round_trips(InstKind::CAdd));
    assert(encode_round_trips(InstKind::CSwsp));
    assert(encode_round_trips(InstKind::CSdsp));
}

/// Every descriptor the decoder produces carries the class, format and ISA
/// subset that its mnemonic has in the decoding table.
#[verifier::rlimit(100)]
pub proof fn lemma_decode_fields(raw_inst: u32)
    ensures
        spec_decode(raw_inst).class == kind_class(spec_decode(raw_inst).kind),
        spec_decode(raw_inst).format == kind_format(spec_decode(raw_inst).kind),
        spec_decode(raw_inst).isa == kind_isa(spec_decode(raw_inst).kind),
{
    reveal(spec_decode);
    reveal(spec_c_decode);
}

/// Law: for every in-scope instruction, re-encoding the mnemonic the
/// decoder found and decoding it again yields the same descriptor, up to
/// the raw code-word bits: the mnemonic, class, format and ISA subset all
/// survive the round trip.
pub proof fn lemma_decoder_encoder_round_trip(raw_inst: u32)
    ensures
        spec_decode(raw_inst).class != InstClass::Invalid ==> {
            let d = spec_decode(raw_inst);
            let d2 = spec_decode(canonical_encoding(d.kind));
            d2.kind == d.kind && d2.class == d.class && d2.format == d.format && d2.isa == d.isa
        },
{
    lemma_decode_fields(raw_inst);
    let d = spec_decode(raw_inst);
    if d.class != InstClass::Invalid {
        assert(d.kind != InstKind::Invalid);
        lemma_encode_decodes(d.kind);
    }
}

/// Decodes a 32-bit code word whose opcode field satisfies `raw % 128 < 0x30`.
#[verifier::rlimit(100)]
fn decode32_low(raw: u32) -> (r: Inst)
    requires
        raw != 0,
        raw % 4 == 3,
        raw % 128 < 0x30,
    ensures
        r == spec_decode(raw),
{
    proof {
        reveal(spec_decode);
    }
    let op: u32 = raw % 128;
    let f3: u32 = (raw / 0x1000) % 8;
    match op {
        0x03 => match f3 {
            0 => build_inst(InstKind::Lb, InstClass::Load, InstFormat::I, InstIsa::I, raw),
            1 => build_inst(InstKind::Lh, InstClass::Load, InstFormat::I, InstIsa::I, raw),
            2 => build_inst(InstKind::Lw, InstClass::Load, InstFormat::I, InstIsa::I, raw),
            3 => build_inst(InstKind::Ld, InstClass::Load, InstFormat::I, InstIsa::I, raw),
            4 => build_inst(InstKind::Lbu, InstClass::Load, InstFormat::I, InstIsa::I, raw),
            5 => build_inst(InstKind::Lhu, InstClass::Load, InstFormat::I, InstIsa::I, raw),
            6 => build_inst(InstKind::Lwu, InstClass::Load, InstFormat::I, InstIsa::I, raw),
            _ => Inst::invalid(),
        },
        0x0f => build_inst(
            InstKind::Fence,
            InstClass::System,
            InstFormat::Other,
            InstIsa::Zifencei,
            raw,
        ),
        0x13 => match (f3, raw / 0x400_0000) {
            (0, _) => build_inst(InstKind::Addi, InstClass::Alu, InstFormat::I, InstIsa::I, raw),
            (1, 0) => build_inst(InstKind::Slli, InstClass::Alu, InstFormat::I, InstIsa::I, raw),
            (2, _) => build_inst(InstKind::Slti, InstClass::Alu, InstFormat::I, InstIsa::I, raw),
            (3, _) => build_inst(InstKind::Sltiu, InstClass::Alu, InstFormat::I, InstIsa::I, raw),
            (4, _) => build_inst(InstKind::Xori, InstClass::Alu, InstFormat::I, InstIsa::I, raw),
            (5, 0) => build_inst(InstKind::Srli, InstClass::Alu, InstFormat::I, InstIsa::I, raw),
            (5, 0x10) => build_inst(InstKind::Srai, InstClass::Alu, InstFormat::I, InstIsa::I, raw),
            (6, _) => build_inst(InstKind::Ori, InstClass::Alu, InstFormat::I, InstIsa::I, raw),
            (7, _) => build_inst(InstKind::Andi, InstClass::Alu, InstFormat::I, InstIsa::I, raw),
            _ => Inst::invalid(),
        },
        0x17 => build_inst(InstKind::Auipc, InstClass::Alu, InstFormat::U, InstIsa::I, raw),
        0x1b => match (f3, raw / 0x400_0000) {
            (0, _) => build_inst(InstKind::Addiw, InstClass::Alu, InstFormat::I, InstIsa::I, raw),
            (1, 0) => build_inst(InstKind::Slliw, InstClass::Alu, InstFormat::I, InstIsa::I, raw),
            (5, 0) => build_inst(InstKind::Srliw, InstClass::Alu, InstFormat::I, InstIsa::I, raw),
            (5, 0x10) => build_inst(InstKind::Sraiw, InstClass::Alu, InstFormat::I, InstIsa::I, raw),
            _ => Inst::invalid(),
        },
        0x23 => match f3 {
            0 => build_inst(InstKind::Sb, InstClass::Store, InstFormat::S, InstIsa::I, raw),
            1 => build_inst(InstKind::Sh, InstClass::Store, InstFormat::S, InstIsa::I, raw),
            2 => build_inst(InstKind::Sw, InstClass::Store, InstFormat::S, InstIsa::I, raw),
            3 => build_inst(InstKind::Sd, InstClass::Store, InstFormat::S, InstIsa::I, raw),
            _ => Inst::invalid(),
        },
        0x2f => match (f3, raw / 0x800_0000) {
            (2, 0) => build_inst(InstKind::AmoaddW, InstClass::Atomic, InstFormat::R, InstIsa::A, raw),
            (2, 1) => build_inst(
                InstKind::AmoswapW,
                InstClass::Atomic,
                InstFormat::R,
                InstIsa::A,
                raw,
            ),
            (2, 2) => build_inst(InstKind::LrW, InstClass::Atomic, InstFormat::R, InstIsa::A, raw),
            (2, 3) => build_inst(InstKind::ScW, InstClass::Atomic, InstFormat::R, InstIsa::A, raw),
            (2, 4) => build_inst(
                InstKind::AmoxorW,
                InstClass::Atomic,
                InstFormat::R,
                InstIsa::A,
                raw,
            ),
            (2, 8) => build_inst(InstKind::AmoorW, InstClass::Atomic, InstFormat::R, InstIsa::A, raw),
            (2, 0xc) => build_inst(
                InstKind::AmoandW,
                InstClass::Atomic,
                InstFormat::R,
                InstIsa::A,
                raw,
            ),
            (2, 0x10) => build_inst(
                InstKind::AmominW,
                InstClass::Atomic,
                InstFormat::R,
                InstIsa::A,
                raw,
            ),
            (2, 0x14) => build_inst(
                InstKind::AmomaxW,
                InstClass::Atomic,
                InstFormat::R,
                InstIsa::A,
                raw,
            ),
            (2, 0x18) => build_inst(
                InstKind::AmominuW,
                InstClass::Atomic,
                InstFormat::R,
                InstIsa::A,
                raw,
            ),
            (2, 0x1c) => build_inst(
                InstKind::AmomaxuW,
                InstClass::Atomic,
                InstFormat::R,
                InstIsa::A,
                raw,
            ),
            (3, 0) => build_inst(InstKind::AmoaddD, InstClass::Atomic, InstFormat::R, InstIsa::A, raw),
            (3, 1) => build_inst(
                InstKind::AmoswapD,
                InstClass::Atomic,
                InstFormat::R,
                InstIsa::A,
                raw,
            ),
            (3, 4) => build_inst(
                InstKind::AmoxorD,
                InstClass::Atomic,
                InstFormat::R,
                InstIsa::A,
                raw,
            ),
            (3, 8) => build_inst(InstKind::AmoorD, InstClass::Atomic, InstFormat::R, InstIsa::A, raw),
            (3, 0xc) => build_inst(
                InstKind::AmoandD,
                InstClass::Atomic,
                InstFormat::R,
                InstIsa::A,
                raw,
            ),
            (3, 0x10) => build_inst(
                InstKind::AmominD,
                InstClass::Atomic,
                InstFormat::R,
                InstIsa::A,
                raw,
            ),
            (3, 0x14) => build_inst(
                InstKind::AmomaxD,
                InstClass::Atomic,
                InstFormat::R,
                InstIsa::A,
                raw,
            ),
            (3, 0x18) => build_inst(
                InstKind::AmominuD,
                InstClass::Atomic,
                InstFormat::R,
                InstIsa::A,
                raw,
            ),
            (3, 0x1c) => build_inst(
                InstKind::AmomaxuD,
                InstClass::Atomic,
                InstFormat::R,
                InstIsa::A,
                raw,
            ),
            _ => Inst::invalid(),
        },
        _ => Inst::invalid(),
    }
}

/// Decodes a 32-bit code word whose opcode field satisfies `0x30 <= raw % 128 < 0x40`.
#[verifier::rlimit(100)]
fn decode32_mid(raw: u32) -> (r: Inst)
    requires
        raw != 0,
        raw % 4 == 3,
        0x30 <= raw % 128 < 0x40,
    ensures
        r == spec_decode(raw),
{
    proof {
        reveal(spec_decode);
    }
    let op: u32 = raw % 128;
    let f3: u32 = (raw / 0x1000) % 8;
    match op {
        0x33 => match (f3, raw / 0x200_0000) {
            (0, 0) => build_inst(InstKind::Add, InstClass::Alu, InstFormat::R, InstIsa::I, raw),
            (0, 1) => build_inst(InstKind::Mul, InstClass::Alu, InstFormat::R, InstIsa::M, raw),
            (0, 0x20) => build_inst(InstKind::Sub, InstClass::Alu, InstFormat::R, InstIsa::I, raw),
            (1, 0) => build_inst(InstKind::Sll, InstClass::Alu, InstFormat::R, InstIsa::I, raw),
            (1, 1) => build_inst(InstKind::Mulh, InstClass::Alu, InstFormat::R, InstIsa::M, raw),
            (2, 0) => build_inst(InstKind::Slt, InstClass::Alu, InstFormat::R, InstIsa::I, raw),
            (2, 1) => build_inst(InstKind::Mulhsu, InstClass::Alu, InstFormat::R, InstIsa::M, raw),
            (3, 0) => build_inst(InstKind::Sltu, InstClass::Alu, InstFormat::R, InstIsa::I, raw),
            (3, 1) => build_inst(InstKind::Mulhu, InstClass::Alu, InstFormat::R, InstIsa::M, raw),
            (4, 0) => build_inst(InstKind::Xor, InstClass::Alu, InstFormat::R, InstIsa::I, raw),
            (4, 1) => build_inst(InstKind::Div, InstClass::Alu, InstFormat::R, InstIsa::M, raw),
            (6, 0) => build_inst(InstKind::Or, InstClass::Alu, InstFormat::R, InstIsa::I, raw),
            (6, 1) => build_inst(InstKind::Rem, InstClass::Alu, InstFormat::R, InstIsa::M, raw),
            (5, 0) => build_inst(InstKind::Srl, InstClass::Alu, InstFormat::R, InstIsa::I, raw),
            (5, 1) => build_inst(InstKind::Divu, InstClass::Alu, InstFormat::R, InstIsa::M, raw),
            (5, 0x20) => build_inst(InstKind::Sra, InstClass::Alu, InstFormat::R, InstIsa::I, raw),
            (7, 0) => build_inst(InstKind::And, InstClass::Alu, InstFormat::R, InstIsa::I, raw),
            (7, 1) => build_inst(InstKind::Remu, InstClass::Alu, InstFormat::R, InstIsa::M, raw),
            _ => Inst::invalid(),
        },
        0x37 => build_inst(InstKind::Lui, InstClass::Load, InstFormat::U, InstIsa::I, raw),
        0x3b => match (f3, raw / 0x200_0000) {
            (0, 0) => build_inst(InstKind::Addw, InstClass::Alu, InstFormat::R, InstIsa::I, raw),
            (0, 1) => build_inst(InstKind::Mulw, InstClass::Alu, InstFormat::R, InstIsa::M, raw),
            (0, 0x20) => build_inst(InstKind::Subw, InstClass::Alu, InstFormat::R, InstIsa::I, raw),
            (1, 0) => build_inst(InstKind::Sllw, InstClass::Alu, InstFormat::R, InstIsa::I, raw),
            (4, 1) => build_inst(InstKind::Divw, InstClass::Alu, InstFormat::R, InstIsa::M, raw),
            (5, 0) => build_inst(InstKind::Srlw, InstClass::Alu, InstFormat::R, InstIsa::I, raw),
            (5, 1) => build_inst(InstKind::Divuw, InstClass::Alu, InstFormat::R, InstIsa::M, raw),
            (5, 0x20) => build_inst(InstKind::Sraw, InstClass::Alu, InstFormat::R, InstIsa::I, raw),
            (6, 1) => build_inst(InstKind::Remw, InstClass::Alu, InstFormat::R, InstIsa::M, raw),
            (7, 1) => build_inst(InstKind::Remuw, InstClass::Alu, InstFormat::R, InstIsa::M, raw),
            _ => Inst::invalid(),
        },
        _ => Inst::invalid(),
    }
}

/// Decodes a 32-bit code word whose opcode field satisfies `raw % 128 >= 0x40`.
#[verifier::rlimit(100)]
fn decode32_high(raw: u32) -> (r: Inst)
    requires
        raw != 0,
        raw % 4 == 3,
        raw % 128 >= 0x40,
    ensures
        r == spec_decode(raw),
{
    proof {
        reveal(spec_decode);
    }
    let op: u32 = raw % 128;
    let f3: u32 = (raw / 0x1000) % 8;
    match op {
        0x63 => match f3 {
            0 => build_inst(InstKind::Beq, InstClass::Jump(false), InstFormat::B, InstIsa::I, raw),
            1 => build_inst(InstKind::Bne, InstClass::Jump(false), InstFormat::B, InstIsa::I, raw),
            5 => build_inst(InstKind::Bge, InstClass::Jump(false), InstFormat::B, InstIsa::I, raw),
            4 => build_inst(InstKind::Blt, InstClass::Jump(false), InstFormat::B, InstIsa::I, raw),
            6 => build_inst(InstKind::Bltu, InstClass::Jump(false), InstFormat::B, InstIsa::I, raw),
            7 => build_inst(InstKind::Bgeu, InstClass::Jump(false), InstFormat::B, InstIsa::I, raw),
            _ => Inst::invalid(),
        },
        0x67 => build_inst(InstKind::Jalr, InstClass::Jump(false), InstFormat::I, InstIsa::I, raw),
        0x6f => build_inst(InstKind::Jal, InstClass::Jump(false), InstFormat::J, InstIsa::I, raw),
        0x73 => match f3 {
            0 => {
                if raw / 0x200_0000 == 0x09 {
                    build_inst(
                        InstKind::SfenceVma,
                        InstClass::System,
                        InstFormat::R,
                        InstIsa::Zifencei,
                        raw,
                    )
                } else {
                    match raw {
                        0x0000_0073 => build_inst(
                            InstKind::Ecall,
                            InstClass::System,
                            InstFormat::Other,
                            InstIsa::I,
                            raw,
                        ),
                        0x1020_0073 => build_inst(
                            InstKind::Sret,
                            InstClass::System,
                            InstFormat::Other,
                            InstIsa::I,
                            raw,
                        ),
                        0x3020_0073 => build_inst(
                            InstKind::Mret,
                            InstClass::System,
                            InstFormat::Other,
                            InstIsa::I,
                            raw,
                        ),
                        0x1050_0073 => build_inst(
                            InstKind::Wfi,
                            InstClass::System,
                            InstFormat::Other,
                            InstIsa::I,
                            raw,
                        ),
                        _ => Inst::invalid(),
                    }
                }
            },
            1 => build_inst(InstKind::Csrrw, InstClass::Csr, InstFormat::I, InstIsa::Zicsr, raw),
            2 => build_inst(InstKind::Csrrs, InstClass::Csr, InstFormat::I, InstIsa::Zicsr, raw),
            3 => build_inst(InstKind::Csrrc, InstClass::Csr, InstFormat::I, InstIsa::Zicsr, raw),
            5 => build_inst(InstKind::Csrrwi, InstClass::Csr, InstFormat::I, InstIsa::Zicsr, raw),
            6 => build_inst(InstKind::Csrrsi, InstClass::Csr, InstFormat::I, InstIsa::Zicsr, raw),
            7 => build_inst(InstKind::Csrrci, InstClass::Csr, InstFormat::I, InstIsa::Zicsr, raw),
            _ => Inst::invalid(),
        },
        _ => Inst::invalid(),
    }
}

/// Decodes a code word into an instruction descriptor. A word whose low two
/// bits are not `11` is decoded as a compressed instruction; reserved or
/// unrecognized encodings yield the invalid descriptor.
pub fn decode(raw_inst: u32) -> (r: Inst)
    ensures
        r == spec_decode(raw_inst),
{
    proof {
        reveal(spec_decode);
    }
    if raw_inst == 0 {
        return Inst::invalid();
    }
    if raw_inst % 4 < 3 {
        return c_decode(raw_inst);
    }
    let op: u32 = raw_inst % 128;
    if op < 0x30 {
        decode32_low(raw_inst)
    } else if op < 0x40 {
        decode32_mid(raw_inst)
    } else {
        decode32_high(raw_inst)
    }
}

} // verus!
