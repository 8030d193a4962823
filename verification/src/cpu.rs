//! The instruction descriptor the decoder produces and the executor
//! consumes: the decoded mnemonic, its class, its format, the ISA subset it
//! belongs to, and the raw code word.

use vstd::prelude::*;

verus! {

/// How the executor treats an instruction. `Jump(true)` marks an
/// instruction that has already written the program counter, so the run
/// loop must not advance it again.
#[derive(Debug, Clone, Copy, PartialEq, Eq, Structural)]
pub enum InstClass {
    Jump(bool),
    Atomic,
    Alu,
    Csr,
    Load,
    Store,
    System,
    Invalid,
}

/// The operand layout of an instruction: the six 32-bit formats of the base
/// ISA, the compressed formats, or `Other` for instructions without
/// operand fields.
#[derive(Debug, Clone, Copy, PartialEq, Eq, Structural)]
pub enum InstFormat {
    B,
    I,
    J,
    R,
    S,
    U,
    Ca,
    Cb,
    Cj,
    Ci,
    Ciw,
    Cl,
    Cr,
    Cs,
    Css,
    Other,
}

/// The ISA subset an instruction belongs to.
#[derive(Debug, Clone, Copy, PartialEq, Eq, Structural)]
pub enum InstIsa {
    A,
    I,
    M,
    C,
    Zifencei,
    Zicsr,
    Invalid,
}

/// The decoded mnemonic of an instruction.
#[derive(Debug, Clone, Copy, PartialEq, Eq, Structural)]
pub enum InstKind {
    Lb,
    Lh,
    Lw,
    Ld,
    Lbu,
    Lhu,
    Lwu,
    Fence,
    Addi,
    Slli,
    Slti,
    Sltiu,
    Xori,
    Srli,
    Srai,
    Ori,
    Andi,
    Auipc,
    Addiw,
    Slliw,
    Srliw,
    Sraiw,
    Sb,
    Sh,
    Sw,
    Sd,
    AmoaddW,
    AmoswapW,
    LrW,
    ScW,
    AmoxorW,
    AmoorW,
    AmoandW,
    AmominW,
    AmomaxW,
    AmominuW,
    AmomaxuW,
    AmoaddD,
    AmoswapD,
    AmoxorD,
    AmoorD,
    AmoandD,
    AmominD,
    AmomaxD,
    AmominuD,
    AmomaxuD,
    Add,
    Mul,
    Sub,
    Sll,
    Mulh,
    Slt,
    Mulhsu,
    Sltu,
    Mulhu,
    Xor,
    Div,
    Or,
    Rem,
    Srl,
    Divu,
    Sra,
    And,
    Remu,
    Lui,
    Addw,
    Mulw,
    Subw,
    Sllw,
    Divw,
    Srlw,
    Divuw,
    Sraw,
    Remw,
    Remuw,
    Beq,
    Bne,
    Bge,
    Blt,
    Bltu,
    Bgeu,
    Jalr,
    Jal,
    SfenceVma,
    Ecall,
    Sret,
    Mret,
    Wfi,
    Csrrw,
    Csrrs,
    Csrrc,
    Csrrwi,
    Csrrsi,
    Csrrci,
    CAddi4spn,
    CLw,
    CLd,
    CSw,
    CSd,
    CNop,
    CAddi,
    CAddiw,
    CLi,
    CAddi16sp,
    CLui,
    CSrli,
    CSrai,
    CAndi,
    CSub,
    CXor,
    COr,
    CAnd,
    CSubw,
    CAddw,
    CJ,
    CBeqz,
    CBnez,
    CSlli,
    CLwsp,
    CLdsp,
    CEbreak,
    CJr,
    CMv,
    CJalr,
    CAdd,
    CSwsp,
    CSdsp,
    Invalid,
}

/// A decoded instruction descriptor. Produced by the decoder each cycle,
/// consumed by the executor, and discarded at the end of the cycle.
#[derive(Debug, Clone, Copy, PartialEq, Eq, Structural)]
pub struct Inst {
    pub kind: InstKind,
    pub class: InstClass,
    pub format: InstFormat,
    pub isa: InstIsa,
    pub raw: u32,
}

impl Inst {
    /// The descriptor of an unrecognizable code word.
    pub fn invalid() -> (r: Self)
        ensures
            r == Inst::spec_invalid(),
    {
        Inst {
            kind: InstKind::Invalid,
            class: InstClass::Invalid,
            format: InstFormat::Other,
            isa: InstIsa::Invalid,
            raw: 0,
        }
    }

    /// The descriptor of an unrecognizable code word.
    pub open spec fn spec_invalid() -> Self {
        Inst {
            kind: InstKind::Invalid,
            class: InstClass::Invalid,
            format: InstFormat::Other,
            isa: InstIsa::Invalid,
            raw: 0,
        }
    }

    /// Whether the descriptor names a recognized instruction.
    pub fn is_valid(&self) -> (r: bool)
        ensures
            r == (self.class != InstClass::Invalid),
    {
        self.class != InstClass::Invalid
    }

    /// The mnemonic of the instruction, as the assembler writes it (with
    /// `_` for `.`).
    pub fn name(&self) -> &'static str {
        match self.kind {
            InstKind::Lb => "lb",
            InstKind::Lh => "lh",
            InstKind::Lw => "lw",
            InstKind::Ld => "ld",
            InstKind::Lbu => "lbu",
            InstKind::Lhu => "lhu",
            InstKind::Lwu => "lwu",
            InstKind::Fence => "fence",
            InstKind::Addi => "addi",
            InstKind::Slli => "slli",
            InstKind::Slti => "slti",
            InstKind::Sltiu => "sltiu",
            InstKind::Xori => "xori",
            InstKind::Srli => "srli",
            InstKind::Srai => "srai",
            InstKind::Ori => "ori",
            InstKind::Andi => "andi",
            InstKind::Auipc => "auipc",
            InstKind::Addiw => "addiw",
            InstKind::Slliw => "slliw",
            InstKind::Srliw => "srliw",
            InstKind::Sraiw => "sraiw",
            InstKind::Sb => "sb",
            InstKind::Sh => "sh",
            InstKind::Sw => "sw",
            InstKind::Sd => "sd",
            InstKind::AmoaddW => "amoadd_w",
            InstKind::AmoswapW => "amoswap_w",
            InstKind::LrW => "lr_w",
            InstKind::ScW => "sc_w",
            InstKind::AmoxorW => "amoxor_w",
            InstKind::AmoorW => "amoor_w",
            InstKind::AmoandW => "amoand_w",
            InstKind::AmominW => "amomin_w",
            InstKind::AmomaxW => "amomax_w",
            InstKind::AmominuW => "amominu_w",
            InstKind::AmomaxuW => "amomaxu_w",
            InstKind::AmoaddD => "amoadd_d",
            InstKind::AmoswapD => "amoswap_d",
            InstKind::AmoxorD => "amoxor_d",
            InstKind::AmoorD => "amoor_d",
            InstKind::AmoandD => "amoand_d",
            InstKind::AmominD => "amomin_d",
            InstKind::AmomaxD => "amomax_d",
            InstKind::AmominuD => "amominu_d",
            InstKind::AmomaxuD => "amomaxu_d",
            InstKind::Add => "add",
            InstKind::Mul => "mul",
            InstKind::Sub => "sub",
            InstKind::Sll => "sll",
            InstKind::Mulh => "mulh",
            InstKind::Slt => "slt",
            InstKind::Mulhsu => "mulhsu",
            InstKind::Sltu => "sltu",
            InstKind::Mulhu => "mulhu",
            InstKind::Xor => "xor",
            InstKind::Div => "div",
            InstKind::Or => "or",
            InstKind::Rem => "rem",
            InstKind::Srl => "srl",
            InstKind::Divu => "divu",
            InstKind::Sra => "sra",
            InstKind::And => "and",
            InstKind::Remu => "remu",
            InstKind::Lui => "lui",
            InstKind::Addw => "addw",
            InstKind::Mulw => "mulw",
            InstKind::Subw => "subw",
            InstKind::Sllw => "sllw",
            InstKind::Divw => "divw",
            InstKind::Srlw => "srlw",
            InstKind::Divuw => "divuw",
            InstKind::Sraw => "sraw",
            InstKind::Remw => "remw",
            InstKind::Remuw => "remuw",
            InstKind::Beq => "beq",
            InstKind::Bne => "bne",
            InstKind::Bge => "bge",
            InstKind::Blt => "blt",
            InstKind::Bltu => "bltu",
            InstKind::Bgeu => "bgeu",
            InstKind::Jalr => "jalr",
            InstKind::Jal => "jal",
            InstKind::SfenceVma => "sfence_vma",
            InstKind::Ecall => "ecall",
            InstKind::Sret => "sret",
            InstKind::Mret => "mret",
            InstKind::Wfi => "wfi",
            InstKind::Csrrw => "csrrw",
            InstKind::Csrrs => "csrrs",
            InstKind::Csrrc => "csrrc",
            InstKind::Csrrwi => "csrrwi",
            InstKind::Csrrsi => "csrrsi",
            InstKind::Csrrci => "csrrci",
            InstKind::CAddi4spn => "c_addi4spn",
            InstKind::CLw => "c_lw",
            InstKind::CLd => "c_ld",
            InstKind::CSw => "c_sw",
            InstKind::CSd => "c_sd",
            InstKind::CNop => "c_nop",
            InstKind::CAddi => "c_addi",
            InstKind::CAddiw => "c_addiw",
            InstKind::CLi => "c_li",
            InstKind::CAddi16sp => "c_addi16sp",
            InstKind::CLui => "c_lui",
            InstKind::CSrli => "c_srli",
            InstKind::CSrai => "c_srai",
            InstKind::CAndi => "c_andi",
            InstKind::CSub => "c_sub",
            InstKind::CXor => "c_xor",
            InstKind::COr => "c_or",
            InstKind::CAnd => "c_and",
            InstKind::CSubw => "c_subw",
            InstKind::CAddw => "c_addw",
            InstKind::CJ => "c_j",
            InstKind::CBeqz => "c_beqz",
            InstKind::CBnez => "c_bnez",
            InstKind::CSlli => "c_slli",
            InstKind::CLwsp => "c_lwsp",
            InstKind::CLdsp => "c_ldsp",
            InstKind::CEbreak => "c_ebreak",
            InstKind::CJr => "c_jr",
            InstKind::CMv => "c_mv",
            InstKind::CJalr => "c_jalr",
            InstKind::CAdd => "c_add",
            InstKind::CSwsp => "c_swsp",
            InstKind::CSdsp => "c_sdsp",
            InstKind::Invalid => "",
        }
    }

    /// The ISA subset the instruction belongs to.
    pub fn isa(&self) -> (r: InstIsa)
        ensures
            r == self.isa,
    {
        self.isa
    }

    /// The class of the instruction.
    pub fn class(&self) -> (r: InstClass)
        ensures
            r == self.class,
    {
        self.class
    }

    /// Replaces the class of the instruction; the executor uses this to mark
    /// a taken jump.
    pub fn set_class(&mut self, class: InstClass)
        ensures
            *final(self) == (Inst { class, ..*old(self) }),
    {
        self.class = class;
    }

    /// The format of the instruction.
    pub fn format(&self) -> (r: InstFormat)
        ensures
            r == self.format,
    {
        self.format
    }

    /// The raw code word (16-bit forms widened to 32 bits).
    pub fn raw(&self) -> (r: u32)
        ensures
            r == self.raw,
    {
        self.raw
    }

    /// The seven-bit opcode field of the raw code word.
    pub fn op(&self) -> (r: u32)
        ensures
            r == self.raw & 0x7f,
    {
        self.raw & 0x7f
    }
}

impl Default for Inst {
    /// The default descriptor is the invalid one.
    fn default() -> (r: Self)
        ensures
            r == Inst::spec_invalid(),
    {
        Inst::invalid()
    }
}

} // verus!
