//! Unit tests for the decoder, the arithmetic semantics, the CSR file's
//! write masks, the memory, the register file and the reservation set.

use tiny_riscv_emulator::alu::alu_compute;
use tiny_riscv_emulator::bits::{sign_extend, u64_from_le_bytes, u64_to_le_bytes};
use tiny_riscv_emulator::cpu::{InstClass, InstFormat, InstIsa, InstKind};
use tiny_riscv_emulator::decode::decode;
use tiny_riscv_emulator::emulator::Emulator;
use tiny_riscv_emulator::memory::Memory;
use tiny_riscv_emulator::register::Register;

#[test]
fn decode_classifies_base_instructions() {
    let d = decode(0x0010_0093); // addi x1, x0, 1
    assert_eq!(d.kind, InstKind::Addi);
    assert_eq!(d.class, InstClass::Alu);
    assert_eq!(d.format, InstFormat::I);
    assert_eq!(d.isa, InstIsa::I);
    assert_eq!(d.raw, 0x0010_0093);
    assert_eq!(d.op(), 0x13);
    assert_eq!(d.name(), "addi");
    assert!(d.is_valid());

    assert_eq!(decode(0x4000_5013).kind, InstKind::Srai);
    assert_eq!(decode(0x0000_5013).kind, InstKind::Srli);
    assert_eq!(decode(0x0200_4033).kind, InstKind::Div);
    assert_eq!(decode(0x0800_202f).kind, InstKind::AmoswapW);
    assert_eq!(decode(0x1000_202f).kind, InstKind::LrW);
    assert_eq!(decode(0x3020_0073).kind, InstKind::Mret);
    assert_eq!(decode(0x0000_1073).kind, InstKind::Csrrw);
    assert_eq!(decode(0x1200_0073).kind, InstKind::SfenceVma);
    assert_eq!(decode(0x0000_0063).kind, InstKind::Beq);
}

#[test]
fn decode_classifies_compressed_instructions() {
    let d = decode(0x0000_0081); // c.addi x1, 0
    assert_eq!(d.kind, InstKind::CAddi);
    assert_eq!(d.isa, InstIsa::C);
    assert_eq!(d.raw, 0x81); // the raw word is the 16-bit form
    assert_eq!(decode(0x0001).kind, InstKind::CNop);
    assert_eq!(decode(0x9002).kind, InstKind::CEbreak);
    assert_eq!(decode(0x8082).kind, InstKind::CJr);
    assert_eq!(decode(0x9086).kind, InstKind::CAdd);
    assert_eq!(decode(0x8c01).kind, InstKind::CSub);
    assert_eq!(decode(0x4000).kind, InstKind::CLw);
}

#[test]
fn decode_rejects_reserved_encodings() {
    assert!(!decode(0).is_valid());
    assert!(!decode(0xffff_ffff).is_valid()); // no such opcode
    assert!(!decode(0x0000_2063).is_valid()); // no branch with funct3 = 2
    // c.lui with rd = 0 is reserved
    assert!(!decode(0x6001).is_valid());
}

#[test]
fn sign_extend_widths() {
    assert_eq!(sign_extend(7, 0x80), 0xffff_ffff_ffff_ff80);
    assert_eq!(sign_extend(7, 0x7f), 0x7f);
    assert_eq!(sign_extend(11, 0xfff), 0xffff_ffff_ffff_ffff);
    assert_eq!(sign_extend(31, 0x8000_0000), 0xffff_ffff_8000_0000);
    assert_eq!(sign_extend(63, 1), 1);
}

/// DIV of the most negative value by minus one yields the dividend, and
/// the matching REM yields zero; DIVU by zero yields all ones and REMU by
/// zero the dividend.
#[test]
fn division_boundary_cases() {
    let min = 0x8000_0000_0000_0000u64;
    let all = 0xffff_ffff_ffff_ffffu64;
    assert_eq!(alu_compute(InstKind::Div, min, all), min);
    assert_eq!(alu_compute(InstKind::Rem, min, all), 0);
    assert_eq!(alu_compute(InstKind::Divu, 7, 0), all);
    assert_eq!(alu_compute(InstKind::Remu, 7, 0), 7);
    assert_eq!(alu_compute(InstKind::Div, 7, 0), all);
    assert_eq!(alu_compute(InstKind::Rem, 7, 0), 7);
    // ordinary signed division truncates toward zero
    assert_eq!(alu_compute(InstKind::Div, (-7i64) as u64, 2), (-3i64) as u64);
    assert_eq!(alu_compute(InstKind::Rem, (-7i64) as u64, 2), (-1i64) as u64);
    // the word forms work on the low 32 bits and sign-extend
    assert_eq!(alu_compute(InstKind::Divw, 0x8000_0000, 0xffff_ffff), 0xffff_ffff_8000_0000);
    assert_eq!(alu_compute(InstKind::Remw, 0x8000_0000, 0xffff_ffff), 0);
    assert_eq!(alu_compute(InstKind::Divuw, 8, 2), 4);
    assert_eq!(alu_compute(InstKind::Remuw, 9, 0), 9);
}

/// SRA by `n` replicates bit 63; SRLIW zero-extends the 32-bit operand,
/// shifts, and sign-extends bit 31 of the result.
#[test]
fn shift_boundary_cases() {
    assert_eq!(alu_compute(InstKind::Sra, 0x8000_0000_0000_0000, 4), 0xf800_0000_0000_0000);
    assert_eq!(alu_compute(InstKind::Sra, 0x4000_0000_0000_0000, 4), 0x0400_0000_0000_0000);
    // srliw on a value with bit 31 set after the shift
    assert_eq!(alu_compute(InstKind::Srliw, 0xffff_ffff_8000_0000, 0), 0xffff_ffff_8000_0000);
    assert_eq!(alu_compute(InstKind::Srliw, 0xffff_ffff_ffff_ffff, 4), 0x0fff_ffff);
    assert_eq!(alu_compute(InstKind::Sll, 1, 63), 0x8000_0000_0000_0000);
    assert_eq!(alu_compute(InstKind::Sraw, 0x8000_0000, 4), 0xffff_ffff_f800_0000);
}

#[test]
fn multiply_high_halves() {
    assert_eq!(alu_compute(InstKind::Mulhu, 1 << 63, 2), 1);
    assert_eq!(
        alu_compute(InstKind::Mulh, (-1i64) as u64, (-1i64) as u64),
        0 // (-1) * (-1) = 1, high word 0
    );
    assert_eq!(alu_compute(InstKind::Mulh, (-1i64) as u64, 1), (-1i64) as u64);
    assert_eq!(alu_compute(InstKind::Mulhsu, (-1i64) as u64, 2), (-1i64) as u64);
    assert_eq!(alu_compute(InstKind::Mul, 0xffff_ffff_ffff_ffff, 2), 0xffff_ffff_ffff_fffe);
}

/// `x0` reads as zero after any write.
#[test]
fn x0_stays_zero() {
    let mut e = Emulator::default();
    e.write_reg(Register::X(0), 0xdead);
    assert_eq!(e.read_reg(Register::X(0)), 0);
    e.write_reg(Register::X(5), 7);
    assert_eq!(e.read_reg(Register::X(5)), 7);
    assert_eq!(e.read_reg(Register::X(0)), 0);
}

/// Writing then reading a masked-WARL CSR returns the value gated by the
/// register's mask; `sstatus` reads as `mstatus & 0x122`; the epc
/// registers clear their low two bits.
#[test]
fn csr_write_masks() {
    let mut e = Emulator::default();
    e.write_csr(0x300, 0x4019aa).unwrap(); // mstatus, all supported bits
    assert_eq!(e.read_raw_csr(0x300).unwrap(), 0x40_19aa | 0xa_0000_0000);
    e.write_csr(0x300, 0x8a).unwrap();
    assert_eq!(e.read_raw_csr(0x300).unwrap(), 0x8a | 0xa_0000_0000);
    assert_eq!(e.read_raw_csr(0x100).unwrap(), e.csr.mstatus & 0x122);
    e.write_csr(0x341, 0x1003).unwrap(); // mepc
    assert_eq!(e.read_raw_csr(0x341).unwrap(), 0x1000);
    e.write_csr(0x141, 0x2007).unwrap(); // sepc
    assert_eq!(e.read_raw_csr(0x141).unwrap(), 0x2004);
    e.write_csr(0x304, 0xffff).unwrap(); // mie
    assert_eq!(e.read_raw_csr(0x304).unwrap(), 0xaaa);
    e.write_csr(0x305, 0x47).unwrap(); // mtvec keeps base and mode 0/1
    assert_eq!(e.read_raw_csr(0x305).unwrap(), 0x45);
    e.write_csr(0x340, 0xdead_beef).unwrap(); // mscratch stores everything
    assert_eq!(e.read_raw_csr(0x340).unwrap(), 0xdead_beef);
    e.write_csr(0x342, 0x55).unwrap(); // mcause: not a defined code
    assert_eq!(e.read_raw_csr(0x342).unwrap(), 0);
    e.write_csr(0x342, 8).unwrap(); // a defined exception code is kept
    assert_eq!(e.read_raw_csr(0x342).unwrap(), 8);
    // a defined interrupt cause is stored whole, interrupt bit included
    e.write_csr(0x342, (1 << 63) | 1).unwrap();
    assert_eq!(e.read_raw_csr(0x342).unwrap(), (1 << 63) | 1);
    // writing back what was just read is a no-op
    let back = e.read_raw_csr(0x342).unwrap();
    e.write_csr(0x342, back).unwrap();
    assert_eq!(e.read_raw_csr(0x342).unwrap(), back);
    e.write_csr(0x342, (1 << 63) | 2).unwrap(); // not a defined interrupt code
    assert_eq!(e.read_raw_csr(0x342).unwrap(), 0);
}

#[test]
fn csr_checks_refuse_bad_accesses() {
    let mut e = Emulator::default();
    // writing a read-only register is refused
    assert!(e.write_csr(0xc00, 1).is_err());
    // satp accepts only the Bare mode (zero)
    assert!(e.write_csr(0x180, 1).is_err());
    assert!(e.write_csr(0x180, 0).is_ok());
    // an unknown address is refused
    assert!(e.read_csr(0x123).is_err());
    // unsupported mstatus bits are refused
    assert!(e.write_csr(0x300, 0x8000_0000_0000_0000).is_err());
}

#[test]
fn memory_wraps_and_loads() {
    let mut m: Memory<16> = Memory::new();
    m.write(14, &[1, 2, 3, 4]);
    assert_eq!(m.read(14, 4), vec![1, 2, 3, 4]);
    // the two final bytes wrapped to addresses 0 and 1
    assert_eq!(m.read(0, 2), vec![3, 4]);
    // an image larger than memory is refused
    assert!(!m.load(&[0; 17]));
    assert!(m.load(&[9; 3]));
    assert_eq!(m.read(0, 4), vec![9, 9, 9, 0]);
}

#[test]
fn byte_codecs_round_trip() {
    let bytes = u64_to_le_bytes(0x0102_0304_0506_0708, 8);
    assert_eq!(bytes, vec![8, 7, 6, 5, 4, 3, 2, 1]);
    assert_eq!(u64_from_le_bytes(&bytes), 0x0102_0304_0506_0708);
    assert_eq!(u64_to_le_bytes(0x1234, 2), vec![0x34, 0x12]);
    assert_eq!(u64_from_le_bytes(&[]), 0);
}

/// The reservation set stays pairwise non-overlapping: pushing an interval
/// that overlaps stored ones drops them first.
#[test]
fn reservation_set_stays_disjoint() {
    let mut e = Emulator::default();
    e.push_reserved_memory_range((0x100, 0x104));
    e.push_reserved_memory_range((0x200, 0x204));
    assert_eq!(e.reserved_memory_ranges, vec![(0x100, 0x104), (0x200, 0x204)]);
    // overlaps both of the stored intervals' neighborhood
    e.push_reserved_memory_range((0x102, 0x202));
    assert_eq!(e.reserved_memory_ranges, vec![(0x102, 0x202)]);
    assert_eq!(e.pop_reserved_memory_range(), Some((0x102, 0x202)));
    assert_eq!(e.pop_reserved_memory_range(), None);
}

/// A taken branch to a misaligned target raises the misaligned trap from
/// `exec` and leaves the program counter unchanged, when the compressed
/// extension is off.
#[test]
fn taken_branch_to_misaligned_target_traps() {
    let mut e = Emulator::default();
    e.csr.misa &= !4; // compressed extension off
    e.pc = 0x100;
    // beq x0, x0, +2 would need a misaligned encoding; use offset 2 via
    // the raw B fields: imm bit 1 set
    let raw = (1u32 << 8) | 0x63; // beq x0, x0, 2
    e.inst = decode(raw);
    let r = e.exec();
    assert!(r.is_err());
    assert_eq!(e.pc, 0x100);
    // with the compressed extension on, the same branch is taken
    let mut e2 = Emulator::default();
    e2.pc = 0x100;
    e2.inst = decode(raw);
    assert!(e2.exec().is_ok());
    assert_eq!(e2.pc, 0x102);
}

/// A pending, enabled supervisor software interrupt is delivered after the
/// instruction that enables it, through the vectored machine trap vector.
#[test]
fn supervisor_software_interrupt_is_vectored() {
    let mut e = Emulator::default();
    e.set_riscv_tests_exit_memory_address(0x1000);
    let addi = |rd: u32, rs1: u32, imm: u32| ((imm & 0xfff) << 20) | (rs1 << 15) | (rd << 7) | 0x13;
    let csrrw = |rd: u32, csr: u32, rs1: u32| (csr << 20) | (rs1 << 15) | (1 << 12) | (rd << 7) | 0x73;
    let lui = |rd: u32, imm20: u32| (imm20 << 12) | (rd << 7) | 0x37;
    let sw =
        |rs2: u32, rs1: u32, imm: u32| (((imm >> 5) & 0x7f) << 25) | (rs2 << 20) | (rs1 << 15) | (2 << 12) | ((imm & 0x1f) << 7) | 0x23;
    let words = [
        addi(1, 0, 0x41),
        csrrw(0, 0x305, 1),  // mtvec = base 0x40, Vectored mode
        addi(2, 0, 2),
        csrrw(0, 0x304, 2),  // mie = 2
        csrrw(0, 0x344, 2),  // mip = 2
        addi(3, 0, 8),
        csrrw(0, 0x300, 3),  // mstatus.MIE = 1; the interrupt fires here
        0x6f,                // (never reached)
        0,
        0,
        0,
        0,
        0,
        0,
        0,
        0,
        0,
        // handler for cause 1 at 0x40 + 4 = 0x44
        lui(5, 1),           // 0x44
        addi(6, 0, 1),
        sw(6, 5, 0),
        0x6f,
    ];
    let mut data = Vec::new();
    for w in words {
        data.extend_from_slice(&w.to_le_bytes());
    }
    // the handler must sit at 0x44: words[17] is at 0x44
    assert_eq!(17 * 4, 0x44);
    assert!(e.load(&data));
    e.run().unwrap();
    assert!(e.check_riscv_tests_result());
    assert_eq!(e.csr.mcause, 0x8000_0000_0000_0001);
    // the interrupt saved the next address
    assert_eq!(e.csr.mepc, 7 * 4);
}

/// With the trap vector in Direct mode, an interrupt jumps to the bare
/// vector base, without the cause-scaled offset.
#[test]
fn interrupt_in_direct_mode_uses_the_base() {
    let mut e = Emulator::default();
    e.set_riscv_tests_exit_memory_address(0x1000);
    let addi = |rd: u32, rs1: u32, imm: u32| ((imm & 0xfff) << 20) | (rs1 << 15) | (rd << 7) | 0x13;
    let csrrw = |rd: u32, csr: u32, rs1: u32| (csr << 20) | (rs1 << 15) | (1 << 12) | (rd << 7) | 0x73;
    let lui = |rd: u32, imm20: u32| (imm20 << 12) | (rd << 7) | 0x37;
    let sw =
        |rs2: u32, rs1: u32, imm: u32| (((imm >> 5) & 0x7f) << 25) | (rs2 << 20) | (rs1 << 15) | (2 << 12) | ((imm & 0x1f) << 7) | 0x23;
    let words = [
        addi(1, 0, 0x40),
        csrrw(0, 0x305, 1),  // mtvec = base 0x40, Direct mode
        addi(2, 0, 2),
        csrrw(0, 0x304, 2),  // mie = 2
        csrrw(0, 0x344, 2),  // mip = 2
        addi(3, 0, 8),
        csrrw(0, 0x300, 3),  // mstatus.MIE = 1; the interrupt fires here
        0x6f,                // (never reached)
        0,
        0,
        0,
        0,
        0,
        0,
        0,
        0,
        // handler at the bare base 0x40
        lui(5, 1),           // 0x40
        addi(6, 0, 1),
        sw(6, 5, 0),
        0x6f,
    ];
    let mut data = Vec::new();
    for w in words {
        data.extend_from_slice(&w.to_le_bytes());
    }
    assert_eq!(16 * 4, 0x40);
    assert!(e.load(&data));
    e.run().unwrap();
    assert!(e.check_riscv_tests_result());
    assert_eq!(e.csr.mcause, 0x8000_0000_0000_0001);
}
