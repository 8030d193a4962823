//! End-to-end scenarios: small hand-assembled program images run to
//! completion through the public `load`/`run`/`check_riscv_tests_result`
//! interface, with the sentinel at address 0x1000.

use tiny_riscv_emulator::emulator::Emulator;
use tiny_riscv_emulator::Priv;

const SENTINEL: usize = 0x1000;

fn image(words: &[u32]) -> Vec<u8> {
    let mut data = Vec::new();
    for w in words {
        data.extend_from_slice(&w.to_le_bytes());
    }
    data
}

fn run_image(words: &[u32]) -> Emulator {
    let mut emulator = Emulator::default();
    emulator.set_riscv_tests_exit_memory_address(SENTINEL);
    assert!(emulator.load(&image(words)));
    emulator.run().unwrap();
    emulator
}

// addi rd, rs1, imm
fn addi(rd: u32, rs1: u32, imm: u32) -> u32 {
    ((imm & 0xfff) << 20) | (rs1 << 15) | (rd << 7) | 0x13
}

// lui rd, imm20
fn lui(rd: u32, imm20: u32) -> u32 {
    (imm20 << 12) | (rd << 7) | 0x37
}

// srli rd, rs1, shamt
fn srli(rd: u32, rs1: u32, sh: u32) -> u32 {
    (sh << 20) | (rs1 << 15) | (5 << 12) | (rd << 7) | 0x13
}

// slli rd, rs1, shamt
fn slli(rd: u32, rs1: u32, sh: u32) -> u32 {
    (sh << 20) | (rs1 << 15) | (1 << 12) | (rd << 7) | 0x13
}

// sw rs2, imm(rs1)
fn sw(rs2: u32, rs1: u32, imm: u32) -> u32 {
    (((imm >> 5) & 0x7f) << 25) | (rs2 << 20) | (rs1 << 15) | (2 << 12) | ((imm & 0x1f) << 7)
        | 0x23
}

// beq rs1, rs2, offset (13-bit, even)
fn beq(rs1: u32, rs2: u32, off: u32) -> u32 {
    (((off >> 12) & 1) << 31) | (((off >> 5) & 0x3f) << 25) | (rs2 << 20) | (rs1 << 15)
        | (((off >> 1) & 0xf) << 8) | (((off >> 11) & 1) << 7) | 0x63
}

// jal rd, offset (21-bit, even)
fn jal(rd: u32, off: u32) -> u32 {
    (((off >> 20) & 1) << 31) | (((off >> 1) & 0x3ff) << 21) | (((off >> 11) & 1) << 20)
        | (off & 0xf_f000) | (rd << 7) | 0x6f
}

// csrrw rd, csr, rs1
fn csrrw(rd: u32, csr: u32, rs1: u32) -> u32 {
    (csr << 20) | (rs1 << 15) | (1 << 12) | (rd << 7) | 0x73
}

// lr.w rd, (rs1)
fn lr_w(rd: u32, rs1: u32) -> u32 {
    (2 << 27) | (rs1 << 15) | (2 << 12) | (rd << 7) | 0x2f
}

// sc.w rd, rs2, (rs1)
fn sc_w(rd: u32, rs2: u32, rs1: u32) -> u32 {
    (3 << 27) | (rs2 << 20) | (rs1 << 15) | (2 << 12) | (rd << 7) | 0x2f
}

// amoswap.w rd, rs2, (rs1)
fn amoswap_w(rd: u32, rs2: u32, rs1: u32) -> u32 {
    (1 << 27) | (rs2 << 20) | (rs1 << 15) | (2 << 12) | (rd << 7) | 0x2f
}

const MRET: u32 = 0x3020_0073;
const LOOP_FOREVER: u32 = 0x6f;

/// Store 1 to the sentinel and spin: the simplest passing program.
#[test]
fn store_one_and_loop_passes() {
    let e = run_image(&[
        addi(1, 0, 1),  // x1 = 1
        lui(2, 1),      // x2 = 0x1000
        sw(1, 2, 0),    // [0x1000] = 1
        LOOP_FOREVER,
    ]);
    assert!(e.check_riscv_tests_result());
}

/// A failing status word is not reported as a pass.
#[test]
fn store_two_fails() {
    let e = run_image(&[addi(1, 0, 2), lui(2, 1), sw(1, 2, 0), LOOP_FOREVER]);
    assert!(!e.check_riscv_tests_result());
}

/// LUI then SRLI, compared against the same value built by an independent
/// instruction mix; the equal path must store 1. (On a 64-bit machine LUI
/// sign-extends, so `lui 0x80000; srli 12` yields 0x000f_ffff_fff8_0000;
/// the comparand is built from all-ones by shifts.)
#[test]
fn lui_srli_compare_passes() {
    let e = run_image(&[
        lui(5, 0x80000),   // x5 = 0xffff_ffff_8000_0000
        srli(5, 5, 12),    // x5 = 0x000f_ffff_fff8_0000
        addi(6, 0, 0xfff), // x6 = -1
        srli(6, 6, 31),    // x6 = 0x1_ffff_ffff
        slli(6, 6, 19),    // x6 = 0x000f_ffff_fff8_0000
        beq(5, 6, 12),     // equal: skip to the store of 1
        addi(1, 0, 2),
        jal(0, 8),
        addi(1, 0, 1),
        lui(2, 1),
        sw(1, 2, 0),
        LOOP_FOREVER,
    ]);
    assert!(e.check_riscv_tests_result());
    assert_eq!(e.read_memory(SENTINEL, 4), vec![1, 0, 0, 0]);
}

/// AMOSWAP.W at a misaligned address traps to `mtvec` with the
/// misaligned cause, and the faulting address stays in `mepc`.
#[test]
fn amoswap_misaligned_traps() {
    let e = run_image(&[
        addi(1, 0, 0x20),    // handler base
        csrrw(0, 0x305, 1),  // mtvec = 0x20
        addi(2, 0, 0x81),    // a misaligned address
        amoswap_w(3, 4, 2),  // at pc = 0x0c: traps
        LOOP_FOREVER,
        0,
        0,
        0,
        // handler at 0x20:
        lui(5, 1),
        addi(6, 0, 1),
        sw(6, 5, 0),
        LOOP_FOREVER,
    ]);
    assert!(e.check_riscv_tests_result());
    assert_eq!(e.csr.mcause, 0); // instruction-address-misaligned
    assert_eq!(e.csr.mepc, 0x0c);
    assert_eq!(e.csr.mtval, 0); // only illegal-instruction traps fill mtval
    assert_eq!(e.current_priv, Priv::M);
}

/// SC.W whose reservation does not cover the target fails: it writes 1 to
/// `rd` and leaves memory untouched. A matching LR/SC pair succeeds.
#[test]
fn sc_without_covering_reservation_fails() {
    let e = run_image(&[
        addi(2, 0, 0x200),  // reserved address
        addi(7, 0, 0x300),  // a different address
        addi(3, 0, 55),
        sw(3, 7, 0),        // [0x300] = 55
        lr_w(4, 2),         // reserve [0x200, 0x204]
        sc_w(6, 3, 7),      // SC to 0x300: not covered, must fail
        lui(5, 1),
        sw(6, 5, 0),        // store the SC result (1 = failure)
        LOOP_FOREVER,
    ]);
    assert!(e.check_riscv_tests_result());
    // the failed SC did not store
    assert_eq!(e.read_memory(0x300, 4), vec![55, 0, 0, 0]);
}

/// An ordinary store between LR.W and SC.W to the same address
/// invalidates the reservation: the SC fails (writes 1 to `rd`, stores
/// nothing) and memory keeps the intervening store's value.
#[test]
fn store_between_lr_and_sc_makes_sc_fail() {
    let e = run_image(&[
        addi(2, 0, 0x200),
        addi(3, 0, 55),
        lr_w(4, 2),        // reserve [0x200, 0x204]
        addi(7, 0, 77),
        sw(7, 2, 0),       // unrelated store to the same address
        sc_w(6, 3, 2),     // the reservation is gone: must fail, x6 = 1
        lui(5, 1),
        sw(6, 5, 0),       // store the SC result (1 = failure)
        LOOP_FOREVER,
    ]);
    assert!(e.check_riscv_tests_result());
    // memory keeps the intervening store's value, not the SC's operand
    assert_eq!(e.read_memory(0x200, 4), vec![77, 0, 0, 0]);
}

/// A matching LR/SC pair succeeds: `rd` gets 0 and the store lands.
#[test]
fn lr_sc_pair_succeeds() {
    let e = run_image(&[
        addi(2, 0, 0x200),
        addi(3, 0, 55),
        lr_w(4, 2),        // reserve [0x200, 0x204]
        sc_w(6, 3, 2),     // covered: succeeds, x6 = 0
        addi(6, 6, 1),     // x6 = 1 on success
        lui(5, 1),
        sw(6, 5, 0),
        LOOP_FOREVER,
    ]);
    assert!(e.check_riscv_tests_result());
    assert_eq!(e.read_memory(0x200, 4), vec![55, 0, 0, 0]);
}

/// MRET with `mstatus.MPP = U` and `mstatus.MPIE = 1`: afterwards the
/// privilege is user mode, execution continues at `mepc`, `mstatus.MIE`
/// has been restored from `MPIE`, `MPIE` is set and `MPP` is user.
#[test]
fn mret_returns_to_user_mode() {
    // the user-mode code sits at 0x100, the return target
    let mut words = vec![
        addi(1, 0, 0x100),
        csrrw(0, 0x341, 1),
        addi(2, 0, 0x80),
        csrrw(0, 0x300, 2),
        MRET,
        LOOP_FOREVER,
    ];
    while words.len() < 0x100 / 4 {
        words.push(0);
    }
    words.push(lui(3, 1)); // 0x100
    words.push(addi(4, 0, 1));
    words.push(sw(4, 3, 0));
    words.push(LOOP_FOREVER);
    let mut emulator = Emulator::default();
    emulator.set_riscv_tests_exit_memory_address(SENTINEL);
    assert!(emulator.load(&image(&words)));
    emulator.run().unwrap();
    assert!(emulator.check_riscv_tests_result());
    assert_eq!(emulator.current_priv, Priv::U);
    assert_eq!(emulator.csr.mstatus & 0x8, 0x8); // MIE = old MPIE = 1
    assert_eq!(emulator.csr.mstatus & 0x80, 0x80); // MPIE = 1
    assert_eq!(emulator.csr.mstatus & 0x1800, 0); // MPP = U
}

/// ECALL from machine mode traps with the machine-mode environment-call
/// cause.
#[test]
fn ecall_from_machine_mode_traps() {
    let e = run_image(&[
        addi(1, 0, 0x20),
        csrrw(0, 0x305, 1), // mtvec = 0x20
        0x0000_0073,        // ecall at pc = 0x08
        LOOP_FOREVER,
        0,
        0,
        0,
        0,
        // handler at 0x20:
        lui(5, 1),
        addi(6, 0, 1),
        sw(6, 5, 0),
        LOOP_FOREVER,
    ]);
    assert!(e.check_riscv_tests_result());
    assert_eq!(e.csr.mcause, 11); // environment call from M mode
    assert_eq!(e.csr.mepc, 0x08);
}

/// A recognized code word whose trap the model does not expect (the
/// refused FENCE.TSO encoding) ends the run with a diagnostic fault
/// instead of silently trapping.
#[test]
fn unimplemented_instruction_ends_the_run() {
    let mut emulator = Emulator::default();
    emulator.set_riscv_tests_exit_memory_address(SENTINEL);
    assert!(emulator.load(&image(&[0x8330_000f]))); // fence.tso
    assert!(emulator.run().is_err());
    assert!(!emulator.check_riscv_tests_result());
}

/// WFI executed outside supervisor mode raises an illegal-instruction
/// trap, delivered through `mtvec`.
#[test]
fn wfi_outside_supervisor_mode_traps() {
    let e = run_image(&[
        addi(1, 0, 0x20),
        csrrw(0, 0x305, 1), // mtvec = 0x20
        0x1050_0073,        // wfi, in M mode, at pc = 0x08
        LOOP_FOREVER,
        0,
        0,
        0,
        0,
        // handler at 0x20:
        lui(5, 1),
        addi(6, 0, 1),
        sw(6, 5, 0),
        LOOP_FOREVER,
    ]);
    assert!(e.check_riscv_tests_result());
    assert_eq!(e.csr.mcause, 2);
    assert_eq!(e.csr.mepc, 0x08);
    assert_eq!(e.csr.mtval, 0x1050_0073);
}

/// CSRRW to the read-only `cycle` register raises an illegal-instruction
/// trap, which is delivered through `mtvec` with cause 2.
#[test]
fn csrrw_to_read_only_csr_traps() {
    let e = run_image(&[
        addi(1, 0, 0x20),
        csrrw(0, 0x305, 1), // mtvec = 0x20
        csrrw(1, 0xc00, 2), // write the read-only cycle: traps at pc = 0x08
        LOOP_FOREVER,
        0,
        0,
        0,
        0,
        // handler at 0x20:
        lui(5, 1),
        addi(6, 0, 1),
        sw(6, 5, 0),
        LOOP_FOREVER,
    ]);
    assert!(e.check_riscv_tests_result());
    assert_eq!(e.csr.mcause, 2); // illegal instruction
    assert_eq!(e.csr.mepc, 0x08);
}
