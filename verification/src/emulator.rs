//! The machine itself: memory, the register file, the CSR file, the current
//! privilege level, the reservation set of the atomic extension, and the
//! fetch-decode-execute loop that advances it.

use vstd::prelude::*;

use crate::bits::{le_val, u64_from_le_bytes};
use crate::cpu::{Inst, InstClass, InstIsa};
use crate::csr::Csr;
use crate::decode::decode;
use crate::exception::Fault;
use crate::memory::Memory;
use crate::register::Register;
use crate::Priv;

verus! {

/// The size of the flat memory, in bytes.
pub const MEMORY_SIZE: usize = 1024 * 1024;

/// Whether two address intervals do not overlap.
pub open spec fn ranges_disjoint(a: (usize, usize), b: (usize, usize)) -> bool {
    b.1 < a.0 || b.0 > a.1
}

/// Whether the intervals of a reservation set are pairwise non-overlapping.
pub open spec fn reservations_wf(s: Seq<(usize, usize)>) -> bool {
    forall|i: int, j: int|
        0 <= i < j < s.len() ==> ranges_disjoint(#[trigger] s[i], #[trigger] s[j])
}

/// The reservation set after a store of `len` bytes at `addr`: every
/// interval the store's byte range touches is dropped. A zero-length
/// store drops nothing.
pub open spec fn reservations_after_store(
    s: Seq<(usize, usize)>,
    addr: int,
    len: int,
) -> Seq<(usize, usize)> {
    if len == 0 {
        s
    } else {
        s.filter(|r: (usize, usize)| addr + len <= r.0 || addr > r.1)
    }
}

/// Law: `x0` reads as zero in every machine state, so after any sequence
/// of operations. The register file stores only `x1`..`x31`; there is no
/// state in which `x0` could hold anything else.
pub proof fn lemma_x0_reads_zero(s: Emulator)
    ensures
        s.reg_val(0) == 0,
        s.spec_read_reg(Register::X(0)) == 0,
{
}

/// The machine after fetching and decoding the 32-bit word at the program
/// counter.
pub open spec fn decoded(pre: Emulator) -> Emulator {
    Emulator {
        inst: crate::decode::spec_decode(pre.mem_val(pre.pc as usize as int, 4) as u32),
        ..pre
    }
}

/// What the rest of a run-loop iteration does once the instruction has
/// executed with result `r`, leaving the machine `mid`: a raised trap is
/// delivered; a successful instruction counts a cycle, then either a
/// pending interrupt is delivered or the program counter advances past a
/// non-jumping instruction. An iteration that ends the run with a
/// diagnostic fault relates to nothing.
pub open spec fn step_continue(mid: Emulator, r: Result<(), Fault>, post: Emulator) -> bool {
    match r {
        Result::Ok(_) => {
            let counted = Emulator {
                csr: (Csr { mcycle: mid.csr.mcycle.wrapping_add(1), ..mid.csr }),
                ..mid
            };
            match crate::csr::spec_interrupt_check(counted) {
                Result::Ok(_) => post == (if counted.inst.class == InstClass::Jump(true) {
                    counted
                } else {
                    Emulator {
                        pc: counted.pc.wrapping_add(
                            if counted.inst.isa == InstIsa::C {
                                2u64
                            } else {
                                4u64
                            },
                        ),
                        ..counted
                    }
                }),
                Result::Err(f) => match f {
                    Fault::Trap(e) => exists|hr: Result<(), Fault>|
                        hr is Ok && #[trigger] crate::trap::post_handle_exception(
                            counted,
                            post,
                            e,
                            hr,
                        ),
                    _ => false,
                },
            }
        },
        Result::Err(f) => match f {
            Fault::Trap(e) => exists|hr: Result<(), Fault>|
                hr is Ok && #[trigger] crate::trap::post_handle_exception(mid, post, e, hr),
            _ => false,
        },
    }
}

/// One full iteration of the run loop: fetch and decode the word at the
/// program counter, execute it, then deliver any trap, poll for an
/// interrupt and advance the program counter.
pub open spec fn step_rel(pre: Emulator, post: Emulator) -> bool {
    exists|mid: Emulator, r: Result<(), Fault>|
        #[trigger] crate::exec::post_exec(decoded(pre), mid, r) && step_continue(mid, r, post)
}

/// Whether `post` is what `n` iterations of the run loop make of `pre`.
pub open spec fn steps_reach(pre: Emulator, post: Emulator, n: nat) -> bool
    decreases n,
{
    if n == 0 {
        post == pre
    } else {
        exists|mid: Emulator|
            steps_reach(pre, mid, (n - 1) as nat) && #[trigger] step_rel(mid, post)
    }
}

/// Extending a run by one loop iteration extends reachability by one
/// step.
proof fn lemma_extend_reach(
    start: Emulator,
    pre: Emulator,
    mid: Emulator,
    r: Result<(), Fault>,
    post: Emulator,
    n: nat,
)
    requires
        steps_reach(start, pre, n),
        crate::exec::post_exec(decoded(pre), mid, r),
        step_continue(mid, r, post),
    ensures
        steps_reach(start, post, n + 1),
{
    assert(step_rel(pre, post));
    let n2: nat = n + 1;
    assert(steps_reach(start, pre, (n2 - 1) as nat));
    assert(steps_reach(start, post, n2));
}

/// The simulated hart: all architectural state plus the bookkeeping the
/// conformance harness needs (the completion flag and the sentinel
/// address).
pub struct Emulator {
    pub memory: Memory<MEMORY_SIZE>,
    pub regs: Vec<u64>,
    pub csr: Csr,
    pub pc: u64,
    pub current_priv: Priv,
    pub inst: Inst,
    pub reserved_memory_ranges: Vec<(usize, usize)>,
    pub riscv_tests_finished: bool,
    pub riscv_tests_exit_memory_address: usize,
}

impl Emulator {
    /// The machine is well formed: memory spans the address space, the
    /// register file holds `x1`..`x31`, and the reservation set is pairwise
    /// non-overlapping.
    pub open spec fn wf(self) -> bool {
        &&& self.memory.wf()
        &&& self.regs@.len() == 31
        &&& reservations_wf(self.reserved_memory_ranges@)
    }

    /// The value of general register `x_i` (`x0` reads as zero).
    pub open spec fn reg_val(self, i: int) -> u64 {
        if i == 0 {
            0
        } else {
            self.regs@[i - 1]
        }
    }

    /// The value a register selector reads.
    pub open spec fn spec_read_reg(self, reg: Register) -> u64 {
        match reg {
            Register::X(i) => self.reg_val(i as int),
            Register::Pc => self.pc,
        }
    }

    /// The bytes of memory starting at `addr`, wrapping at the top.
    pub open spec fn mem_bytes(self, addr: int, size: nat) -> Seq<u8> {
        Seq::new(size, |i: int| self.memory@[(addr + i) % (MEMORY_SIZE as int)])
    }

    /// The unsigned value of the `size`-byte little-endian word at `addr`.
    pub open spec fn mem_val(self, addr: int, size: nat) -> int {
        le_val(self.mem_bytes(addr, size))
    }

    /// A fresh machine: zeroed memory and registers, reset CSR file,
    /// machine mode, no reservations, sentinel address zero.
    pub fn new() -> (r: Self)
        ensures
            r.wf(),
            forall|j: int| 0 <= j < MEMORY_SIZE ==> r.memory@[j] == 0u8,
            forall|i: int| 0 <= i <= 31 ==> r.reg_val(i) == 0,
            r.pc == 0,
            r.csr == Csr::spec_reset(),
            r.current_priv == Priv::M,
            r.inst == Inst::spec_invalid(),
            r.reserved_memory_ranges@.len() == 0,
            !r.riscv_tests_finished,
            r.riscv_tests_exit_memory_address == 0,
    {
        let mut regs: Vec<u64> = Vec::new();
        let mut i: usize = 0;
        while i < 31
            invariant
                i <= 31,
                regs@.len() == i,
                forall|k: int| 0 <= k < i ==> regs@[k] == 0u64,
            decreases 31 - i,
        {
            regs.push(0u64);
            i = i + 1;
        }
        Emulator {
            memory: Memory::new(),
            regs,
            csr: Csr::reset(),
            pc: 0,
            current_priv: Priv::M,
            inst: Inst::invalid(),
            reserved_memory_ranges: Vec::new(),
            riscv_tests_finished: false,
            riscv_tests_exit_memory_address: 0,
        }
    }

    /// Loads a program image: byte `i` of the image is placed at address
    /// `i`, the rest of memory is zeroed, the registers, the program
    /// counter and the CSR file are reset, and the machine returns to
    /// machine mode. Fails (returning `false`, with only the registers and
    /// CSR file reset) if the image is larger than memory.
    pub fn load(&mut self, data: &[u8]) -> (r: bool)
        requires
            old(self).wf(),
        ensures
            final(self).wf(),
            r == (data@.len() <= MEMORY_SIZE),
            forall|i: int| 0 <= i <= 31 ==> final(self).reg_val(i) == 0,
            final(self).pc == 0,
            final(self).csr == Csr::spec_reset(),
            final(self).current_priv == Priv::M,
            !final(self).riscv_tests_finished,
            final(self).riscv_tests_exit_memory_address == old(self).riscv_tests_exit_memory_address,
            r ==> forall|j: int|
                0 <= j < MEMORY_SIZE ==> final(self).memory@[j] == (if j < data@.len() {
                    data@[j]
                } else {
                    0u8
                }),
    {
        self.initialize_regs();
        self.initialize_csr();
        self.current_priv = Priv::M;
        self.riscv_tests_finished = false;
        self.memory.load(data)
    }

    /// Zeroes the general registers and the program counter.
    fn initialize_regs(&mut self)
        ensures
            *final(self) == (Emulator {
                regs: final(self).regs,
                pc: 0,
                ..*old(self)
            }),
            final(self).regs@ == Seq::new(31, |k: int| 0u64),
            forall|i: int| 0 <= i <= 31 ==> final(self).reg_val(i) == 0,
    {
        let mut regs: Vec<u64> = Vec::new();
        let mut i: usize = 0;
        while i < 31
            invariant
                i <= 31,
                regs@.len() == i,
                forall|k: int| 0 <= k < i ==> regs@[k] == 0u64,
            decreases 31 - i,
        {
            regs.push(0u64);
            i = i + 1;
        }
        self.regs = regs;
        self.pc = 0;
        proof {
            assert(self.regs@ =~= Seq::new(31, |k: int| 0u64));
        }
    }

    /// Reads a register. `x0` reads as zero.
    pub fn read_reg(&self, reg: Register) -> (r: u64)
        requires
            self.wf(),
            reg.wf(),
        ensures
            r == self.spec_read_reg(reg),
    {
        match reg {
            Register::X(i) => {
                if i == 0 {
                    0
                } else {
                    self.regs[(i - 1) as usize]
                }
            },
            Register::Pc => self.pc,
        }
    }

    /// Writes a register. A write to `x0` is silently discarded.
    pub fn write_reg(&mut self, reg: Register, value: u64)
        requires
            old(self).wf(),
            reg.wf(),
        ensures
            final(self).wf(),
            *final(self) == (Emulator {
                regs: final(self).regs,
                pc: final(self).pc,
                ..*old(self)
            }),
            reg == Register::Pc ==> final(self).regs == old(self).regs && final(self).pc == value,
            forall|i: u8|
                reg == Register::X(i) ==> final(self).pc == old(self).pc && final(self).regs@
                    == (if i == 0 {
                    old(self).regs@
                } else {
                    old(self).regs@.update(i - 1, value)
                }),
    {
        match reg {
            Register::X(i) => {
                if i != 0 {
                    self.regs.set((i - 1) as usize, value);
                }
            },
            Register::Pc => {
                self.pc = value;
            },
        }
    }

    /// Reads `size` bytes of memory starting at `address`, wrapping at the
    /// top of memory.
    pub fn read_memory(&self, address: usize, size: usize) -> (r: Vec<u8>)
        requires
            self.wf(),
            size <= MEMORY_SIZE,
        ensures
            r@ == self.mem_bytes(address as int, size as nat),
    {
        let r = self.memory.read(address, size);
        proof {
            assert(r@ =~= self.mem_bytes(address as int, size as nat));
        }
        r
    }

    /// Drops every reservation whose interval the byte range
    /// `[address, address + len)` touches: an ordinary store invalidates
    /// any reservation it overlaps.
    fn invalidate_reservations(&mut self, address: usize, len: usize)
        requires
            old(self).wf(),
        ensures
            final(self).wf(),
            *final(self) == (Emulator {
                reserved_memory_ranges: final(self).reserved_memory_ranges,
                ..*old(self)
            }),
            final(self).reserved_memory_ranges@ == reservations_after_store(
                old(self).reserved_memory_ranges@,
                address as int,
                len as int,
            ),
    {
        if len == 0 {
            return ;
        }
        let ghost orig = self.reserved_memory_ranges@;
        let no_overflow: bool = address <= usize::MAX - len;
        let mut kept: Vec<(usize, usize)> = Vec::new();
        let mut i: usize = 0;
        let n: usize = self.reserved_memory_ranges.len();
        while i < n
            invariant
                self.wf(),
                len >= 1,
                no_overflow == (address + len <= usize::MAX),
                n == self.reserved_memory_ranges@.len(),
                self.reserved_memory_ranges@ == orig,
                i <= n,
                kept@ == orig.subrange(0, i as int).filter(
                    |r: (usize, usize)| address + len <= r.0 || address > r.1,
                ),
                reservations_wf(kept@),
                forall|k: int, m: int|
                    0 <= k < kept@.len() && i <= m < n ==> ranges_disjoint(
                        #[trigger] kept@[k],
                        #[trigger] orig[m],
                    ),
            decreases n - i,
        {
            let r: (usize, usize) = self.reserved_memory_ranges[i];
            proof {
                assert(orig.subrange(0, i + 1).drop_last() =~= orig.subrange(0, i as int));
                reveal_with_fuel(Seq::filter, 2);
            }
            let keep: bool = if no_overflow {
                address + len <= r.0 || address > r.1
            } else {
                address > r.1
            };
            if keep {
                kept.push(r);
            }
            proof {
                assert(orig.subrange(0, i + 1).last() == r);
                assert(orig.subrange(0, i + 1).filter(
                    |r: (usize, usize)| address + len <= r.0 || address > r.1,
                ) =~= kept@);
            }
            i = i + 1;
        }
        proof {
            assert(orig.subrange(0, n as int) =~= orig);
        }
        self.reserved_memory_ranges = kept;
    }

    /// Writes bytes to memory starting at `address`, wrapping at the top of
    /// memory. A write that touches the test sentinel address raises the
    /// completion flag, and every reservation the written byte range
    /// overlaps is dropped.
    pub fn write_memory(&mut self, address: usize, values: &[u8])
        requires
            old(self).wf(),
            values@.len() <= MEMORY_SIZE,
        ensures
            final(self).wf(),
            *final(self) == (Emulator {
                memory: final(self).memory,
                riscv_tests_finished: final(self).riscv_tests_finished,
                reserved_memory_ranges: final(self).reserved_memory_ranges,
                ..*old(self)
            }),
            final(self).riscv_tests_finished == (old(self).riscv_tests_finished || address == old(self).riscv_tests_exit_memory_address),
            final(self).reserved_memory_ranges@ == reservations_after_store(
                old(self).reserved_memory_ranges@,
                address as int,
                values@.len() as int,
            ),
            forall|j: int|
                0 <= j < MEMORY_SIZE ==> final(self).memory@[j] == (if 0 <= (j - address) % (
                MEMORY_SIZE as int) < values@.len() {
                    values@[(j - address) % (MEMORY_SIZE as int)]
                } else {
                    old(self).memory@[j]
                }),
            forall|i: int|
                0 <= i < values@.len() ==> final(self).memory@[(address + i) % (MEMORY_SIZE as int)]
                    == values@[i],
    {
        if address == self.riscv_tests_exit_memory_address {
            self.riscv_tests_finished = true;
        }
        self.invalidate_reservations(address, values.len());
        self.memory.write(address, values);
    }

    /// Checks that `address` is aligned to `n` bytes; a misaligned address
    /// is an instruction-address-misaligned trap.
    pub fn check_misaligned_nbyte_misaligned(&self, address: u64, n: u64) -> (r: Result<
        (),
        Fault,
    >)
        requires
            n > 0,
        ensures
            r == (if address % n == 0 {
                Result::<(), Fault>::Ok(())
            } else {
                Result::<(), Fault>::Err(
                    Fault::Trap(crate::exception::Exception::InstructionAddressMissaligned),
                )
            }),
    {
        if address % n == 0 {
            Ok(())
        } else {
            Err(Fault::Trap(crate::exception::Exception::InstructionAddressMissaligned))
        }
    }

    /// Checks the alignment of a jump target: four bytes with the
    /// compressed extension disabled, unchecked with it enabled.
    pub fn check_misaligned(&self, address: u64) -> (r: Result<(), Fault>)
        ensures
            r == (if !self.c_ext_enabled() && address % 4 != 0 {
                Result::<(), Fault>::Err(
                    Fault::Trap(crate::exception::Exception::InstructionAddressMissaligned),
                )
            } else {
                Result::<(), Fault>::Ok(())
            }),
    {
        if !self.is_c_extension_enabled() {
            self.check_misaligned_nbyte_misaligned(address, 4)
        } else {
            Ok(())
        }
    }

    /// Whether the compressed extension is enabled (the C bit of `misa`).
    pub open spec fn c_ext_enabled(self) -> bool {
        self.csr.misa & 0x4 != 0
    }

    /// Whether the compressed extension is enabled.
    pub fn is_c_extension_enabled(&self) -> (r: bool)
        ensures
            r == self.c_ext_enabled(),
    {
        (self.csr.misa & 0x4) != 0
    }

    /// Records the memory interval reserved by a load-reserved: every
    /// stored interval that overlaps the new one is dropped, then the new
    /// one is appended. The set stays pairwise non-overlapping.
    pub fn push_reserved_memory_range(&mut self, range: (usize, usize))
        requires
            old(self).wf(),
        ensures
            final(self).wf(),
            *final(self) == (Emulator {
                reserved_memory_ranges: final(self).reserved_memory_ranges,
                ..*old(self)
            }),
            final(self).reserved_memory_ranges@ == old(self).reserved_memory_ranges@.filter(
                |r: (usize, usize)| range.1 < r.0 || range.0 > r.1,
            ).push(range),
            reservations_wf(final(self).reserved_memory_ranges@),
    {
        let ghost orig = self.reserved_memory_ranges@;
        let mut kept: Vec<(usize, usize)> = Vec::new();
        let mut i: usize = 0;
        let len: usize = self.reserved_memory_ranges.len();
        while i < len
            invariant
                self.wf(),
                len == self.reserved_memory_ranges@.len(),
                self.reserved_memory_ranges@ == orig,
                i <= len,
                kept@ == orig.subrange(0, i as int).filter(
                    |r: (usize, usize)| range.1 < r.0 || range.0 > r.1,
                ),
                forall|k: int|
                    0 <= k < kept@.len() ==> range.1 < (#[trigger] kept@[k]).0 || range.0
                        > kept@[k].1,
                reservations_wf(kept@),
                forall|k: int, m: int|
                    0 <= k < kept@.len() && i <= m < len ==> ranges_disjoint(
                        #[trigger] kept@[k],
                        #[trigger] orig[m],
                    ),
            decreases len - i,
        {
            let r: (usize, usize) = self.reserved_memory_ranges[i];
            proof {
                assert(orig.subrange(0, i + 1).drop_last() =~= orig.subrange(0, i as int));
                reveal_with_fuel(Seq::filter, 2);
            }
            if range.1 < r.0 || range.0 > r.1 {
                kept.push(r);
            }
            proof {
                assert(orig.subrange(0, i + 1).last() == r);
                assert(orig.subrange(0, i + 1).filter(
                    |r: (usize, usize)| range.1 < r.0 || range.0 > r.1,
                ) =~= kept@);
            }
            i = i + 1;
        }
        proof {
            assert(orig.subrange(0, len as int) =~= orig);
        }
        kept.push(range);
        self.reserved_memory_ranges = kept;
    }

    /// Removes and returns the most recently recorded reservation.
    pub fn pop_reserved_memory_range(&mut self) -> (r: Option<(usize, usize)>)
        requires
            old(self).wf(),
        ensures
            final(self).wf(),
            *final(self) == (Emulator {
                reserved_memory_ranges: final(self).reserved_memory_ranges,
                ..*old(self)
            }),
            old(self).reserved_memory_ranges@.len() == 0 ==> r.is_none() && final(self).reserved_memory_ranges@ == old(self).reserved_memory_ranges@,
            old(self).reserved_memory_ranges@.len() > 0 ==> r == Some(
                old(self).reserved_memory_ranges@.last(),
            ) && final(self).reserved_memory_ranges@ == old(self).reserved_memory_ranges@.drop_last(),
    {
        let r = self.reserved_memory_ranges.pop();
        proof {
            if old(self).reserved_memory_ranges@.len() > 0 {
                assert(final(self).reserved_memory_ranges@ =~= old(self).reserved_memory_ranges@.drop_last());
            }
        }
        r
    }

    /// Reads the 32-bit word at the program counter.
    pub fn fetch(&self) -> (r: u32)
        requires
            self.wf(),
        ensures
            r == self.mem_val(self.pc as usize as int, 4),
    {
        let bytes = self.memory.read(self.pc as usize, 4);
        proof {
            assert(bytes@ =~= self.mem_bytes(self.pc as usize as int, 4));
            crate::bits::lemma_le_val_bound(bytes@);
            vstd::arithmetic::power2::lemma2_to64();
        }
        let v: u64 = u64_from_le_bytes(bytes.as_slice());
        v as u32
    }

    /// Whether the decoded instruction may execute: it must be recognized,
    /// and a compressed instruction additionally needs the compressed
    /// extension enabled.
    pub fn can_exec(&self) -> (r: bool)
        ensures
            r == (self.inst.class != InstClass::Invalid && (self.inst.raw % 4 < 3
                ==> self.c_ext_enabled())),
    {
        self.inst.is_valid() && if self.inst.raw() % 4 < 3 {
            self.is_c_extension_enabled()
        } else {
            true
        }
    }

    /// Advances the program counter past the executed instruction: two
    /// bytes for a compressed form, four otherwise.
    pub fn progress_pc(&mut self)
        ensures
            *final(self) == (Emulator { pc: final(self).pc, ..*old(self) }),
            final(self).pc == old(self).pc.wrapping_add(
                if old(self).inst.isa == InstIsa::C {
                    2u64
                } else {
                    4u64
                },
            ),
    {
        if self.inst.isa() == InstIsa::C {
            self.pc = self.pc.wrapping_add(2);
        } else {
            self.pc = self.pc.wrapping_add(4);
        }
    }

    /// Whether the program under test reported success: the four bytes at
    /// the sentinel address hold the little-endian word 1.
    pub fn check_riscv_tests_result(&self) -> (r: bool)
        requires
            self.wf(),
        ensures
            r == (self.mem_bytes(self.riscv_tests_exit_memory_address as int, 4) == seq![
                1u8,
                0u8,
                0u8,
                0u8,
            ]),
    {
        let bytes = self.memory.read(self.riscv_tests_exit_memory_address, 4);
        proof {
            assert(bytes@ =~= self.mem_bytes(self.riscv_tests_exit_memory_address as int, 4));
        }
        let r = bytes[0] == 1 && bytes[1] == 0 && bytes[2] == 0 && bytes[3] == 0;
        proof {
            if r {
                assert(bytes@ =~= seq![1u8, 0u8, 0u8, 0u8]);
            }
        }
        r
    }

    /// Sets the sentinel address: the run loop stops when the program
    /// stores to it.
    pub fn set_riscv_tests_exit_memory_address(&mut self, address: usize)
        ensures
            *final(self) == (Emulator {
                riscv_tests_exit_memory_address: address,
                ..*old(self)
            }),
    {
        self.riscv_tests_exit_memory_address = address;
    }

    /// Runs the machine until the program under test stores to the sentinel
    /// address, delivering traps and polling for interrupts after every
    /// instruction: each iteration is one `step_rel` step, and a successful
    /// run ends in a finished state some number of steps from the starting
    /// one. Returns an error if the program drives the machine into a state
    /// the model does not support (where a diagnostic abort is the only
    /// honest answer), or in the practically unreachable case that the
    /// internal step budget of 2^64 instructions runs out.
    #[verifier::rlimit(100)]
    pub fn run(&mut self) -> (r: Result<(), Fault>)
        requires
            old(self).wf(),
        ensures
            final(self).wf(),
            final(self).riscv_tests_exit_memory_address == old(self).riscv_tests_exit_memory_address,
            r.is_ok() ==> final(self).riscv_tests_finished && (exists|n: nat|
                steps_reach(*old(self), *final(self), n)),
    {
        let ghost mut steps: nat = 0;
        let mut fuel: u64 = 0xffff_ffff_ffff_ffff;
        loop
            invariant
                self.wf(),
                self.riscv_tests_exit_memory_address == old(self).riscv_tests_exit_memory_address,
                steps_reach(*old(self), *self, steps),
            decreases fuel,
        {
            if self.riscv_tests_finished {
                proof {
                    assert(steps_reach(*old(self), *self, steps));
                }
                return Ok(());
            }
            if fuel == 0 {
                return Err(Fault::StepLimitReached);
            }
            fuel = fuel - 1;
            let ghost pre_step = *self;
            let raw_inst: u32 = self.fetch();
            self.inst = crate::decode::decode(raw_inst);
            proof {
                assert(pre_step.mem_val(pre_step.pc as usize as int, 4) as u32 == raw_inst);
                assert(*self == decoded(pre_step));
            }
            let res = self.exec();
            let ghost mid = *self;
            match res {
                Err(Fault::Trap(e)) => {
                    let hres = self.handle_exception(e);
                    match hres {
                        Ok(_) => {
                            proof {
                                assert(hres is Ok);
                                assert(crate::trap::post_handle_exception(mid, *self, e, hres));
                                assert(crate::exec::post_exec(decoded(pre_step), mid, res));
                                assert(step_continue(mid, res, *self));
                                lemma_extend_reach(*old(self), pre_step, mid, res, *self, steps);
                                steps = steps + 1;
                            }
                        },
                        Err(f) => {
                            return Err(f);
                        },
                    }
                },
                Err(f) => {
                    return Err(f);
                },
                Ok(_) => {
                    self.add_cycle();
                    let ghost counted = *self;
                    match self.check_interrupt_active() {
                        Err(Fault::Trap(e)) => {
                            let hres = self.handle_exception(e);
                            match hres {
                                Ok(_) => {
                                    proof {
                                        assert(hres is Ok);
                                        assert(crate::trap::post_handle_exception(
                                            counted,
                                            *self,
                                            e,
                                            hres,
                                        ));
                                        assert(crate::exec::post_exec(decoded(pre_step), mid, res));
                                        assert(step_continue(mid, res, *self));
                                        lemma_extend_reach(
                                            *old(self),
                                            pre_step,
                                            mid,
                                            res,
                                            *self,
                                            steps,
                                        );
                                        steps = steps + 1;
                                    }
                                    continue ;
                                },
                                Err(f) => {
                                    return Err(f);
                                },
                            }
                        },
                        Err(f) => {
                            return Err(f);
                        },
                        Ok(_) => {
                            if self.inst.class() != InstClass::Jump(true) {
                                self.progress_pc();
                            }
                            proof {
                                assert(crate::exec::post_exec(decoded(pre_step), mid, res));
                                assert(step_continue(mid, res, *self));
                                lemma_extend_reach(*old(self), pre_step, mid, res, *self, steps);
                                steps = steps + 1;
                            }
                        },
                    }
                },
            }
        }
    }
}

impl Default for Emulator {
    /// A fresh machine, as `new` builds it.
    fn default() -> (r: Self)
        ensures
            r.wf(),
            r.pc == 0,
            r.csr == Csr::spec_reset(),
            r.current_priv == Priv::M,
            !r.riscv_tests_finished,
    {
        Emulator::new()
    }
}

} // verus!
