//! The flat little-endian memory of the machine: a byte array of fixed size
//! `MAX`, addressed modulo `MAX`, so that an access that would run past the
//! top of memory wraps around to address zero.

use vstd::prelude::*;
use vstd::arithmetic::div_mod::{
    lemma_add_mod_noop, lemma_mod_multiples_vanish, lemma_small_mod, lemma_sub_mod_noop,
};

verus! {

/// Wrapping an address once keeps its residue: `((a % m) + i) % m` is
/// `(a + i) % m`, and for the in-range sum the modulo is the identity.
proof fn lemma_wrap_index(a: int, i: int, m: int)
    requires
        0 < m,
        0 <= i < m,
        0 <= a,
    ensures
        ((a % m) + i) % m == (a + i) % m,
        0 <= (a + i) % m < m,
        a % m + i < m ==> (a + i) % m == a % m + i,
        a % m + i >= m ==> (a + i) % m == a % m + i - m,
{
    lemma_small_mod(i as nat, m as nat);
    lemma_add_mod_noop(a, i, m);
    if a % m + i < m {
        lemma_small_mod((a % m + i) as nat, m as nat);
    } else {
        lemma_mod_multiples_vanish(1, a % m + i - m, m);
        lemma_small_mod((a % m + i - m) as nat, m as nat);
    }
}

/// The offset of a wrapped index from its base address: subtracting the
/// base from `(a + i) % m` modulo `m` recovers `i`, and no other in-range
/// index has that offset.
proof fn lemma_wrap_offset(a: int, i: int, j: int, m: int)
    requires
        0 < m,
        0 <= i < m,
        0 <= j < m,
        0 <= a,
    ensures
        j == (a + i) % m ==> (j - a) % m == i,
        (j - a) % m == i ==> j == (a + i) % m,
{
    let x = a + i;
    lemma_small_mod(i as nat, m as nat);
    if j == x % m {
        lemma_small_mod(j as nat, m as nat);
        lemma_sub_mod_noop(j, a, m);
        lemma_sub_mod_noop(x, a, m);
        assert((j - a) % m == (x - a) % m);
    }
    if (j - a) % m == i {
        lemma_add_mod_noop(j - a, a, m);
        lemma_add_mod_noop(i, a % m, m);
        lemma_add_mod_noop(i, a, m);
        lemma_small_mod(j as nat, m as nat);
        assert(j % m == (i + a) % m);
    }
}

/// The byte memory of the machine. `MAX` is its size in bytes; every access
/// takes its address modulo `MAX`.
#[derive(Debug)]
pub struct Memory<const MAX: usize> {
    array: Vec<u8>,
}

impl<const MAX: usize> Memory<MAX> {
    /// The array always spans the full address space, and the size is small
    /// enough that an address plus an in-range offset cannot overflow.
    pub open spec fn wf(self) -> bool {
        &&& self@.len() == MAX
        &&& 0 < MAX
        &&& MAX < 0x8000_0000
    }

    /// The bytes of memory, as a sequence indexed by address.
    pub closed spec fn view(self) -> Seq<u8> {
        self.array@
    }

    /// A fresh all-zero memory.
    pub fn new() -> (r: Self)
        requires
            0 < MAX < 0x8000_0000,
        ensures
            r.wf(),
            forall|j: int| 0 <= j < MAX ==> r@[j] == 0u8,
    {
        let mut array: Vec<u8> = Vec::new();
        let mut i: usize = 0;
        while i < MAX
            invariant
                i <= MAX,
                array@.len() == i,
                forall|j: int| 0 <= j < i ==> array@[j] == 0u8,
            decreases MAX - i,
        {
            array.push(0u8);
            i = i + 1;
        }
        Memory { array }
    }

    /// Replaces memory with a program image, zero-padded to the memory size.
    /// Returns `false` (and leaves memory unchanged) if the image does not
    /// fit.
    pub fn load(&mut self, data: &[u8]) -> (r: bool)
        requires
            old(self).wf(),
        ensures
            final(self).wf(),
            r == (data@.len() <= MAX),
            r ==> forall|j: int|
                0 <= j < MAX ==> final(self)@[j] == (if j < data@.len() {
                    data@[j]
                } else {
                    0u8
                }),
            !r ==> final(self)@ == old(self)@,
    {
        if data.len() > MAX {
            return false;
        }
        let mut array: Vec<u8> = Vec::new();
        let mut i: usize = 0;
        while i < MAX
            invariant
                i <= MAX,
                data@.len() <= MAX,
                array@.len() == i,
                forall|j: int|
                    0 <= j < i ==> array@[j] == (if j < data@.len() {
                        data@[j]
                    } else {
                        0u8
                    }),
            decreases MAX - i,
        {
            if i < data.len() {
                array.push(data[i]);
            } else {
                array.push(0u8);
            }
            i = i + 1;
        }
        self.array = array;
        true
    }

    /// Reads `size` consecutive bytes starting at `address mod MAX`,
    /// wrapping past the top of memory to address zero.
    pub fn read(&self, address: usize, size: usize) -> (r: Vec<u8>)
        requires
            self.wf(),
            size <= MAX,
        ensures
            r@.len() == size,
            forall|i: int|
                0 <= i < size ==> r@[i] == self@[(address + i) % (MAX as int)],
    {
        let a0: usize = address % MAX;
        let mut r: Vec<u8> = Vec::new();
        let mut i: usize = 0;
        while i < size
            invariant
                self.wf(),
                size <= MAX,
                a0 == (address as int) % (MAX as int),
                i <= size,
                r@.len() == i,
                forall|k: int|
                    0 <= k < i ==> r@[k] == self@[(address + k) % (MAX as int)],
            decreases size - i,
        {
            proof {
                lemma_wrap_index(address as int, i as int, MAX as int);
            }
            let mut idx: usize = a0 + i;
            if idx >= MAX {
                idx = idx - MAX;
            }
            r.push(self.array[idx]);
            i = i + 1;
        }
        r
    }

    /// Writes `values` to consecutive addresses starting at `address mod
    /// MAX`, wrapping past the top of memory to address zero. Every other
    /// byte keeps its value; the byte at in-range address `j` is overwritten
    /// exactly when the offset `(j - address) mod MAX` falls inside
    /// `values`.
    pub fn write(&mut self, address: usize, values: &[u8])
        requires
            old(self).wf(),
            values@.len() <= MAX,
        ensures
            final(self).wf(),
            forall|j: int|
                0 <= j < MAX ==> final(self)@[j] == (if 0 <= (j - address) % (MAX as int)
                    < values@.len() {
                    values@[(j - address) % (MAX as int)]
                } else {
                    old(self)@[j]
                }),
            forall|i: int|
                0 <= i < values@.len() ==> final(self)@[(address + i) % (MAX as int)]
                    == values@[i],
    {
        let a0: usize = address % MAX;
        let len: usize = values.len();
        let mut i: usize = 0;
        while i < len
            invariant
                self.wf(),
                len == values@.len() <= MAX,
                a0 == (address as int) % (MAX as int),
                i <= len,
                forall|j: int|
                    0 <= j < MAX ==> self@[j] == (if 0 <= (j - address) % (MAX as int) < i {
                        values@[(j - address) % (MAX as int)]
                    } else {
                        old(self)@[j]
                    }),
            decreases len - i,
        {
            proof {
                lemma_wrap_index(address as int, i as int, MAX as int);
            }
            let mut idx: usize = a0 + i;
            if idx >= MAX {
                idx = idx - MAX;
            }
            self.array.set(idx, values[i]);
            proof {
                assert forall|j: int| 0 <= j < MAX implies self@[j] == (if 0 <= (j - address) % (
                MAX as int) < i + 1 {
                    values@[(j - address) % (MAX as int)]
                } else {
                    old(self)@[j]
                }) by {
                    lemma_wrap_offset(address as int, i as int, j, MAX as int);
                }
            }
            i = i + 1;
        }
        proof {
            assert forall|i2: int| 0 <= i2 < values@.len() implies self@[(address + i2) % (
            MAX as int)] == values@[i2] by {
                lemma_wrap_index(address as int, i2, MAX as int);
                lemma_wrap_offset(address as int, i2, (address + i2) % (MAX as int), MAX as int);
            }
        }
    }
}

} // verus!
