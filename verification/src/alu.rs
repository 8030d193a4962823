//! The arithmetic semantics of the integer instructions: 64-bit wrapping
//! arithmetic, the 32-bit word forms with their sign extension to 64 bits,
//! and the multiply/divide extension with its division-by-zero and signed
//! overflow rules.

use vstd::prelude::*;
use vstd::arithmetic::div_mod::{
    lemma_div_is_ordered, lemma_mod_multiples_vanish, lemma_small_mod, lemma_sub_mod_noop,
    lemma_div_multiples_vanish_fancy, lemma_div_nonincreasing, lemma_div_pos_is_pos,
    lemma_remainder_upper, lemma_remainder_lower,
};
use vstd::arithmetic::mul::lemma_mul_upper_bound;

use crate::bits::{as_signed, sext, signed_lt};
use crate::cpu::InstKind;

verus! {

/// The value `x` reduced into a 64-bit word (two's complement for negative
/// values).
pub open spec fn to_u64(x: int) -> u64 {
    (x % 0x1_0000_0000_0000_0000) as u64
}

/// The magnitude of the 64-bit word `v` read as a signed integer.
pub open spec fn abs64(v: u64) -> int {
    if as_signed(v) < 0 {
        -as_signed(v)
    } else {
        as_signed(v)
    }
}

/// The low 32 bits of `v`.
pub open spec fn low32(v: u64) -> u64 {
    (v % 0x1_0000_0000) as u64
}

/// The value of the low 32 bits of `v` read as a signed 32-bit integer.
pub open spec fn word_signed(v: u64) -> int {
    if low32(v) >= 0x8000_0000 {
        low32(v) - 0x1_0000_0000
    } else {
        low32(v) as int
    }
}

/// The magnitude of the low 32 bits of `v` read as a signed 32-bit integer.
pub open spec fn abs32(v: u64) -> int {
    if word_signed(v) < 0 {
        -word_signed(v)
    } else {
        word_signed(v)
    }
}

/// A 32-bit result `x` reduced into 32 bits and sign-extended to 64.
pub open spec fn word_result(x: int) -> u64 {
    sext(31, (x % 0x1_0000_0000) as u64)
}

/// The high 64 bits of the unsigned 128-bit product (MULHU).
pub open spec fn spec_mulhu(a: u64, b: u64) -> u64 {
    to_u64((a * b) / 0x1_0000_0000_0000_0000)
}

/// The high 64 bits of the signed 128-bit product (MULH).
pub open spec fn spec_mulh(a: u64, b: u64) -> u64 {
    to_u64((as_signed(a) * as_signed(b)) / 0x1_0000_0000_0000_0000)
}

/// The high 64 bits of the signed-by-unsigned 128-bit product (MULHSU).
pub open spec fn spec_mulhsu(a: u64, b: u64) -> u64 {
    to_u64((as_signed(a) * b) / 0x1_0000_0000_0000_0000)
}

/// Unsigned 64-bit division (DIVU): division by zero yields all ones.
pub open spec fn spec_divu(a: u64, b: u64) -> u64 {
    if b == 0 {
        0xffff_ffff_ffff_ffff
    } else {
        ((a as int) / (b as int)) as u64
    }
}

/// Unsigned 64-bit remainder (REMU): a zero divisor yields the dividend.
pub open spec fn spec_remu(a: u64, b: u64) -> u64 {
    if b == 0 {
        a
    } else {
        ((a as int) % (b as int)) as u64
    }
}

/// Signed 64-bit truncating division (DIV): division by zero yields all
/// ones; the one signed overflow (the most negative value divided by minus
/// one) yields the dividend; otherwise the quotient's magnitude is the
/// quotient of the magnitudes and its sign follows the operand signs.
pub open spec fn spec_div(a: u64, b: u64) -> u64 {
    if b == 0 {
        0xffff_ffff_ffff_ffff
    } else if a == 0x8000_0000_0000_0000 && b == 0xffff_ffff_ffff_ffff {
        a
    } else {
        let q = abs64(a) / abs64(b);
        if (as_signed(a) < 0) != (as_signed(b) < 0) {
            to_u64(-q)
        } else {
            to_u64(q)
        }
    }
}

/// Signed 64-bit truncating remainder (REM): a zero divisor yields the
/// dividend; the signed overflow case yields zero; otherwise the
/// remainder's magnitude is the remainder of the magnitudes and its sign
/// follows the dividend.
pub open spec fn spec_rem(a: u64, b: u64) -> u64 {
    if b == 0 {
        a
    } else if a == 0x8000_0000_0000_0000 && b == 0xffff_ffff_ffff_ffff {
        0
    } else {
        let m = abs64(a) % abs64(b);
        if as_signed(a) < 0 {
            to_u64(-m)
        } else {
            to_u64(m)
        }
    }
}

/// Unsigned 32-bit division (DIVUW), on the low words, sign-extended.
pub open spec fn spec_divuw(a: u64, b: u64) -> u64 {
    if low32(b) == 0 {
        0xffff_ffff_ffff_ffff
    } else {
        word_result((low32(a) as int) / (low32(b) as int))
    }
}

/// Unsigned 32-bit remainder (REMUW), on the low words, sign-extended.
pub open spec fn spec_remuw(a: u64, b: u64) -> u64 {
    if low32(b) == 0 {
        word_result(low32(a) as int)
    } else {
        word_result((low32(a) as int) % (low32(b) as int))
    }
}

/// Signed 32-bit truncating division (DIVW), on the low words,
/// sign-extended, with the word-sized zero-divisor and overflow rules.
pub open spec fn spec_divw(a: u64, b: u64) -> u64 {
    if low32(b) == 0 {
        0xffff_ffff_ffff_ffff
    } else if low32(a) == 0x8000_0000 && low32(b) == 0xffff_ffff {
        sext(31, 0x8000_0000)
    } else {
        let q = abs32(a) / abs32(b);
        if (word_signed(a) < 0) != (word_signed(b) < 0) {
            word_result(-q)
        } else {
            word_result(q)
        }
    }
}

/// Signed 32-bit truncating remainder (REMW), on the low words,
/// sign-extended, with the word-sized zero-divisor and overflow rules.
pub open spec fn spec_remw(a: u64, b: u64) -> u64 {
    if low32(b) == 0 {
        word_result(low32(a) as int)
    } else if low32(a) == 0x8000_0000 && low32(b) == 0xffff_ffff {
        0
    } else {
        let m = abs32(a) % abs32(b);
        if word_signed(a) < 0 {
            word_result(-m)
        } else {
            word_result(m)
        }
    }
}

/// Computes the high 64 bits of the unsigned 128-bit product.
pub fn mulhu(a: u64, b: u64) -> (r: u64)
    ensures
        r == spec_mulhu(a, b),
{
    proof {
        lemma_mul_upper_bound(a as int, 0xffff_ffff_ffff_ffff, b as int, 0xffff_ffff_ffff_ffff);
        lemma_div_is_ordered(
            (a as int) * (b as int),
            0xffff_ffff_ffff_ffff as int * 0xffff_ffff_ffff_ffff as int,
            0x1_0000_0000_0000_0000,
        );
        lemma_div_pos_is_pos((a as int) * (b as int), 0x1_0000_0000_0000_0000);
        lemma_small_mod(
            ((a as int) * (b as int) / 0x1_0000_0000_0000_0000) as nat,
            0x1_0000_0000_0000_0000,
        );
    }
    let p: u128 = (a as u128) * (b as u128);
    let h: u128 = p / 0x1_0000_0000_0000_0000;
    h as u64
}

/// Ring identities used by the signed high-multiply correction.
proof fn lemma_mul_sub_left(a: int, b: int, k: int)
    by (nonlinear_arith)
    ensures
        (a - k) * b == a * b - k * b,
{
}

/// Ring identities used by the signed high-multiply correction.
proof fn lemma_mul_sub_both(a: int, b: int, k: int)
    by (nonlinear_arith)
    ensures
        (a - k) * (b - k) == k * (k - a - b) + a * b,
{
}

/// Dividing after adding a multiple of the divisor shifts the quotient.
proof fn lemma_div_shift(y: int, x: int, d: int)
    requires
        0 < d,
        0 <= y,
    ensures
        (d * x + y) / d == x + y / d,
{
    vstd::arithmetic::div_mod::lemma_fundamental_div_mod(y, d);
    vstd::arithmetic::div_mod::lemma_mod_bound(y, d);
    assert(d * x + y == d * (x + y / d) + y % d) by (nonlinear_arith)
        requires
            y == d * (y / d) + y % d,
    ;
    lemma_div_multiples_vanish_fancy(x + y / d, y % d, d);
}

/// The sign correction that turns the unsigned high product into the
/// signed one: subtracting `b` when `a` is negative and `a` when `b` is
/// negative, modulo 2^64.
proof fn lemma_mulh_correction(a: u64, b: u64)
    ensures
        spec_mulh(a, b) == to_u64(
            (a * b) / 0x1_0000_0000_0000_0000 - (if a >= 0x8000_0000_0000_0000 {
                b as int
            } else {
                0
            }) - (if b >= 0x8000_0000_0000_0000 {
                a as int
            } else {
                0
            }),
        ),
        spec_mulhsu(a, b) == to_u64(
            (a * b) / 0x1_0000_0000_0000_0000 - (if a >= 0x8000_0000_0000_0000 {
                b as int
            } else {
                0
            }),
        ),
{
    let k: int = 0x1_0000_0000_0000_0000;
    let ab = (a as int) * (b as int);
    if a >= 0x8000_0000_0000_0000 {
        assert(as_signed(a) * b == k * (-(b as int)) + ab) by (nonlinear_arith)
            requires
                as_signed(a) == a - k,
                ab == (a as int) * (b as int),
        ;
        lemma_div_shift(ab, -(b as int), k);
    }
    if a >= 0x8000_0000_0000_0000 && b >= 0x8000_0000_0000_0000 {
        lemma_mul_sub_both(a as int, b as int, k);
        lemma_div_shift(ab, k - a - b, k);
        assert(as_signed(a) * as_signed(b) / k == ab / k - a - b + k);
        lemma_mod_multiples_vanish(1, ab / k - a - b, k);
        assert(k * 1 + (ab / k - a - b) == ab / k - a - b + k);
    } else if a >= 0x8000_0000_0000_0000 {
        assert(as_signed(a) * as_signed(b) == k * (-(b as int)) + ab);
    } else if b >= 0x8000_0000_0000_0000 {
        assert(as_signed(a) * as_signed(b) == k * (-(a as int)) + ab) by (nonlinear_arith)
            requires
                as_signed(a) == a as int,
                as_signed(b) == b - k,
                ab == (a as int) * (b as int),
        ;
        lemma_div_shift(ab, -(a as int), k);
    }
}

/// The modulus absorbs a first reduction: subtracting `y` from `x` reduced
/// modulo 2^64 equals subtracting it from `x` itself, modulo 2^64.
proof fn lemma_to_u64_sub(x: int, y: int)
    ensures
        to_u64(to_u64(x) - y) == to_u64(x - y),
{
    let k: int = 0x1_0000_0000_0000_0000;
    lemma_sub_mod_noop(x, y, k);
    lemma_sub_mod_noop(x % k, y, k);
    lemma_mod_multiples_vanish(0, x % k, k);
    lemma_mod_multiples_vanish(0, y % k, k);
}

/// Computes the high 64 bits of the signed 128-bit product.
pub fn mulh(a: u64, b: u64) -> (r: u64)
    ensures
        r == spec_mulh(a, b),
{
    let hu: u64 = mulhu(a, b);
    let ca: u64 = if a >= 0x8000_0000_0000_0000 {
        b
    } else {
        0
    };
    let cb: u64 = if b >= 0x8000_0000_0000_0000 {
        a
    } else {
        0
    };
    let r: u64 = hu.wrapping_sub(ca).wrapping_sub(cb);
    proof {
        let k: int = 0x1_0000_0000_0000_0000;
        lemma_mulh_correction(a, b);
        lemma_div_pos_is_pos((a as int) * (b as int), k);
        lemma_small_mod(hu as nat, k as nat);
        assert(hu == to_u64((a * b) / k));
        assert(hu.wrapping_sub(ca) == to_u64(hu - ca));
        lemma_to_u64_sub((a * b) / k, ca as int);
        assert(hu.wrapping_sub(ca).wrapping_sub(cb) == to_u64(hu.wrapping_sub(ca) - cb));
        lemma_to_u64_sub((a * b) / k - ca, cb as int);
    }
    r
}

/// Computes the high 64 bits of the signed-by-unsigned 128-bit product.
pub fn mulhsu(a: u64, b: u64) -> (r: u64)
    ensures
        r == spec_mulhsu(a, b),
{
    let hu: u64 = mulhu(a, b);
    let ca: u64 = if a >= 0x8000_0000_0000_0000 {
        b
    } else {
        0
    };
    let r: u64 = hu.wrapping_sub(ca);
    proof {
        let k: int = 0x1_0000_0000_0000_0000;
        lemma_mulh_correction(a, b);
        lemma_div_pos_is_pos((a as int) * (b as int), k);
        lemma_small_mod(hu as nat, k as nat);
        lemma_to_u64_sub((a * b) / k, ca as int);
    }
    r
}

/// The magnitude of a 64-bit word read as a signed integer, as an unsigned
/// word: the two's complement for a negative value.
fn magnitude64(v: u64) -> (r: u64)
    ensures
        r == abs64(v),
{
    if v >= 0x8000_0000_0000_0000 {
        (0xffff_ffff_ffff_ffff - v) + 1
    } else {
        v
    }
}

/// The magnitude of the low 32 bits read as a signed 32-bit integer.
fn magnitude32(v: u64) -> (r: u64)
    ensures
        r == abs32(v),
{
    let w: u64 = v % 0x1_0000_0000;
    if w >= 0x8000_0000 {
        0x1_0000_0000 - w
    } else {
        w
    }
}

/// Reduces a negated magnitude into a 64-bit word.
proof fn lemma_neg_mod(q: int)
    requires
        0 < q <= 0x8000_0000_0000_0000,
    ensures
        to_u64(-q) == 0x1_0000_0000_0000_0000 - q,
{
    let k: int = 0x1_0000_0000_0000_0000;
    lemma_mod_multiples_vanish(-1, k - q, k);
    lemma_small_mod((k - q) as nat, k as nat);
}

/// Computes the signed truncating 64-bit division with the DIV rules.
pub fn div_signed(a: u64, b: u64) -> (r: u64)
    ensures
        r == spec_div(a, b),
{
    if b == 0 {
        return 0xffff_ffff_ffff_ffff;
    }
    if a == 0x8000_0000_0000_0000 && b == 0xffff_ffff_ffff_ffff {
        return a;
    }
    let ma: u64 = magnitude64(a);
    let mb: u64 = magnitude64(b);
    let q: u64 = ma / mb;
    proof {
        lemma_div_nonincreasing(ma as int, mb as int);
        lemma_div_pos_is_pos(ma as int, mb as int);
        lemma_small_mod(q as nat, 0x1_0000_0000_0000_0000);
        if q > 0 {
            lemma_neg_mod(q as int);
        }
    }
    if (a >= 0x8000_0000_0000_0000) != (b >= 0x8000_0000_0000_0000) {
        if q == 0 {
            0
        } else {
            (0xffff_ffff_ffff_ffff - q) + 1
        }
    } else {
        q
    }
}

/// Computes the signed truncating 64-bit remainder with the REM rules.
pub fn rem_signed(a: u64, b: u64) -> (r: u64)
    ensures
        r == spec_rem(a, b),
{
    if b == 0 {
        return a;
    }
    if a == 0x8000_0000_0000_0000 && b == 0xffff_ffff_ffff_ffff {
        return 0;
    }
    let ma: u64 = magnitude64(a);
    let mb: u64 = magnitude64(b);
    let m: u64 = ma % mb;
    proof {
        lemma_remainder_upper(ma as int, mb as int);
        lemma_remainder_lower(ma as int, mb as int);
        lemma_small_mod(m as nat, 0x1_0000_0000_0000_0000);
        if m > 0 {
            lemma_neg_mod(m as int);
        }
    }
    if a >= 0x8000_0000_0000_0000 {
        if m == 0 {
            0
        } else {
            (0xffff_ffff_ffff_ffff - m) + 1
        }
    } else {
        m
    }
}

/// Computes the signed truncating 32-bit division with the DIVW rules.
pub fn divw_signed(a: u64, b: u64) -> (r: u64)
    ensures
        r == spec_divw(a, b),
{
    let a32: u64 = a % 0x1_0000_0000;
    let b32: u64 = b % 0x1_0000_0000;
    if b32 == 0 {
        return 0xffff_ffff_ffff_ffff;
    }
    if a32 == 0x8000_0000 && b32 == 0xffff_ffff {
        return crate::bits::sign_extend(31, 0x8000_0000);
    }
    let ma: u64 = magnitude32(a);
    let mb: u64 = magnitude32(b);
    let q: u64 = ma / mb;
    proof {
        lemma_div_nonincreasing(ma as int, mb as int);
        lemma_div_pos_is_pos(ma as int, mb as int);
        lemma_small_mod(q as nat, 0x1_0000_0000);
        if q > 0 {
            lemma_mod_multiples_vanish(-1, 0x1_0000_0000 - q, 0x1_0000_0000);
            lemma_small_mod((0x1_0000_0000 - q) as nat, 0x1_0000_0000);
        }
    }
    if (a32 >= 0x8000_0000) != (b32 >= 0x8000_0000) {
        if q == 0 {
            crate::bits::sign_extend(31, 0)
        } else {
            crate::bits::sign_extend(31, 0x1_0000_0000 - q)
        }
    } else {
        crate::bits::sign_extend(31, q % 0x1_0000_0000)
    }
}

/// Computes the signed truncating 32-bit remainder with the REMW rules.
pub fn remw_signed(a: u64, b: u64) -> (r: u64)
    ensures
        r == spec_remw(a, b),
{
    let a32: u64 = a % 0x1_0000_0000;
    let b32: u64 = b % 0x1_0000_0000;
    if b32 == 0 {
        return crate::bits::sign_extend(31, a32 % 0x1_0000_0000);
    }
    if a32 == 0x8000_0000 && b32 == 0xffff_ffff {
        return 0;
    }
    let ma: u64 = magnitude32(a);
    let mb: u64 = magnitude32(b);
    let m: u64 = ma % mb;
    proof {
        lemma_remainder_upper(ma as int, mb as int);
        lemma_remainder_lower(ma as int, mb as int);
        lemma_small_mod(m as nat, 0x1_0000_0000);
        if m > 0 {
            lemma_mod_multiples_vanish(-1, 0x1_0000_0000 - m, 0x1_0000_0000);
            lemma_small_mod((0x1_0000_0000 - m) as nat, 0x1_0000_0000);
        }
    }
    if a32 >= 0x8000_0000 {
        if m == 0 {
            crate::bits::sign_extend(31, 0)
        } else {
            crate::bits::sign_extend(31, 0x1_0000_0000 - m)
        }
    } else {
        crate::bits::sign_extend(31, m % 0x1_0000_0000)
    }
}

/// What each two-operand integer instruction computes from its operands
/// (the second operand of an immediate form is the processed immediate).
/// Mnemonics that are not two-operand integer instructions yield zero.
pub open spec fn spec_alu(kind: InstKind, a: u64, b: u64) -> u64 {
    match kind {
        InstKind::Add | InstKind::Addi | InstKind::CAdd | InstKind::CAddi | InstKind::CAddi4spn
            | InstKind::CAddi16sp => a.wrapping_add(b),
        InstKind::Sub | InstKind::CSub => a.wrapping_sub(b),
        InstKind::Sll | InstKind::Slli | InstKind::CSlli => a << (b % 64),
        InstKind::Srl | InstKind::Srli | InstKind::CSrli => a >> (b % 64),
        InstKind::Sra | InstKind::Srai | InstKind::CSrai => sext((63 - (b % 64)) as u64, a >> (b % 64)),
        InstKind::Slt | InstKind::Slti => (if as_signed(a) < as_signed(b) {
            1u64
        } else {
            0u64
        }),
        InstKind::Sltu | InstKind::Sltiu => (if a < b {
            1u64
        } else {
            0u64
        }),
        InstKind::Xor | InstKind::Xori | InstKind::CXor => a ^ b,
        InstKind::Or | InstKind::Ori | InstKind::COr => a | b,
        InstKind::And | InstKind::Andi | InstKind::CAndi => a & b,
        InstKind::Mul => a.wrapping_mul(b),
        InstKind::Mulh => spec_mulh(a, b),
        InstKind::Mulhsu => spec_mulhsu(a, b),
        InstKind::Mulhu => spec_mulhu(a, b),
        InstKind::Div => spec_div(a, b),
        InstKind::Divu => spec_divu(a, b),
        InstKind::Rem => spec_rem(a, b),
        InstKind::Remu => spec_remu(a, b),
        InstKind::Addw | InstKind::Addiw | InstKind::CAddw | InstKind::CAddiw => sext(
            31,
            low32(a.wrapping_add(b)),
        ),
        InstKind::Subw | InstKind::CSubw => sext(31, low32(a.wrapping_sub(b))),
        InstKind::Sllw | InstKind::Slliw => sext(31, low32(a << (b % 32))),
        InstKind::Srlw | InstKind::Srliw => sext(31, low32(low32(a) >> (b % 32))),
        InstKind::Sraw | InstKind::Sraiw => sext((31 - (b % 32)) as u64, low32(low32(a) >> (b % 32))),
        InstKind::Mulw => sext(31, to_u64((low32(a) * low32(b)) % 0x1_0000_0000)),
        InstKind::Divw => spec_divw(a, b),
        InstKind::Divuw => spec_divuw(a, b),
        InstKind::Remw => spec_remw(a, b),
        InstKind::Remuw => spec_remuw(a, b),
        _ => 0,
    }
}

/// Evaluates a two-operand integer instruction on its operands.
pub fn alu_compute(kind: InstKind, a: u64, b: u64) -> (r: u64)
    ensures
        r == spec_alu(kind, a, b),
{
    match kind {
        InstKind::Add | InstKind::Addi | InstKind::CAdd | InstKind::CAddi | InstKind::CAddi4spn
            | InstKind::CAddi16sp => a.wrapping_add(b),
        InstKind::Sub | InstKind::CSub => a.wrapping_sub(b),
        InstKind::Sll | InstKind::Slli | InstKind::CSlli => a << (b % 64),
        InstKind::Srl | InstKind::Srli | InstKind::CSrli => a >> (b % 64),
        InstKind::Sra | InstKind::Srai | InstKind::CSrai => crate::bits::sign_extend(
            (63 - (b % 64)) as u8,
            a >> (b % 64),
        ),
        InstKind::Slt | InstKind::Slti => {
            if signed_lt(a, b) {
                1
            } else {
                0
            }
        },
        InstKind::Sltu | InstKind::Sltiu => {
            if a < b {
                1
            } else {
                0
            }
        },
        InstKind::Xor | InstKind::Xori | InstKind::CXor => a ^ b,
        InstKind::Or | InstKind::Ori | InstKind::COr => a | b,
        InstKind::And | InstKind::Andi | InstKind::CAndi => a & b,
        InstKind::Mul => a.wrapping_mul(b),
        InstKind::Mulh => mulh(a, b),
        InstKind::Mulhsu => mulhsu(a, b),
        InstKind::Mulhu => mulhu(a, b),
        InstKind::Div => div_signed(a, b),
        InstKind::Divu => {
            if b == 0 {
                0xffff_ffff_ffff_ffff
            } else {
                a / b
            }
        },
        InstKind::Rem => rem_signed(a, b),
        InstKind::Remu => {
            if b == 0 {
                a
            } else {
                a % b
            }
        },
        InstKind::Addw | InstKind::Addiw | InstKind::CAddw | InstKind::CAddiw => {
            crate::bits::sign_extend(31, a.wrapping_add(b) % 0x1_0000_0000)
        },
        InstKind::Subw | InstKind::CSubw => {
            crate::bits::sign_extend(31, a.wrapping_sub(b) % 0x1_0000_0000)
        },
        InstKind::Sllw | InstKind::Slliw => {
            crate::bits::sign_extend(31, (a << (b % 32)) % 0x1_0000_0000)
        },
        InstKind::Srlw | InstKind::Srliw => {
            crate::bits::sign_extend(31, ((a % 0x1_0000_0000) >> (b % 32)) % 0x1_0000_0000)
        },
        InstKind::Sraw | InstKind::Sraiw => {
            crate::bits::sign_extend(
                (31 - (b % 32)) as u8,
                ((a % 0x1_0000_0000) >> (b % 32)) % 0x1_0000_0000,
            )
        },
        InstKind::Mulw => {
            proof {
                lemma_mul_upper_bound(
                    (a % 0x1_0000_0000) as int,
                    0xffff_ffff,
                    (b % 0x1_0000_0000) as int,
                    0xffff_ffff,
                );
            }
            let p: u64 = (a % 0x1_0000_0000) * (b % 0x1_0000_0000);
            crate::bits::sign_extend(31, p % 0x1_0000_0000)
        },
        InstKind::Divw => divw_signed(a, b),
        InstKind::Divuw => {
            let a32: u64 = a % 0x1_0000_0000;
            let b32: u64 = b % 0x1_0000_0000;
            if b32 == 0 {
                0xffff_ffff_ffff_ffff
            } else {
                crate::bits::sign_extend(31, (a32 / b32) % 0x1_0000_0000)
            }
        },
        InstKind::Remw => remw_signed(a, b),
        InstKind::Remuw => {
            let a32: u64 = a % 0x1_0000_0000;
            let b32: u64 = b % 0x1_0000_0000;
            if b32 == 0 {
                crate::bits::sign_extend(31, a32 % 0x1_0000_0000)
            } else {
                crate::bits::sign_extend(31, (a32 % b32) % 0x1_0000_0000)
            }
        },
        _ => 0,
    }
}

} // verus!
