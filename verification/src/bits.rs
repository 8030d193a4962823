//! Bit-level helpers shared by the decoder and the executor: sign extension,
//! two's-complement views, the operand-field extraction of every instruction
//! format, and little-endian byte codecs.

use vstd::prelude::*;
use vstd::arithmetic::power2::{lemma2_to64, lemma_pow2_adds, lemma_pow2_strictly_increases, pow2};

verus! {

/// `v` with every bit above `bit` replaced by bit `bit` of `v`: the
/// two's-complement sign extension of the low `bit + 1` bits of `v`,
/// provided those are the only bits set.
pub open spec fn sext(bit: u64, v: u64) -> u64
    recommends
        bit < 64,
{
    if (v >> bit) & 1 == 1 {
        v | ((u64::MAX << bit) << 1)
    } else {
        v
    }
}

/// Sign-extends `v` from bit position `bit` (zero-indexed) to 64 bits.
pub fn sign_extend(bit: u8, v: u64) -> (r: u64)
    requires
        bit < 64,
    ensures
        r == sext(bit as u64, v),
{
    let b: u64 = bit as u64;
    if (v >> b) & 1 == 1 {
        v | ((u64::MAX << b) << 1)
    } else {
        v
    }
}

/// The value of `v` read as a two's-complement 64-bit integer.
pub open spec fn as_signed(v: u64) -> int {
    if v >= 0x8000_0000_0000_0000 {
        v - 0x1_0000_0000_0000_0000
    } else {
        v as int
    }
}

/// The value of the low 32 bits of `v` read as a two's-complement
/// 32-bit integer.
pub open spec fn as_signed32(v: u64) -> int {
    if (v % 0x1_0000_0000) >= 0x8000_0000 {
        (v % 0x1_0000_0000) - 0x1_0000_0000
    } else {
        (v % 0x1_0000_0000) as int
    }
}

/// Compares two 64-bit words as two's-complement signed integers.
pub fn signed_lt(a: u64, b: u64) -> (r: bool)
    ensures
        r == (as_signed(a) < as_signed(b)),
{
    proof {
        assert((a >> 63 == 1) == (a >= 0x8000_0000_0000_0000) && a >> 63 <= 1) by (bit_vector);
        assert((b >> 63 == 1) == (b >= 0x8000_0000_0000_0000) && b >> 63 <= 1) by (bit_vector);
    }
    let sa: u64 = a >> 63;
    let sb: u64 = b >> 63;
    if sa != sb {
        sa == 1
    } else {
        a < b
    }
}

/// Compares the low 32 bits of two words as two's-complement signed
/// 32-bit integers.
pub fn signed_lt32(a: u64, b: u64) -> (r: bool)
    ensures
        r == (as_signed32(a) < as_signed32(b)),
{
    let al: u64 = a % 0x1_0000_0000;
    let bl: u64 = b % 0x1_0000_0000;
    if al >= 0x8000_0000 && bl < 0x8000_0000 {
        true
    } else if al < 0x8000_0000 && bl >= 0x8000_0000 {
        false
    } else {
        al < bl
    }
}

/// A five-bit field is at most 31.
proof fn lemma_and31_le(x: u32)
    by (bit_vector)
    ensures
        x & 0x1f <= 31,
{
}

/// A five-bit field of a 16-bit word is at most 31.
proof fn lemma_and31_le16(x: u16)
    by (bit_vector)
    ensures
        x & 0x1f <= 31,
{
}

/// Extracts `(rd, rs1, rs2, funct7)` from an R-type code word.
pub fn extract_r_type(instruction: u32) -> (r: (u8, u8, u8, u8))
    ensures
        r.0 == (instruction >> 7) & 0x1f,
        r.1 == (instruction >> 15) & 0x1f,
        r.2 == (instruction >> 20) & 0x1f,
        r.3 == instruction >> 25,
        r.0 <= 31 && r.1 <= 31 && r.2 <= 31,
{
    proof {
        lemma_and31_le(instruction >> 7);
        lemma_and31_le(instruction >> 15);
        lemma_and31_le(instruction >> 20);
        assert(instruction >> 25 <= 0x7f) by (bit_vector);
    }
    let rd: u32 = (instruction >> 7) & 0x1f;
    let rs1: u32 = (instruction >> 15) & 0x1f;
    let rs2: u32 = (instruction >> 20) & 0x1f;
    let funct7: u32 = instruction >> 25;
    (rd as u8, rs1 as u8, rs2 as u8, funct7 as u8)
}

/// Extracts `(rd, rs1, imm)` from an I-type code word; the immediate is the
/// raw 12-bit field, not yet sign-extended.
pub fn extract_i_type(instruction: u32) -> (r: (u8, u8, u64))
    ensures
        r.0 == (instruction >> 7) & 0x1f,
        r.1 == (instruction >> 15) & 0x1f,
        r.2 == instruction >> 20,
        r.2 < 0x1000,
        r.0 <= 31 && r.1 <= 31,
{
    proof {
        assert(instruction >> 20 < 0x1000) by (bit_vector);
        lemma_and31_le(instruction >> 7);
        lemma_and31_le(instruction >> 15);
    }
    let rd: u32 = (instruction >> 7) & 0x1f;
    let rs1: u32 = (instruction >> 15) & 0x1f;
    let imm: u64 = (instruction >> 20) as u64;
    (rd as u8, rs1 as u8, imm)
}

/// The scattered 12-bit store immediate of an S-type code word.
pub open spec fn s_imm_field(instruction: u32) -> u32 {
    ((instruction & 0xfe00_0000) >> 20) | ((instruction & 0xf80) >> 7)
}

/// Extracts `(rs1, rs2, imm)` from an S-type code word.
pub fn extract_s_type(instruction: u32) -> (r: (u8, u8, u64))
    ensures
        r.0 == (instruction >> 15) & 0x1f,
        r.1 == (instruction >> 20) & 0x1f,
        r.2 == s_imm_field(instruction),
        r.0 <= 31 && r.1 <= 31,
{
    proof {
        lemma_and31_le(instruction >> 15);
        lemma_and31_le(instruction >> 20);
    }
    let rs1: u32 = (instruction >> 15) & 0x1f;
    let rs2: u32 = (instruction >> 20) & 0x1f;
    let imm: u32 = ((instruction & 0xfe00_0000) >> 20) | ((instruction & 0xf80) >> 7);
    (rs1 as u8, rs2 as u8, imm as u64)
}

/// The scattered 13-bit branch offset of a B-type code word (bit 0 is zero).
pub open spec fn b_imm_field(instruction: u32) -> u32 {
    ((instruction >> 19) & 0x1000) | ((instruction << 4) & 0x800) | ((instruction >> 20) & 0x7e0)
        | ((instruction >> 7) & 0x1e)
}

/// Extracts `(rs1, rs2, imm)` from a B-type code word.
pub fn extract_b_type(instruction: u32) -> (r: (u8, u8, u64))
    ensures
        r.0 == (instruction >> 15) & 0x1f,
        r.1 == (instruction >> 20) & 0x1f,
        r.2 == b_imm_field(instruction),
        r.0 <= 31 && r.1 <= 31,
{
    proof {
        lemma_and31_le(instruction >> 15);
        lemma_and31_le(instruction >> 20);
    }
    let rs1: u32 = (instruction >> 15) & 0x1f;
    let rs2: u32 = (instruction >> 20) & 0x1f;
    let imm: u32 = ((instruction >> 19) & 0x1000) | ((instruction << 4) & 0x800) | ((instruction
        >> 20) & 0x7e0) | ((instruction >> 7) & 0x1e);
    (rs1 as u8, rs2 as u8, imm as u64)
}

/// Extracts `(rd, imm)` from a U-type code word; the immediate is already
/// placed at bits 31:12.
pub fn extract_u_type(instruction: u32) -> (r: (u8, u64))
    ensures
        r.0 == (instruction >> 7) & 0x1f,
        r.1 == instruction & 0xffff_f000,
        r.0 <= 31,
{
    proof {
        lemma_and31_le(instruction >> 7);
    }
    let rd: u32 = (instruction >> 7) & 0x1f;
    let imm: u32 = instruction & 0xffff_f000;
    (rd as u8, imm as u64)
}

/// The scattered 21-bit jump offset of a J-type code word (bit 0 is zero).
pub open spec fn j_imm_field(instruction: u32) -> u32 {
    ((instruction >> 11) & 0x10_0000) | (instruction & 0xf_f000) | ((instruction >> 9) & 0x800)
        | ((instruction >> 20) & 0x7fe)
}

/// Extracts `(rd, imm)` from a J-type code word.
pub fn extract_j_type(instruction: u32) -> (r: (u8, u64))
    ensures
        r.0 == (instruction >> 7) & 0x1f,
        r.1 == j_imm_field(instruction),
        r.0 <= 31,
{
    proof {
        lemma_and31_le(instruction >> 7);
    }
    let rd: u32 = (instruction >> 7) & 0x1f;
    let imm: u32 = ((instruction >> 11) & 0x10_0000) | (instruction & 0xf_f000) | ((instruction
        >> 9) & 0x800) | ((instruction >> 20) & 0x7fe);
    (rd as u8, imm as u64)
}

/// A three-bit field is at most seven.
proof fn lemma_and7_le(x: u16)
    by (bit_vector)
    ensures
        x & 0x7 <= 7,
{
}

/// Maps a 3-bit compressed register field to the integer register it names
/// (`x8`..`x15`).
pub fn convert_from_c_reg_to_i(c_reg: u16) -> (r: u8)
    requires
        c_reg <= 7,
    ensures
        r == c_reg + 8,
{
    c_reg as u8 + 8
}

/// Extracts `(rs2, rd)` from a CR-format compressed code word.
pub fn extract_cr_type(instruction: u16) -> (r: (u8, u8))
    ensures
        r.0 == (instruction >> 2) & 0x1f,
        r.1 == (instruction >> 7) & 0x1f,
        r.0 <= 31 && r.1 <= 31,
{
    proof {
        lemma_and31_le16(instruction >> 2);
        lemma_and31_le16(instruction >> 7);
    }
    let rs2: u16 = (instruction >> 2) & 0x1f;
    let rd: u16 = (instruction >> 7) & 0x1f;
    (rs2 as u8, rd as u8)
}

/// The 6-bit immediate of a CI-format compressed code word.
pub open spec fn ci_imm_field(instruction: u16) -> u16 {
    ((instruction >> 7) & 0x20) | ((instruction >> 2) & 0x1f)
}

/// Extracts `(rd, imm)` from a CI-format compressed code word.
pub fn extract_ci_type(instruction: u16) -> (r: (u8, u64))
    ensures
        r.0 == (instruction >> 7) & 0x1f,
        r.1 == ci_imm_field(instruction),
        r.0 <= 31 && r.1 <= 0x3f,
{
    proof {
        lemma_and31_le16(instruction >> 7);
        assert(ci_imm_field(instruction) <= 0x3f) by (bit_vector);
    }
    let rd: u16 = (instruction >> 7) & 0x1f;
    let imm: u16 = ((instruction >> 7) & 0x20) | ((instruction >> 2) & 0x1f);
    (rd as u8, imm as u64)
}

/// Extracts `(rd, imm)` from a CIW-format compressed code word.
pub fn extract_ciw_type(instruction: u16) -> (r: (u8, u64))
    ensures
        r.0 == ((instruction >> 2) & 0x7) + 8,
        r.1 == (instruction >> 5) & 0xff,
        r.0 <= 15,
{
    proof {
        lemma_and7_le(instruction >> 2);
    }
    let rd: u8 = convert_from_c_reg_to_i((instruction >> 2) & 0x7);
    let imm: u16 = (instruction >> 5) & 0xff;
    (rd, imm as u64)
}

/// Extracts `(rd, rs1, imm)` from a CL-format code word, or `(rs2, rs1, imm)`
/// from a CS-format one; the two formats share their bit layout.
pub fn extract_clcs_type(instruction: u16) -> (r: (u8, u8, u64))
    ensures
        r.0 == ((instruction >> 2) & 0x7) + 8,
        r.1 == ((instruction >> 7) & 0x7) + 8,
        r.2 == (instruction >> 5) & 0x3,
        r.0 <= 15 && r.1 <= 15,
{
    proof {
        lemma_and7_le(instruction >> 2);
        lemma_and7_le(instruction >> 7);
    }
    let rd: u8 = convert_from_c_reg_to_i((instruction >> 2) & 0x7);
    let rs1: u8 = convert_from_c_reg_to_i((instruction >> 7) & 0x7);
    let imm: u16 = (instruction >> 5) & 0x3;
    (rd, rs1, imm as u64)
}

/// The 8-bit immediate of a CB-format compressed code word.
pub open spec fn cb_imm_field(instruction: u16) -> u16 {
    ((instruction >> 5) & 0xe0) | ((instruction >> 2) & 0x1f)
}

/// Extracts `(rs1, imm)` from a CB-format compressed code word.
pub fn extract_cb_type(instruction: u16) -> (r: (u8, u64))
    ensures
        r.0 == ((instruction >> 7) & 0x7) + 8,
        r.1 == cb_imm_field(instruction),
        r.0 <= 15,
{
    proof {
        lemma_and7_le(instruction >> 7);
    }
    let rs1: u8 = convert_from_c_reg_to_i((instruction >> 7) & 0x7);
    let imm: u16 = ((instruction >> 5) & 0xe0) | ((instruction >> 2) & 0x1f);
    (rs1, imm as u64)
}

/// Extracts `(rs2, imm)` from a CSS-format compressed code word.
pub fn extract_css_type(instruction: u16) -> (r: (u8, u64))
    ensures
        r.0 == (instruction >> 2) & 0x1f,
        r.1 == (instruction >> 7) & 0x3f,
        r.0 <= 31 && r.1 <= 0x3f,
{
    proof {
        lemma_and31_le16(instruction >> 2);
        assert((instruction >> 7) & 0x3f <= 0x3f) by (bit_vector);
    }
    let rs2: u16 = (instruction >> 2) & 0x1f;
    let imm: u16 = (instruction >> 7) & 0x3f;
    (rs2 as u8, imm as u64)
}

/// Rearranges a CL/CS immediate into the byte offset `imm[5:3|2|6] * 1`
/// used by the word-sized compressed loads and stores.
pub fn calc_c_offset_5_3_2_6(imm: u64) -> (r: u64)
    ensures
        r == ((imm << 6) & 0x40) | ((imm << 1) & 0x38) | ((imm << 1) & 0x4),
{
    ((imm << 6) & 0x40) | ((imm << 1) & 0x38) | ((imm << 1) & 0x4)
}

/// Rearranges a CL/CS immediate into the byte offset `imm[5:3|7:6] * 1`
/// used by the doubleword-sized compressed loads and stores.
pub fn calc_c_offset_5_3_7_6(imm: u64) -> (r: u64)
    ensures
        r == ((imm << 6) & 0xc0) | ((imm << 1) & 0x38),
{
    ((imm << 6) & 0xc0) | ((imm << 1) & 0x38)
}

/// Scatters a 12-bit immediate into the I-type field positions.
pub open spec fn encode_i_imm(imm: u32) -> u32 {
    (imm & 0xfff) << 20
}

/// Scatters a 12-bit immediate into the S-type field positions.
pub open spec fn encode_s_imm(imm: u32) -> u32 {
    (((imm >> 5) & 0x7f) << 25) | ((imm & 0x1f) << 7)
}

/// Scatters a 13-bit branch offset into the B-type field positions.
pub open spec fn encode_b_imm(imm: u32) -> u32 {
    (((imm >> 12) & 1) << 31) | (((imm >> 5) & 0x3f) << 25) | (((imm >> 1) & 0xf) << 8) | (((imm
        >> 11) & 1) << 7)
}

/// Scatters a 21-bit jump offset into the J-type field positions.
pub open spec fn encode_j_imm(imm: u32) -> u32 {
    (((imm >> 20) & 1) << 31) | (((imm >> 1) & 0x3ff) << 21) | (((imm >> 11) & 1) << 20) | (imm
        & 0xf_f000)
}

/// Law: extracting and sign-extending the I-type immediate of a code word
/// that encodes the 12-bit two's-complement immediate `imm` yields `imm`
/// again, for every `imm` with `|imm| < 2^11`.
pub proof fn lemma_i_imm_round_trip(imm: u64)
    by (bit_vector)
    requires
        sext(11, imm & 0xfff) == imm,
    ensures
        sext(11, (encode_i_imm(imm as u32) >> 20) as u64) == imm,
{
}

/// Law: extracting and sign-extending the S-type immediate of a code word
/// that encodes the 12-bit two's-complement immediate `imm` yields `imm`
/// again, for every `imm` with `|imm| < 2^11`.
pub proof fn lemma_s_imm_round_trip(imm: u64)
    by (bit_vector)
    requires
        sext(11, imm & 0xfff) == imm,
    ensures
        sext(11, s_imm_field(encode_s_imm(imm as u32)) as u64) == imm,
{
}

/// Law: extracting and sign-extending the B-type branch offset of a code
/// word that encodes the even 13-bit two's-complement offset `imm` yields
/// `imm` again, for every even `imm` with `|imm| < 2^12`.
pub proof fn lemma_b_imm_round_trip(imm: u64)
    by (bit_vector)
    requires
        imm & 1 == 0,
        sext(12, imm & 0x1fff) == imm,
    ensures
        sext(12, b_imm_field(encode_b_imm(imm as u32)) as u64) == imm,
{
}

/// Law: extracting and sign-extending the J-type jump offset of a code word
/// that encodes the even 21-bit two's-complement offset `imm` yields `imm`
/// again, for every even `imm` with `|imm| < 2^20`.
pub proof fn lemma_j_imm_round_trip(imm: u64)
    by (bit_vector)
    requires
        imm & 1 == 0,
        sext(20, imm & 0x1f_ffff) == imm,
    ensures
        sext(20, j_imm_field(encode_j_imm(imm as u32)) as u64) == imm,
{
}

/// Law: extracting and sign-extending the U-type immediate of a code word
/// that carries the 20-bit field `imm` at bits 31:12 yields the
/// sign-extended value of that field, for every `imm < 2^20`.
pub proof fn lemma_u_imm_round_trip(imm: u64)
    by (bit_vector)
    requires
        imm < 0x10_0000,
    ensures
        sext(31, (((imm as u32) << 12) & 0xffff_f000) as u64) == sext(31, (imm << 12) as u64),
{
}

/// Byte `i` of the little-endian representation of `v`.
pub open spec fn byte_of(v: u64, i: u64) -> u8
    recommends
        i < 8,
{
    ((v >> (8 * i)) & 0xff) as u8
}

/// The unsigned value of a little-endian byte string.
pub open spec fn le_val(s: Seq<u8>) -> int
    decreases s.len(),
{
    if s.len() == 0 {
        0
    } else {
        s[0] + 256 * le_val(s.subrange(1, s.len() as int))
    }
}

/// The value of a little-endian byte string is bounded by `2^(8 * len)`.
pub proof fn lemma_le_val_bound(s: Seq<u8>)
    ensures
        0 <= le_val(s) < pow2(8 * s.len()),
    decreases s.len(),
{
    if s.len() == 0 {
        lemma2_to64();
    } else {
        let rest = s.subrange(1, s.len() as int);
        lemma_le_val_bound(rest);
        lemma_pow2_adds(8, 8 * rest.len());
        lemma2_to64();
        assert(le_val(s) == s[0] + 256 * le_val(rest));
        assert(pow2(8 * s.len()) == 256 * pow2(8 * rest.len()));
    }
}

/// Assembles a little-endian byte string of at most eight bytes into the
/// unsigned value it represents.
pub fn u64_from_le_bytes(bytes: &[u8]) -> (r: u64)
    requires
        bytes@.len() <= 8,
    ensures
        r == le_val(bytes@),
{
    proof {
        lemma_le_val_bound(bytes@);
        lemma2_to64();
    }
    let len: usize = bytes.len();
    let mut r: u64 = 0;
    let mut i: usize = len;
    while i > 0
        invariant
            i <= len,
            len == bytes@.len() <= 8,
            r == le_val(bytes@.subrange(i as int, len as int)),
        decreases i,
    {
        proof {
            let s = bytes@.subrange(i - 1, len as int);
            assert(s.subrange(1, s.len() as int) =~= bytes@.subrange(i as int, len as int));
            lemma_le_val_bound(bytes@.subrange(i as int, len as int));
            lemma_pow2_adds(8 * (len - i) as nat, 8);
            if 8 * (len - i) + 8 < 64 {
                lemma_pow2_strictly_increases((8 * (len - i) + 8) as nat, 64);
            }
            lemma2_to64();
            assert(r * 256 + 255 < pow2((8 * (len - i) + 8) as nat));
        }
        i = i - 1;
        r = r * 256 + (bytes[i] as u64);
    }
    proof {
        assert(bytes@.subrange(0, len as int) =~= bytes@);
    }
    r
}

/// Serializes the low `n` bytes of `v` in little-endian order.
pub fn u64_to_le_bytes(v: u64, n: usize) -> (r: Vec<u8>)
    requires
        n <= 8,
    ensures
        r@.len() == n,
        forall|i: int| 0 <= i < n ==> r@[i] == byte_of(v, i as u64),
{
    let mut r: Vec<u8> = Vec::new();
    let mut i: usize = 0;
    while i < n
        invariant
            i <= n <= 8,
            r@.len() == i,
            forall|k: int| 0 <= k < i ==> r@[k] == byte_of(v, k as u64),
        decreases n - i,
    {
        let b: u64 = (v >> (8 * i) as u64) & 0xff;
        r.push(b as u8);
        i = i + 1;
    }
    r
}

} // verus!
