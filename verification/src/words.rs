//! Arithmetic on 32-bit machine words: two's-complement interpretation,
//! modular (wrapping) arithmetic, sign extension, little-endian byte
//! composition, and the RV32M multiply/divide semantics.

use vstd::prelude::*;
use vstd::arithmetic::div_mod::{
    lemma_fundamental_div_mod, lemma_hoist_over_denominator, lemma_mod_add_multiples_vanish,
    lemma_mod_multiples_vanish, lemma_mul_mod_noop_general, lemma_multiply_divide_lt,
    lemma_small_mod,
};
use vstd::math::abs;

verus! {

/// The value of `x` read as a two's-complement signed 32-bit integer.
pub open spec fn s32(x: u32) -> int {
    if x >= 0x8000_0000 {
        x - 0x1_0000_0000
    } else {
        x as int
    }
}

/// The unique 32-bit word congruent to `x` modulo 2^32.
pub open spec fn clip32(x: int) -> u32 {
    (x % 0x1_0000_0000) as u32
}

/// The unique 64-bit word congruent to `x` modulo 2^64.
pub open spec fn clip64(x: int) -> u64 {
    (x % 0x1_0000_0000_0000_0000) as u64
}

pub proof fn lemma_clip32_id(x: int)
    requires
        0 <= x < 0x1_0000_0000,
    ensures
        clip32(x) == x,
{
    lemma_small_mod(x as nat, 0x1_0000_0000);
}

pub proof fn lemma_clip32_neg(x: int)
    requires
        -0x1_0000_0000 <= x < 0,
    ensures
        clip32(x) == x + 0x1_0000_0000,
{
    lemma_mod_add_multiples_vanish(x, 0x1_0000_0000);
    lemma_small_mod((x + 0x1_0000_0000) as nat, 0x1_0000_0000);
}

pub proof fn lemma_clip64_id(x: int)
    requires
        0 <= x < 0x1_0000_0000_0000_0000,
    ensures
        clip64(x) == x,
{
    lemma_small_mod(x as nat, 0x1_0000_0000_0000_0000);
}

pub proof fn lemma_clip64_neg(x: int)
    requires
        -0x1_0000_0000_0000_0000 <= x < 0,
    ensures
        clip64(x) == x + 0x1_0000_0000_0000_0000,
{
    lemma_mod_add_multiples_vanish(x, 0x1_0000_0000_0000_0000);
    lemma_small_mod((x + 0x1_0000_0000_0000_0000) as nat, 0x1_0000_0000_0000_0000);
}

/// Addition modulo 2^32.
pub fn wadd(a: u32, b: u32) -> (r: u32)
    ensures
        r == clip32(a + b),
{
    proof {
        if a + b <= u32::MAX {
            lemma_clip32_id(a + b);
        } else {
            lemma_mod_add_multiples_vanish(a + b - 0x1_0000_0000, 0x1_0000_0000);
            lemma_clip32_id(a + b - 0x1_0000_0000);
        }
    }
    a.wrapping_add(b)
}

/// Subtraction modulo 2^32.
pub fn wsub(a: u32, b: u32) -> (r: u32)
    ensures
        r == clip32(a - b),
{
    proof {
        if a - b >= 0 {
            lemma_clip32_id(a - b);
        } else {
            lemma_clip32_neg(a - b);
        }
    }
    a.wrapping_sub(b)
}

/// Addition modulo 2^64.
pub fn wadd64(a: u64, b: u64) -> (r: u64)
    ensures
        r == clip64(a + b),
{
    proof {
        if a + b <= u64::MAX {
            lemma_clip64_id(a + b);
        } else {
            lemma_mod_add_multiples_vanish(a + b - 0x1_0000_0000_0000_0000, 0x1_0000_0000_0000_0000);
            lemma_clip64_id(a + b - 0x1_0000_0000_0000_0000);
        }
    }
    a.wrapping_add(b)
}

/// Whether `a < b` when both are read as two's-complement values.
pub open spec fn slt(a: u32, b: u32) -> bool {
    s32(a) < s32(b)
}

pub fn signed_lt(a: u32, b: u32) -> (r: bool)
    ensures
        r == slt(a, b),
{
    if (a >= 0x8000_0000) == (b >= 0x8000_0000) {
        a < b
    } else {
        a >= 0x8000_0000
    }
}

/// A byte sign-extended to a 32-bit word.
pub open spec fn sext8(v: u8) -> u32 {
    if v >= 0x80 {
        (v + 0xffff_ff00) as u32
    } else {
        v as u32
    }
}

pub fn sign_extend8(v: u8) -> (r: u32)
    ensures
        r == sext8(v),
{
    if v >= 0x80 {
        v as u32 + 0xffff_ff00
    } else {
        v as u32
    }
}

/// A half-word sign-extended to a 32-bit word.
pub open spec fn sext16(v: u16) -> u32 {
    if v >= 0x8000 {
        (v + 0xffff_0000) as u32
    } else {
        v as u32
    }
}

pub fn sign_extend16(v: u16) -> (r: u32)
    ensures
        r == sext16(v),
{
    if v >= 0x8000 {
        v as u32 + 0xffff_0000
    } else {
        v as u32
    }
}

/// The half-word stored little-endian as bytes `b0`, `b1`.
pub open spec fn le16(b0: u8, b1: u8) -> u16 {
    (b0 + b1 * 0x100) as u16
}

/// The word stored little-endian as bytes `b0` through `b3`.
pub open spec fn le32(b0: u8, b1: u8, b2: u8, b3: u8) -> u32 {
    (b0 + b1 * 0x100 + b2 * 0x1_0000 + b3 * 0x100_0000) as u32
}

pub fn word_from_le16(b0: u8, b1: u8) -> (r: u16)
    ensures
        r == le16(b0, b1),
{
    b0 as u16 + b1 as u16 * 0x100
}

pub fn word_from_le32(b0: u8, b1: u8, b2: u8, b3: u8) -> (r: u32)
    ensures
        r == le32(b0, b1, b2, b3),
{
    b0 as u32 + b1 as u32 * 0x100 + b2 as u32 * 0x1_0000 + b3 as u32 * 0x100_0000
}

/// Byte `i` (0-based, little-endian) of a 32-bit word.
pub open spec fn byte32(v: u32, i: int) -> u8 {
    if i == 0 {
        (v % 0x100) as u8
    } else if i == 1 {
        ((v / 0x100) % 0x100) as u8
    } else if i == 2 {
        ((v / 0x1_0000) % 0x100) as u8
    } else {
        ((v / 0x100_0000) % 0x100) as u8
    }
}

pub fn byte_of32(v: u32, i: usize) -> (r: u8)
    requires
        i < 4,
    ensures
        r == byte32(v, i as int),
{
    if i == 0 {
        (v % 0x100) as u8
    } else if i == 1 {
        ((v / 0x100) % 0x100) as u8
    } else if i == 2 {
        ((v / 0x1_0000) % 0x100) as u8
    } else {
        ((v / 0x100_0000) % 0x100) as u8
    }
}

/// Little-endian byte split and recomposition of a half-word is the identity.
pub proof fn lemma_le16_roundtrip(v: u16)
    ensures
        le16(byte32(v as u32, 0), byte32(v as u32, 1)) == v,
{
    lemma_fundamental_div_mod(v as int, 0x100);
    lemma_small_mod((v as int / 0x100) as nat, 0x100);
}

/// Little-endian byte split and recomposition of a word is the identity.
pub proof fn lemma_le32_roundtrip(v: u32)
    ensures
        le32(byte32(v, 0), byte32(v, 1), byte32(v, 2), byte32(v, 3)) == v,
{
    lemma_fundamental_div_mod(v as int, 0x100);
    lemma_fundamental_div_mod(v as int / 0x100, 0x100);
    lemma_fundamental_div_mod(v as int / 0x1_0000, 0x100);
    lemma_small_mod((v as int / 0x100_0000) as nat, 0x100);
    assert(v as int / 0x100 / 0x100 == v as int / 0x1_0000) by {
        vstd::arithmetic::div_mod::lemma_div_denominator(v as int, 0x100, 0x100);
    }
    assert(v as int / 0x1_0000 / 0x100 == v as int / 0x100_0000) by {
        vstd::arithmetic::div_mod::lemma_div_denominator(v as int, 0x1_0000, 0x100);
    }
}

/// Division rounding toward zero, as RISC-V and two's-complement hardware do.
pub open spec fn div_toward_zero(x: int, y: int) -> int {
    if (x < 0) == (y < 0) {
        abs(x) as int / abs(y) as int
    } else {
        -(abs(x) as int / abs(y) as int)
    }
}

/// Remainder matching `div_toward_zero`: it carries the dividend's sign.
pub open spec fn rem_toward_zero(x: int, y: int) -> int {
    if x < 0 {
        -(abs(x) as int % abs(y) as int)
    } else {
        abs(x) as int % abs(y) as int
    }
}

/// DIV: signed division; all-ones on a zero divisor, and INT_MIN on the
/// overflowing INT_MIN / -1 (via reduction modulo 2^32).
pub open spec fn div_rv(a: u32, b: u32) -> u32 {
    if b == 0 {
        0xffff_ffff
    } else {
        clip32(div_toward_zero(s32(a), s32(b)))
    }
}

/// DIVU: unsigned division; all-ones on a zero divisor.
pub open spec fn divu_rv(a: u32, b: u32) -> u32 {
    if b == 0 {
        0xffff_ffff
    } else {
        a / b
    }
}

/// REM: signed remainder; the dividend on a zero divisor, 0 on INT_MIN / -1.
pub open spec fn rem_rv(a: u32, b: u32) -> u32 {
    if b == 0 {
        a
    } else {
        clip32(rem_toward_zero(s32(a), s32(b)))
    }
}

/// REMU: unsigned remainder; the dividend on a zero divisor.
pub open spec fn remu_rv(a: u32, b: u32) -> u32 {
    if b == 0 {
        a
    } else {
        a % b
    }
}

/// The magnitude of `s32(a)` as an unsigned word.
fn magnitude(a: u32) -> (r: u32)
    ensures
        r == abs(s32(a)),
{
    if a >= 0x8000_0000 {
        proof {
            lemma_clip32_neg(0 - a);
        }
        wsub(0, a)
    } else {
        a
    }
}

pub fn div_signed(a: u32, b: u32) -> (r: u32)
    ensures
        r == div_rv(a, b),
{
    if b == 0 {
        return 0xffff_ffff;
    }
    let ua = magnitude(a);
    let ub = magnitude(b);
    let q = ua / ub;
    if (a >= 0x8000_0000) == (b >= 0x8000_0000) {
        proof {
            lemma_clip32_id(q as int);
        }
        q
    } else {
        wsub(0, q)
    }
}

pub fn rem_signed(a: u32, b: u32) -> (r: u32)
    ensures
        r == rem_rv(a, b),
{
    if b == 0 {
        return a;
    }
    let ua = magnitude(a);
    let ub = magnitude(b);
    let m = ua % ub;
    if a >= 0x8000_0000 {
        wsub(0, m)
    } else {
        proof {
            lemma_clip32_id(m as int);
        }
        m
    }
}

/// MULH: the high word of the signed 64-bit product.
pub open spec fn mulh_ss(a: u32, b: u32) -> u32 {
    clip32((s32(a) * s32(b)) / 0x1_0000_0000)
}

/// MULHSU: the high word of the product of signed `a` and unsigned `b`.
pub open spec fn mulh_su(a: u32, b: u32) -> u32 {
    clip32((s32(a) * b) / 0x1_0000_0000)
}

/// MULHU: the high word of the unsigned 64-bit product.
pub open spec fn mulh_uu(a: u32, b: u32) -> u32 {
    clip32((a * b) / 0x1_0000_0000)
}

/// MUL: the low word of the product (the same for either signedness).
pub open spec fn mul_low(a: u32, b: u32) -> u32 {
    clip32(s32(a) * s32(b))
}

/// The 64-bit two's-complement pattern of `s32(a)`.
fn to_pattern64(a: u32) -> (r: u64)
    ensures
        r == clip64(s32(a)),
{
    if a >= 0x8000_0000 {
        proof {
            lemma_clip64_neg(s32(a));
        }
        a as u64 + 0xffff_ffff_0000_0000
    } else {
        proof {
            lemma_clip64_id(s32(a));
        }
        a as u64
    }
}

/// The word in bits 32..64 of the 64-bit pattern of `p`, which is the
/// reduction modulo 2^32 of `p / 2^32`.
proof fn lemma_hi32(p: int, q: u64)
    requires
        q == clip64(p),
    ensures
        q >> 32 == clip32(p / 0x1_0000_0000),
{
    assert(q >> 32 == q / 0x1_0000_0000 && q >> 32 < 0x1_0000_0000) by (bit_vector);
    let d: int = 0x1_0000_0000;
    let whole: int = p / (d * d);
    let rest: int = p % (d * d);
    lemma_fundamental_div_mod(p, d * d);
    assert(p == (d * d) * whole + rest);
    lemma_hoist_over_denominator(rest, whole * d, d as nat);
    assert(rest / d + whole * d == (rest + whole * d * d) / d);
    assert(whole * d * d == (d * d) * whole) by (nonlinear_arith);
    assert(p / d == rest / d + whole * d);
    lemma_mod_multiples_vanish(whole, rest / d, d);
    assert((d * whole + rest / d) % d == (rest / d) % d);
    assert(rest / d + whole * d == d * whole + rest / d);
    assert(rest / d < d) by {
        lemma_fundamental_div_mod(rest, d);
        assert(rest == d * (rest / d) + rest % d);
        assert(rest / d >= d ==> rest >= d * d) by (nonlinear_arith)
            requires
                rest == d * (rest / d) + rest % d && rest % d >= 0 && d == 0x1_0000_0000,
        ;
    }
    lemma_small_mod((rest / d) as nat, d as nat);
    assert(clip32(p / d) == rest / d);
    assert(q == rest);
}

fn mulh_core(pa: u64, pb: u64) -> (r: u32)
    ensures
        r == clip32((s64(pa) * s64(pb)) / 0x1_0000_0000),
{
    let p = pa.wrapping_mul(pb);
    proof {
        assert(p as int == (pa as int * pb as int) % 0x1_0000_0000_0000_0000);
        lemma_mul64_pattern(pa, pb, p);
        lemma_hi32(s64(pa) * s64(pb), p);
        assert(p >> 32 < 0x1_0000_0000) by (bit_vector);
    }
    (p >> 32) as u32
}

/// The value of `x` read as a two's-complement signed 64-bit integer.
pub open spec fn s64(x: u64) -> int {
    if x >= 0x8000_0000_0000_0000 {
        x - 0x1_0000_0000_0000_0000
    } else {
        x as int
    }
}

proof fn lemma_s64_clip64(x: u64)
    ensures
        clip64(s64(x)) == x,
{
    if x >= 0x8000_0000_0000_0000 {
        lemma_clip64_neg(s64(x));
    } else {
        lemma_clip64_id(s64(x));
    }
}

proof fn lemma_mul64_pattern(pa: u64, pb: u64, p: u64)
    requires
        p as int == (pa as int * pb as int) % 0x1_0000_0000_0000_0000,
    ensures
        p == clip64(s64(pa) * s64(pb)),
{
    let m: int = 0x1_0000_0000_0000_0000;
    lemma_mul_mod_noop_general(s64(pa), s64(pb), m);
    lemma_s64_clip64(pa);
    lemma_s64_clip64(pb);
    assert((s64(pa) % m) * (s64(pb) % m) == pa as int * pb as int);
    lemma_mul_mod_noop_general(pa as int, pb as int, m);
}

pub fn mulh_signed(a: u32, b: u32) -> (r: u32)
    ensures
        r == mulh_ss(a, b),
{
    let pa = to_pattern64(a);
    let pb = to_pattern64(b);
    proof {
        lemma_pattern_s64(a);
        lemma_pattern_s64(b);
    }
    mulh_core(pa, pb)
}

pub fn mulh_signed_unsigned(a: u32, b: u32) -> (r: u32)
    ensures
        r == mulh_su(a, b),
{
    let pa = to_pattern64(a);
    let pb = b as u64;
    proof {
        lemma_pattern_s64(a);
    }
    mulh_core(pa, pb)
}

pub fn mulh_unsigned(a: u32, b: u32) -> (r: u32)
    ensures
        r == mulh_uu(a, b),
{
    mulh_core(a as u64, b as u64)
}

/// The 64-bit pattern of a signed 32-bit value reads back as that value.
proof fn lemma_pattern_s64(a: u32)
    ensures
        s64(clip64(s32(a))) == s32(a),
{
    if a >= 0x8000_0000 {
        lemma_clip64_neg(s32(a));
    } else {
        lemma_clip64_id(s32(a));
    }
}

pub fn mul_low_exec(a: u32, b: u32) -> (r: u32)
    ensures
        r == mul_low(a, b),
{
    let r = a.wrapping_mul(b);
    proof {
        let m: int = 0x1_0000_0000;
        lemma_mul_mod_noop_general(s32(a), s32(b), m);
        if a >= 0x8000_0000 {
            lemma_clip32_neg(s32(a));
        } else {
            lemma_clip32_id(s32(a));
        }
        if b >= 0x8000_0000 {
            lemma_clip32_neg(s32(b));
        } else {
            lemma_clip32_id(s32(b));
        }
        assert((s32(a) % m) * (s32(b) % m) == a as int * b as int);
        lemma_mul_mod_noop_general(a as int, b as int, m);
    }
    r
}

/// Arithmetic right shift: the sign bit fills the vacated positions.
pub open spec fn sra32(a: u32, sh: u32) -> u32
    recommends
        sh < 32,
{
    if a < 0x8000_0000 {
        a >> sh
    } else {
        (a >> sh) | !(0xffff_ffffu32 >> sh)
    }
}

pub fn shift_right_arithmetic(a: u32, sh: u32) -> (r: u32)
    requires
        sh < 32,
    ensures
        r == sra32(a, sh),
{
    if a < 0x8000_0000 {
        a >> sh
    } else {
        (a >> sh) | !(0xffff_ffffu32 >> sh)
    }
}

// The functions below give access to the 32-bit halves of a 64-bit register,
// as the memory-mapped timer exposes them.

/// The low 32-bit half of a 64-bit register.
pub open spec fn lo32(x: u64) -> u32 {
    (x % 0x1_0000_0000) as u32
}

/// The high 32-bit half of a 64-bit register.
pub open spec fn hi32(x: u64) -> u32 {
    (x / 0x1_0000_0000) as u32
}

/// `x` with its low half replaced by `v`.
pub open spec fn set_lo32(x: u64, v: u32) -> u64 {
    ((x / 0x1_0000_0000) * 0x1_0000_0000 + v) as u64
}

/// `x` with its high half replaced by `v`.
pub open spec fn set_hi32(x: u64, v: u32) -> u64 {
    (x % 0x1_0000_0000 + v * 0x1_0000_0000) as u64
}

pub proof fn lemma_hi32_bound(x: u64)
    ensures
        x / 0x1_0000_0000 < 0x1_0000_0000,
{
    lemma_multiply_divide_lt(x as int, 0x1_0000_0000, 0x1_0000_0000);
}

pub fn half_lo(x: u64) -> (r: u32)
    ensures
        r == lo32(x),
{
    (x % 0x1_0000_0000) as u32
}

pub fn half_hi(x: u64) -> (r: u32)
    ensures
        r == hi32(x),
{
    proof {
        lemma_hi32_bound(x);
    }
    (x / 0x1_0000_0000) as u32
}

pub fn with_lo(x: u64, v: u32) -> (r: u64)
    ensures
        r == set_lo32(x, v),
{
    proof {
        lemma_hi32_bound(x);
    }
    (x / 0x1_0000_0000) * 0x1_0000_0000 + v as u64
}

pub fn with_hi(x: u64, v: u32) -> (r: u64)
    ensures
        r == set_hi32(x, v),
{
    x % 0x1_0000_0000 + v as u64 * 0x1_0000_0000
}

/// Reducing modulo 2^32 before adding `y` gives the same word as adding
/// first.
pub proof fn lemma_clip32_add(x: int, y: u32)
    ensures
        clip32(clip32(x) + y) == clip32(x + y),
{
    lemma_small_mod(y as nat, 0x1_0000_0000);
    vstd::arithmetic::div_mod::lemma_add_mod_noop(x, y as int, 0x1_0000_0000);
}

/// Reducing modulo 2^32 before subtracting `y` gives the same word as
/// subtracting first.
pub proof fn lemma_clip32_sub(x: int, y: u32)
    ensures
        clip32(clip32(x) - y) == clip32(x - y),
{
    lemma_small_mod(y as nat, 0x1_0000_0000);
    vstd::arithmetic::div_mod::lemma_sub_mod_noop(x, y as int, 0x1_0000_0000);
}

} // verus!
