//! Word arithmetic that the executors share: two's-complement readings of a
//! word, extension of narrow values, and the multiply and divide primitives.
use vstd::prelude::*;

verus! {

/// The number that `x` stands for in two's complement.
pub open spec fn signed(x: u32) -> int {
    if x >= 0x8000_0000 {
        x - 0x1_0000_0000
    } else {
        x as int
    }
}

/// The word that stands for `i` in two's complement: `i` modulo `2^32`.
pub open spec fn to_word(i: int) -> u32 {
    (i % 0x1_0000_0000) as u32
}

/// The byte `v` sign-extended to a word.
pub open spec fn sext8(v: u8) -> u32 {
    if v >= 0x80 {
        (0xFFFF_FF00 + v) as u32
    } else {
        v as u32
    }
}

/// The half-word `v` sign-extended to a word.
pub open spec fn sext16(v: u16) -> u32 {
    if v >= 0x8000 {
        (0xFFFF_0000 + v) as u32
    } else {
        v as u32
    }
}

/// `x` shifted right by `shamt` bits, the sign bit filling in from the left.
pub open spec fn spec_sra(x: u32, shamt: u32) -> u32 {
    ((x as i32) >> shamt) as u32
}

/// Bits `[63:32]` of the 64-bit two's-complement representation of `p`.
pub open spec fn high_word(p: int) -> u32 {
    ((p / 0x1_0000_0000) % 0x1_0000_0000) as u32
}

/// The quotient of `a` by `b`, rounded towards zero; `b` is not zero.
pub open spec fn trunc_div(a: int, b: int) -> int {
    if a >= 0 && b > 0 {
        a / b
    } else if a >= 0 {
        -(a / (-b))
    } else if b > 0 {
        -((-a) / b)
    } else {
        (-a) / (-b)
    }
}

/// The remainder of `a` by `b` that goes with `trunc_div`: it has the sign
/// of `a` and the magnitude of `|a|` modulo `|b|`; `b` is not zero.
pub open spec fn trunc_rem(a: int, b: int) -> int {
    if a >= 0 && b > 0 {
        a % b
    } else if a >= 0 {
        a % (-b)
    } else if b > 0 {
        -((-a) % b)
    } else {
        -((-a) % (-b))
    }
}

/// The low word of the product.
pub open spec fn spec_mul(a: u32, b: u32) -> u32 {
    to_word(a * b)
}

/// The high word of the product of two signed words.
pub open spec fn spec_mulh(a: u32, b: u32) -> u32 {
    high_word(signed(a) * signed(b))
}

/// The high word of the product of a signed and an unsigned word.
pub open spec fn spec_mulhsu(a: u32, b: u32) -> u32 {
    high_word(signed(a) * b)
}

/// The high word of the product of two unsigned words.
pub open spec fn spec_mulhu(a: u32, b: u32) -> u32 {
    high_word(a * b)
}

/// The signed quotient: all ones for a zero divisor, the dividend where the
/// quotient of the least integer by minus one overflows.
pub open spec fn spec_div(a: u32, b: u32) -> u32 {
    if b == 0 {
        0xFFFF_FFFF
    } else if a == 0x8000_0000 && b == 0xFFFF_FFFF {
        a
    } else {
        to_word(trunc_div(signed(a), signed(b)))
    }
}

/// The unsigned quotient: all ones for a zero divisor.
pub open spec fn spec_divu(a: u32, b: u32) -> u32 {
    if b == 0 {
        0xFFFF_FFFF
    } else {
        a / b
    }
}

/// The signed remainder: the dividend for a zero divisor, zero where the
/// quotient overflows.
pub open spec fn spec_rem(a: u32, b: u32) -> u32 {
    if b == 0 {
        a
    } else if a == 0x8000_0000 && b == 0xFFFF_FFFF {
        0
    } else {
        to_word(trunc_rem(signed(a), signed(b)))
    }
}

/// The unsigned remainder: the dividend for a zero divisor.
pub open spec fn spec_remu(a: u32, b: u32) -> u32 {
    if b == 0 {
        a
    } else {
        a % b
    }
}

/// Casts between the signed and unsigned readings of a word, and from the
/// narrow signed types, keep the two's-complement value.
proof fn lemma_casts(x: u32, h: u16, b: u8)
    by (bit_vector)
    ensures
        (x as i32) as int == (if x >= 0x8000_0000 {
            x - 0x1_0000_0000
        } else {
            x as int
        }),
        ((b as i8) as i32) as u32 == (if b >= 0x80 {
            0xFFFF_FF00u32 + b
        } else {
            b as int
        }),
        ((h as i16) as i32) as u32 == (if h >= 0x8000 {
            0xFFFF_0000u32 + h
        } else {
            h as int
        }),
{
}

/// A signed word read as unsigned is the word that stands for it.
proof fn lemma_unsigned(i: i32)
    by (bit_vector)
    ensures
        i < 0 ==> (i as u32) as int == (i as int) + 0x1_0000_0000int,
        i >= 0 ==> (i as u32) as int == i as int,
{
}

/// The upper half of a signed 64-bit product, by shifting.
proof fn lemma_high_word(p: i64)
    by (bit_vector)
    ensures
        ((p >> 32) as u32) as int == ((p as int) / 0x1_0000_0000) % 0x1_0000_0000,
{
}

/// Reads `x` as a signed number.
pub fn as_signed(x: u32) -> (r: i32)
    ensures
        r as int == signed(x),
{
    proof {
        lemma_casts(x, 0, 0);
    }
    x as i32
}

/// The word that stands for `i`.
pub fn as_word(i: i32) -> (r: u32)
    ensures
        r == to_word(i as int),
        signed(r) == i,
{
    proof {
        lemma_unsigned(i);
    }
    i as u32
}

/// Sign-extends a byte.
pub fn sign_extend_byte(v: u8) -> (r: u32)
    ensures
        r == sext8(v),
{
    proof {
        lemma_casts(0, 0, v);
    }
    v as i8 as i32 as u32
}

/// Sign-extends a half-word.
pub fn sign_extend_half(v: u16) -> (r: u32)
    ensures
        r == sext16(v),
{
    proof {
        lemma_casts(0, v, 0);
    }
    v as i16 as i32 as u32
}

/// Shifts right arithmetically.
pub fn sra(x: u32, shamt: u32) -> (r: u32)
    requires
        shamt < 32,
    ensures
        r == spec_sra(x, shamt),
{
    ((x as i32) >> shamt) as u32
}

/// Whether `a` is less than `b`, both read as signed.
pub fn less_signed(a: u32, b: u32) -> (r: bool)
    ensures
        r == (signed(a) < signed(b)),
{
    as_signed(a) < as_signed(b)
}

/// The product of two magnitudes below `2^32` fits 63 bits.
proof fn lemma_product_bound(a: int, b: int)
    requires
        -0x8000_0000 <= a < 0x1_0000_0000,
        -0x8000_0000 <= b < 0x1_0000_0000,
    ensures
        -0x8000_0000_0000_0000 < a * b < 0x1_0000_0000_0000_0000,
        a < 0x8000_0000 ==> a * b < 0x8000_0000_0000_0000,
        a >= 0 && b >= 0 ==> a * b >= 0,
{
    assert(-0x8000_0000_0000_0000 < a * b < 0x1_0000_0000_0000_0000 && (a < 0x8000_0000 ==> a * b
        < 0x8000_0000_0000_0000) && (a >= 0 && b >= 0 ==> a * b >= 0)) by (nonlinear_arith)
        requires
            -0x8000_0000 <= a < 0x1_0000_0000,
            -0x8000_0000 <= b < 0x1_0000_0000,
    ;
}

/// The low word of the product.
pub fn mul_low(a: u32, b: u32) -> (r: u32)
    ensures
        r == spec_mul(a, b),
{
    proof {
        lemma_product_bound(a as int, b as int);
    }
    let p = (a as u64) * (b as u64);
    assert((p as u32) as u64 == p % 0x1_0000_0000) by (bit_vector);
    p as u32
}

/// The high word of the signed product.
pub fn mulh(a: u32, b: u32) -> (r: u32)
    ensures
        r == spec_mulh(a, b),
{
    let x = as_signed(a) as i64;
    let y = as_signed(b) as i64;
    proof {
        lemma_product_bound(x as int, y as int);
    }
    let p = x * y;
    proof {
        lemma_high_word(p);
    }
    (p >> 32) as u32
}

/// The high word of the product of signed `a` and unsigned `b`.
pub fn mulhsu(a: u32, b: u32) -> (r: u32)
    ensures
        r == spec_mulhsu(a, b),
{
    let x = as_signed(a) as i64;
    let y = b as i64;
    proof {
        lemma_product_bound(x as int, y as int);
    }
    let p = x * y;
    proof {
        lemma_high_word(p);
    }
    (p >> 32) as u32
}

/// The high word of the unsigned product.
pub fn mulhu(a: u32, b: u32) -> (r: u32)
    ensures
        r == spec_mulhu(a, b),
{
    proof {
        lemma_product_bound(a as int, b as int);
    }
    let p = (a as u64) * (b as u64);
    assert(p >> 32 == p / 0x1_0000_0000) by (bit_vector);
    (p >> 32) as u32
}

/// The magnitude of `x` read as signed.
fn magnitude(x: u32) -> (r: u32)
    ensures
        r as int == (if signed(x) < 0 {
            -signed(x)
        } else {
            signed(x)
        }),
{
    if x >= 0x8000_0000 {
        0u32.wrapping_sub(x)
    } else {
        x
    }
}

/// The signed quotient.
pub fn div(a: u32, b: u32) -> (r: u32)
    ensures
        r == spec_div(a, b),
{
    if b == 0 {
        return u32::MAX;
    }
    let (ma, mb) = (magnitude(a), magnitude(b));
    let q = ma / mb;
    assert(0 <= ma as int / mb as int <= ma && (mb == 1 ==> ma as int / mb as int == ma))
        by (nonlinear_arith)
        requires
            0 <= ma,
            0 < mb,
    ;
    if (a >= 0x8000_0000) != (b >= 0x8000_0000) {
        0u32.wrapping_sub(q)
    } else {
        q
    }
}

/// The unsigned quotient.
pub fn divu(a: u32, b: u32) -> (r: u32)
    ensures
        r == spec_divu(a, b),
{
    if b == 0 {
        u32::MAX
    } else {
        a / b
    }
}

/// The signed remainder.
pub fn rem(a: u32, b: u32) -> (r: u32)
    ensures
        r == spec_rem(a, b),
{
    if b == 0 {
        return a;
    }
    let m = magnitude(a) % magnitude(b);
    if a >= 0x8000_0000 {
        0u32.wrapping_sub(m)
    } else {
        m
    }
}

/// The unsigned remainder.
pub fn remu(a: u32, b: u32) -> (r: u32)
    ensures
        r == spec_remu(a, b),
{
    if b == 0 {
        a
    } else {
        a % b
    }
}

} // verus!
