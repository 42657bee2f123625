//! Whole numbers out of IEEE 754 binary64 bit patterns.
//!
//! A binary64 number is a sign bit, eleven bits of biased exponent and
//! fifty-two bits of fraction. Converting one to an integer type drops what
//! follows the point, takes the nearest bound of the type where the number
//! lies outside it, and gives zero for what is not a number.

use vstd::prelude::*;
use vstd::arithmetic::power2::{
    lemma2_to64, lemma2_to64_rest, lemma_pow2_adds, lemma_pow2_pos, lemma_pow2_strictly_increases,
    pow2,
};
use vstd::bits::{lemma_u64_shl_is_mul, lemma_u64_shr_is_div};

verus! {

/// Two to the power fifty-two: the weight of the implicit leading bit.
pub const HIDDEN_BIT: u64 = 0x10_0000_0000_0000;

/// The least bit pattern with the sign bit set.
pub const SIGN_BIT: u64 = 0x8000_0000_0000_0000;

/// The biased exponent of the pattern.
pub open spec fn exponent(bits: u64) -> nat {
    ((bits / HIDDEN_BIT) % 0x800) as nat
}

/// The fraction bits of the pattern.
pub open spec fn fraction(bits: u64) -> nat {
    (bits % HIDDEN_BIT) as nat
}

/// Whether the sign bit is set.
pub open spec fn negative(bits: u64) -> bool {
    bits >= SIGN_BIT
}

/// Whether the pattern is not a number.
pub open spec fn is_nan(bits: u64) -> bool {
    exponent(bits) == 0x7ff && fraction(bits) != 0
}

/// The magnitude of the number with what follows the point dropped. An
/// infinity counts as a magnitude beyond every integer type.
pub open spec fn whole_magnitude(bits: u64) -> int {
    let e = exponent(bits);
    let significand = fraction(bits) + HIDDEN_BIT;
    if e < 1023 {
        0
    } else if e < 1075 {
        significand / (pow2((1075 - e) as nat) as int)
    } else {
        significand * pow2((e - 1075) as nat)
    }
}

/// The number rounded toward zero; zero for what is not a number.
pub open spec fn truncated(bits: u64) -> int {
    if is_nan(bits) {
        0
    } else if negative(bits) {
        -whole_magnitude(bits)
    } else {
        whole_magnitude(bits)
    }
}

/// `v`, or the nearer of `lo` and `hi` where `v` lies outside them.
pub open spec fn clamp(v: int, lo: int, hi: int) -> int {
    if v < lo {
        lo
    } else if v > hi {
        hi
    } else {
        v
    }
}

/// The magnitude with what follows the point dropped, where it is below two to
/// the power `limit`; nothing where it is not.
fn magnitude_below(bits: u64, limit: u64) -> (r: Option<u64>)
    requires
        52 < limit <= 64,
    ensures
        match r {
            Some(m) => m == whole_magnitude(bits) && m < pow2(limit as nat),
            None => whole_magnitude(bits) >= pow2(limit as nat),
        },
{
    let e: u64 = (bits / HIDDEN_BIT) % 0x800;
    let significand: u64 = bits % HIDDEN_BIT + HIDDEN_BIT;
    proof {
        lemma2_to64();
        lemma2_to64_rest();
        lemma_pow2_strictly_increases(52, limit as nat);
    }
    if e < 1023 {
        Some(0)
    } else if e < 1075 {
        let shift: u64 = 1075 - e;
        proof {
            lemma_pow2_pos(shift as nat);
            lemma_u64_shr_is_div(significand, shift);
            lemma_small_quotient(significand as nat, pow2(shift as nat));
        }
        Some(significand >> shift)
    } else if e - 1075 + 53 <= limit {
        let shift: u64 = e - 1075;
        proof {
            lemma_scaled_below(significand as nat, shift as nat, limit as nat);
            if limit < 64 {
                lemma_pow2_strictly_increases(limit as nat, 64);
            }
            lemma_u64_shl_is_mul(significand, shift);
        }
        Some(significand << shift)
    } else {
        proof {
            lemma_scaled_beyond(significand as nat, (e - 1075) as nat, limit as nat);
        }
        None
    }
}

proof fn lemma_small_quotient(a: nat, d: nat)
    requires
        d > 0,
    ensures
        a / d <= a,
{
    vstd::arithmetic::div_mod::lemma_div_is_ordered_by_denominator(a as int, 1, d as int);
}

proof fn lemma_scaled_below(significand: nat, shift: nat, limit: nat)
    requires
        significand < pow2(53),
        shift + 53 <= limit,
    ensures
        significand * pow2(shift) < pow2(limit),
{
    lemma_pow2_adds(53, shift);
    if shift + 53 < limit {
        lemma_pow2_strictly_increases(shift + 53, limit);
    }
    lemma_pow2_pos(shift);
    assert(significand * pow2(shift) < pow2(53) * pow2(shift)) by (nonlinear_arith)
        requires
            significand < pow2(53),
            pow2(shift) > 0,
    ;
}

proof fn lemma_scaled_beyond(significand: nat, shift: nat, limit: nat)
    requires
        significand >= pow2(52),
        shift + 52 >= limit,
    ensures
        significand * pow2(shift) >= pow2(limit),
{
    lemma_pow2_adds(52, shift);
    if shift + 52 > limit {
        lemma_pow2_strictly_increases(limit, shift + 52);
    }
    lemma_pow2_pos(shift);
    assert(significand * pow2(shift) >= pow2(52) * pow2(shift)) by (nonlinear_arith)
        requires
            significand >= pow2(52),
            pow2(shift) > 0,
    ;
}

/// The magnitude is never below zero.
pub proof fn lemma_whole_magnitude_nonnegative(bits: u64)
    ensures
        whole_magnitude(bits) >= 0,
{
    let e = exponent(bits);
    let significand = fraction(bits) + HIDDEN_BIT;
    if e < 1023 {
    } else if e < 1075 {
        let d = pow2((1075 - e) as nat) as int;
        lemma_pow2_pos((1075 - e) as nat);
        assert(significand / d >= 0) by (nonlinear_arith)
            requires
                significand >= 0,
                d > 0,
        ;
    } else {
        let p = pow2((e - 1075) as nat) as int;
        assert(significand * p >= 0) by (nonlinear_arith)
            requires
                significand >= 0,
                p >= 0,
        ;
    }
}

/// The number as an unsigned 64-bit integer.
pub fn truncate_to_u64(bits: u64) -> (r: u64)
    ensures
        r == clamp(truncated(bits), 0, u64::MAX as int),
{
    let e: u64 = (bits / HIDDEN_BIT) % 0x800;
    let f: u64 = bits % HIDDEN_BIT;
    proof {
        lemma2_to64();
        lemma_whole_magnitude_nonnegative(bits);
    }
    if (e == 0x7ff && f != 0) || bits >= SIGN_BIT {
        return 0;
    }
    match magnitude_below(bits, 64) {
        Some(m) => m,
        None => u64::MAX,
    }
}

/// The number as a signed 64-bit integer.
pub fn truncate_to_i64(bits: u64) -> (r: i64)
    ensures
        r == clamp(truncated(bits), i64::MIN as int, i64::MAX as int),
{
    let e: u64 = (bits / HIDDEN_BIT) % 0x800;
    let f: u64 = bits % HIDDEN_BIT;
    if e == 0x7ff && f != 0 {
        return 0;
    }
    proof {
        lemma2_to64_rest();
        lemma_whole_magnitude_nonnegative(bits);
    }
    match magnitude_below(bits, 63) {
        Some(m) => {
            if bits >= SIGN_BIT {
                0 - (m as i64)
            } else {
                m as i64
            }
        },
        None => {
            if bits >= SIGN_BIT {
                i64::MIN
            } else {
                i64::MAX
            }
        },
    }
}

/// The number as an unsigned 32-bit integer.
pub fn truncate_to_u32(bits: u64) -> (r: u32)
    ensures
        r == clamp(truncated(bits), 0, u32::MAX as int),
{
    let wide: u64 = truncate_to_u64(bits);
    if wide > 0xffff_ffff {
        u32::MAX
    } else {
        wide as u32
    }
}

/// The number as a signed 32-bit integer.
pub fn truncate_to_i32(bits: u64) -> (r: i32)
    ensures
        r == clamp(truncated(bits), i32::MIN as int, i32::MAX as int),
{
    let wide: i64 = truncate_to_i64(bits);
    if wide > 0x7fff_ffff {
        i32::MAX
    } else if wide < -0x8000_0000 {
        i32::MIN
    } else {
        wide as i32
    }
}

} // verus!
