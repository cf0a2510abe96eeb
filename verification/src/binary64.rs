//! Double-precision numbers read from their bit pattern.
//!
//! The overlay takes two kinds of fractional input: a level between 0 and 1
//! and a scale factor of 1 or more. Both reach the library as the 64 bits of
//! an IEEE 754 double, and are turned into integers here by exact arithmetic
//! on sign, exponent and fraction.

use crate::geometry::{round_div, round_div_u128};
use vstd::arithmetic::power2::{lemma_pow2_pos, lemma_pow2_strictly_increases, lemma_pow2_unfold, lemma2_to64, lemma2_to64_rest, pow2};
use vstd::prelude::*;

verus! {

/// The level that stands for 1.0, in thousandths.
pub const LEVEL_FULL: u32 = 1000;

/// Exponent field of 1.0.
pub const EXPONENT_ONE: u64 = 1023;

/// Exponent field at which the significand counts units.
pub const EXPONENT_UNIT: u64 = 1075;

/// 2 to the power 52.
pub const FRACTION_RANGE: u64 = 0x10_0000_0000_0000;

/// Whether the sign bit is set.
pub open spec fn sign_bit(bits: u64) -> bool {
    bits >= 0x8000_0000_0000_0000
}

/// The eleven exponent bits.
pub open spec fn exponent_field(bits: u64) -> int {
    (bits as int / 0x10_0000_0000_0000) % 2048
}

/// The 52 fraction bits.
pub open spec fn fraction_field(bits: u64) -> int {
    bits as int % 0x10_0000_0000_0000
}

/// Whether the pattern encodes a NaN.
pub open spec fn is_nan(bits: u64) -> bool {
    exponent_field(bits) == 2047 && fraction_field(bits) != 0
}

/// The integer significand: the fraction, with the hidden bit for every
/// pattern whose exponent field is not zero.
pub open spec fn significand(bits: u64) -> int {
    if exponent_field(bits) == 0 {
        fraction_field(bits)
    } else {
        0x10_0000_0000_0000 + fraction_field(bits)
    }
}

/// The level in thousandths that a double stands for: the number is held to
/// `[0, 1]`, multiplied by 1000 and rounded to the nearest integer. A NaN and
/// every number with the sign bit set count as 0.
///
/// A number below 1 has the magnitude `significand / 2^(1075 - e)`, where `e`
/// is its exponent field, or 1 for a subnormal.
pub open spec fn level_millis(bits: u64) -> int {
    let e = exponent_field(bits);
    if is_nan(bits) || sign_bit(bits) {
        0
    } else if e >= 1023 {
        1000
    } else {
        round_div(significand(bits) * 1000, pow2((1075 - if e == 0 { 1 } else { e }) as nat) as int)
    }
}

/// A length multiplied by a scale factor that is floored at 1, rounded to the
/// nearest integer. A NaN, a negative factor and a factor below 1 all scale
/// by 1. Infinity follows the formula of the finite numbers with its exponent
/// field of 2047.
pub open spec fn scaled(length: int, bits: u64) -> int {
    let e = exponent_field(bits);
    if is_nan(bits) || sign_bit(bits) || e < 1023 {
        length
    } else if e <= 1075 {
        round_div(length * significand(bits), pow2((1075 - e) as nat) as int)
    } else {
        length * significand(bits) * pow2((e - 1075) as nat)
    }
}

/// A number held to the range of `i32`.
pub open spec fn clamp_i32(v: int) -> int {
    if v < i32::MIN {
        i32::MIN as int
    } else if v > i32::MAX {
        i32::MAX as int
    } else {
        v
    }
}

/// 2 to the power `n`.
pub fn pow2_u128(n: u32) -> (r: u128)
    requires
        n <= 64,
    ensures
        r == pow2(n as nat),
        r >= 1,
{
    let mut r: u128 = 1;
    let mut i: u32 = 0;
    proof {
        lemma2_to64();
    }
    while i < n
        invariant
            i <= n <= 64,
            r == pow2(i as nat),
            r >= 1,
        decreases n - i,
    {
        proof {
            lemma_pow2_unfold((i + 1) as nat);
            lemma2_to64();
            if i + 1 < 64 {
                lemma_pow2_strictly_increases((i + 1) as nat, 64);
            }
        }
        r = r * 2;
        i = i + 1;
    }
    r
}

/// Decodes a level.
pub fn level_millis_from_bits(bits: u64) -> (level: u32)
    ensures
        level == level_millis(bits),
        level <= LEVEL_FULL,
{
    let e: u64 = (bits / FRACTION_RANGE) % 2048;
    let fraction: u64 = bits % FRACTION_RANGE;
    if bits >= 0x8000_0000_0000_0000 || (e == 2047 && fraction != 0) {
        return 0;
    }
    if e >= EXPONENT_ONE {
        return LEVEL_FULL;
    }
    let sig: u64 = if e == 0 { fraction } else { FRACTION_RANGE + fraction };
    let shift: u64 = EXPONENT_UNIT - if e == 0 { 1 } else { e };
    let p: u128 = sig as u128 * 1000;
    if shift >= 64 {
        proof {
            lemma2_to64();
            if shift > 64 {
                lemma_pow2_strictly_increases(64, shift as nat);
            }
            let q = pow2(shift as nat) as int;
            assert((2 * (p as int) + q) / (2 * q) == 0) by (nonlinear_arith)
                requires
                    0 <= p < 0x8000_0000_0000_0000,
                    q >= 0x1_0000_0000_0000_0000,
            ;
        }
        return 0;
    }
    let q: u128 = pow2_u128(shift as u32);
    proof {
        lemma2_to64();
        lemma2_to64_rest();
        if shift < 63 {
            lemma_pow2_strictly_increases(shift as nat, 63);
        }
        if shift > 53 {
            lemma_pow2_strictly_increases(53, shift as nat);
        }
    }
    let r: u128 = round_div_u128(p, q);
    proof {
        assert(r <= 1000) by (nonlinear_arith)
            requires
                r == (2 * p + q) / (2 * q),
                0 <= p < 0x20_0000_0000_0000 * 1000,
                q >= 0x20_0000_0000_0000,
        ;
    }
    r as u32
}

/// Scales a length and holds the result to the range of `i32`.
pub fn scale_length(length: i32, scale_bits: u64) -> (r: i32)
    ensures
        r == clamp_i32(scaled(length as int, scale_bits)),
{
    let e: u64 = (scale_bits / FRACTION_RANGE) % 2048;
    let fraction: u64 = scale_bits % FRACTION_RANGE;
    if scale_bits >= 0x8000_0000_0000_0000 || (e == 2047 && fraction != 0) || e < EXPONENT_ONE {
        return length;
    }
    let sig: u64 = FRACTION_RANGE + fraction;
    if length == 0 {
        proof {
            assert(0 * significand(scale_bits) == 0);
            assert(0 * significand(scale_bits) * pow2((e - 1075) as nat) == 0) by (nonlinear_arith);
            lemma_pow2_pos((1075 - e) as nat);
            crate::geometry::lemma_round_div_nearest(0, pow2((1075 - e) as nat) as int);
        }
        return 0;
    }
    let magnitude: u64 = if length < 0 { (-(length as i64)) as u64 } else { length as u64 };
    if e > EXPONENT_UNIT {
        proof {
            let k = pow2((e - 1075) as nat) as int;
            lemma_pow2_pos((e - 1075) as nat);
            let s = sig as int;
            let l = length as int;
            if l > 0 {
                assert(l * s * k >= 0x10_0000_0000_0000) by (nonlinear_arith)
                    requires
                        l >= 1,
                        s >= 0x10_0000_0000_0000,
                        k >= 1,
                ;
            } else {
                assert(l * s * k <= -0x10_0000_0000_0000) by (nonlinear_arith)
                    requires
                        l <= -1,
                        s >= 0x10_0000_0000_0000,
                        k >= 1,
                ;
            }
        }
        return if length < 0 { i32::MIN } else { i32::MAX };
    }
    let shift: u64 = EXPONENT_UNIT - e;
    assert(magnitude as int * sig as int <= 0x8000_0000 * 0x20_0000_0000_0000) by (nonlinear_arith)
        requires
            0 <= magnitude <= 0x8000_0000,
            0 <= sig < 0x20_0000_0000_0000,
    ;
    let p: u128 = magnitude as u128 * sig as u128;
    let q: u128 = pow2_u128(shift as u32);
    proof {
        lemma2_to64();
        lemma2_to64_rest();
        if shift < 52 {
            lemma_pow2_strictly_increases(shift as nat, 52);
        }
    }
    let r: u128 = round_div_u128(p, q);
    proof {
        crate::geometry::lemma_round_div_nearest(length as int * sig as int, q as int);
        if length < 0 {
            assert(length as int * sig as int == -(magnitude as int * sig as int)) by (nonlinear_arith)
                requires
                    magnitude as int == -(length as int),
            ;
            crate::geometry::lemma_round_div_nearest(magnitude as int * sig as int, q as int);
        }
    }
    if length < 0 {
        if r >= 0x8000_0000 {
            i32::MIN
        } else {
            (-(r as i64)) as i32
        }
    } else {
        if r > 0x7fff_ffff {
            i32::MAX
        } else {
            r as i32
        }
    }
}

} // verus!
