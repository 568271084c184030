//! Fahrenheit to Celsius, computed exactly and rounded to the nearest degree.
//!
//! Halves are rounded away from zero.

use vstd::arithmetic::div_mod::{
    lemma_fundamental_div_mod, lemma_fundamental_div_mod_converse, lemma_mod_bound,
};
use vstd::arithmetic::power2::{lemma2_to64, lemma_pow2_strictly_increases, lemma_pow2_unfold, pow2};
use vstd::prelude::*;

verus! {

/// The integer nearest to `num / den`, for `den > 0`; a value exactly between
/// two integers goes to the one further from zero.
pub open spec fn round_half_away(num: int, den: int) -> int
    recommends
        den > 0,
{
    if num >= 0 {
        (2 * num + den) / (2 * den)
    } else {
        -((2 * (-num) + den) / (2 * den))
    }
}

/// What [`round_half_away`] gives lies within a half of the quotient, and
/// exactly a half from it only on the side away from zero.
pub proof fn lemma_round_half_away_is_nearest(num: int, den: int)
    requires
        den > 0,
    ensures
        ({
            let q = round_half_away(num, den);
            &&& 2 * (q * den - num) <= den
            &&& 2 * (num - q * den) <= den
            &&& 2 * (q * den - num) == den ==> num >= 0
            &&& 2 * (num - q * den) == den ==> num < 0
        }),
{
    let n = if num >= 0 {
        num
    } else {
        -num
    };
    let x = 2 * n + den;
    let d = 2 * den;
    let q = x / d;
    lemma_fundamental_div_mod(x, d);
    lemma_mod_bound(x, d);
    assert(d * q == 2 * (q * den)) by (nonlinear_arith)
        requires
            d == 2 * den,
    ;
    if num < 0 {
        assert((-q) * den == -(q * den)) by (nonlinear_arith);
    }
}

/// Degrees Celsius, rounded, for a whole number of degrees Fahrenheit.
pub open spec fn celsius_of_integer(fahrenheit: int) -> int {
    round_half_away((fahrenheit - 32) * 5, 9)
}

/// The Celsius value of a whole number of degrees Fahrenheit is the one
/// integer within a half of `(f - 32) * 5 / 9`: no such quotient lies exactly
/// between two integers.
pub proof fn lemma_integer_celsius_is_nearest(fahrenheit: int)
    ensures
        -9 < 2 * (9 * celsius_of_integer(fahrenheit) - 5 * (fahrenheit - 32)) < 9,
{
    lemma_round_half_away_is_nearest((fahrenheit - 32) * 5, 9);
}

/// The Celsius value of a Fahrenheit reading that fits `i64` fits it too.
pub proof fn lemma_integer_celsius_in_range(fahrenheit: int)
    requires
        i64::MIN <= fahrenheit <= i64::MAX,
    ensures
        i64::MIN <= celsius_of_integer(fahrenheit) <= i64::MAX,
{
    lemma_integer_celsius_is_nearest(fahrenheit);
}

/// Converts a whole number of degrees Fahrenheit to rounded degrees Celsius.
pub fn integer_to_celsius(fahrenheit: i64) -> (celsius: i64)
    ensures
        celsius == celsius_of_integer(fahrenheit as int),
{
    let scaled: i128 = (fahrenheit as i128 - 32) * 5;
    if scaled >= 0 {
        let doubled: u128 = 2 * (scaled as u128) + 9;
        (doubled / 18) as i64
    } else {
        let doubled: u128 = 2 * ((-scaled) as u128) + 9;
        -((doubled / 18) as i64)
    }
}

/// Whether a binary64 bit pattern has its sign bit set.
pub open spec fn double_is_negative(bits: u64) -> bool {
    bits / 0x8000_0000_0000_0000 == 1
}

/// The eleven exponent bits of a binary64 bit pattern.
pub open spec fn double_exponent_field(bits: u64) -> int {
    ((bits / 0x10_0000_0000_0000) % 0x800) as int
}

/// The fifty-two fraction bits of a binary64 bit pattern.
pub open spec fn double_fraction_field(bits: u64) -> int {
    (bits % 0x10_0000_0000_0000) as int
}

/// Whether the bit pattern encodes a number, as opposed to an infinity or a
/// NaN.
pub open spec fn double_is_finite(bits: u64) -> bool {
    double_exponent_field(bits) != 0x7ff
}

/// The signed integer `m` such that a finite bit pattern encodes
/// `m * 2^double_scale(bits)`.
pub open spec fn double_significand(bits: u64) -> int {
    let magnitude = if double_exponent_field(bits) == 0 {
        double_fraction_field(bits)
    } else {
        double_fraction_field(bits) + 0x10_0000_0000_0000
    };
    if double_is_negative(bits) {
        -magnitude
    } else {
        magnitude
    }
}

/// The power of two by which the significand of a finite bit pattern is
/// scaled.
pub open spec fn double_scale(bits: u64) -> int {
    if double_exponent_field(bits) == 0 {
        -1074
    } else {
        double_exponent_field(bits) - 1075
    }
}

/// Degrees Celsius, rounded, for `significand * 2^scale` degrees Fahrenheit.
pub open spec fn celsius_of_scaled(significand: int, scale: int) -> int {
    if scale >= 0 {
        round_half_away((significand * pow2(scale as nat) - 32) * 5, 9)
    } else {
        round_half_away(
            (significand - 32 * pow2((-scale) as nat)) * 5,
            (9 * pow2((-scale) as nat)) as int,
        )
    }
}

/// Degrees Celsius, rounded, for the number of degrees Fahrenheit that a
/// finite binary64 bit pattern encodes. The encoded number is taken exactly:
/// no intermediate result is rounded.
pub open spec fn celsius_of_double(bits: u64) -> int {
    celsius_of_scaled(double_significand(bits), double_scale(bits))
}

/// A floating-point reading that is a whole number converts as that whole
/// number does.
pub proof fn lemma_whole_double_is_integer(significand: int)
    ensures
        celsius_of_scaled(significand, 0) == celsius_of_integer(significand),
{
    lemma2_to64();
    assert(significand * pow2(0) == significand) by (nonlinear_arith)
        requires
            pow2(0) == 1,
    ;
}

/// The Celsius value of a floating-point reading lies within a half of the
/// exact quotient, and exactly a half from it only on the side away from
/// zero.
pub proof fn lemma_scaled_celsius_is_nearest(significand: int, scale: int)
    ensures
        ({
            let c = celsius_of_scaled(significand, scale);
            let p = pow2(
                (if scale >= 0 {
                    scale
                } else {
                    -scale
                }) as nat,
            ) as int;
            let num = if scale >= 0 {
                (significand * p - 32) * 5
            } else {
                (significand - 32 * p) * 5
            };
            let den = if scale >= 0 {
                9
            } else {
                9 * p
            };
            &&& den > 0
            &&& 2 * (c * den - num) <= den
            &&& 2 * (num - c * den) <= den
            &&& 2 * (c * den - num) == den ==> num >= 0
            &&& 2 * (num - c * den) == den ==> num < 0
        }),
{
    if scale >= 0 {
        lemma_round_half_away_is_nearest((significand * pow2(scale as nat) - 32) * 5, 9);
    } else {
        let p = pow2((-scale) as nat) as int;
        vstd::arithmetic::power2::lemma_pow2_pos((-scale) as nat);
        lemma_round_half_away_is_nearest((significand - 32 * p) * 5, 9 * p);
    }
}

/// Two to the power `e`, for an exponent small enough for the result to fit.
fn power_of_two(e: u64) -> (p: u128)
    requires
        e <= 64,
    ensures
        p == pow2(e as nat),
        1 <= p <= 0x1_0000_0000_0000_0000,
{
    proof {
        lemma2_to64();
    }
    let mut p: u128 = 1;
    let mut i: u64 = 0;
    while i < e
        invariant
            i <= e <= 64,
            p == pow2(i as nat),
            pow2(64) == 0x1_0000_0000_0000_0000,
            1 <= p <= pow2(64),
        decreases e - i,
    {
        proof {
            lemma_pow2_unfold((i + 1) as nat);
            if i + 1 < 64 {
                lemma_pow2_strictly_increases((i + 1) as nat, 64);
            }
        }
        p = p * 2;
        i = i + 1;
    }
    p
}

/// Rounds `magnitude / den` to the nearest integer, halves upwards.
fn round_magnitude(magnitude: u128, den: u128) -> (q: u128)
    requires
        0 < den <= 0x10_0000_0000_0000_0000_0000,
        magnitude <= 0x1000_0000_0000_0000_0000_0000,
    ensures
        q == (2 * magnitude + den) / (2 * den as int),
{
    (2 * magnitude + den) / (2 * den)
}

/// A number of magnitude `2^64` or more has no Celsius value within `i64`.
proof fn lemma_huge_is_out_of_range(significand: int, scale: int)
    requires
        scale > 11,
        significand >= 0x10_0000_0000_0000 || significand <= -0x10_0000_0000_0000,
    ensures
        celsius_of_scaled(significand, scale) > i64::MAX || celsius_of_scaled(significand, scale)
            < i64::MIN,
{
    lemma2_to64();
    let p = pow2(scale as nat) as int;
    if scale > 12 {
        lemma_pow2_strictly_increases(12, scale as nat);
    }
    assert(p >= 4096);
    let whole = significand * p;
    if significand > 0 {
        assert(whole >= 0x1_0000_0000_0000_0000) by (nonlinear_arith)
            requires
                whole == significand * p,
                significand >= 0x10_0000_0000_0000,
                p >= 4096,
        ;
        let x = 2 * ((whole - 32) * 5) + 9;
        assert(x / 18 >= 0x8000_0000_0000_0000) by (nonlinear_arith)
            requires
                x >= 18 * 0x8000_0000_0000_0000,
        ;
    } else {
        assert(whole <= -0x1_0000_0000_0000_0000) by (nonlinear_arith)
            requires
                whole == significand * p,
                significand <= -0x10_0000_0000_0000,
                p >= 4096,
        ;
        let x = 2 * (-((whole - 32) * 5)) + 9;
        assert(x / 18 >= 0x8000_0000_0000_0001) by (nonlinear_arith)
            requires
                x >= 18 * 0x8000_0000_0000_0001,
        ;
    }
}

/// A number of magnitude below `2^-11` is eighteen below zero in Celsius.
proof fn lemma_tiny_is_minus_eighteen(significand: int, scale: int)
    requires
        scale < -63,
        -0x20_0000_0000_0000 < significand < 0x20_0000_0000_0000,
    ensures
        celsius_of_scaled(significand, scale) == -18,
{
    lemma2_to64();
    let j = (-scale) as nat;
    let p = pow2(j) as int;
    if j > 64 {
        lemma_pow2_strictly_increases(64, j);
    }
    assert(p >= 0x1_0000_0000_0000_0000);
    let num = (significand - 32 * p) * 5;
    assert(num < 0);
    let x = 2 * (-num) + 9 * p;
    assert(x == 18 * (18 * p) + (5 * p - 10 * significand));
    assert(2 * (9 * p) == 18 * p);
    lemma_fundamental_div_mod_converse(x, 18 * p, 18, 5 * p - 10 * significand);
}

/// Converts `significand * 2^scale` degrees Fahrenheit, given by the
/// significand's sign and magnitude, where the scale is not negative.
fn scaled_up_to_celsius(negative: bool, magnitude: u64, scale: u64) -> (celsius: Option<i64>)
    requires
        magnitude < 0x20_0000_0000_0000,
        scale <= 11,
    ensures
        ({
            let exact = celsius_of_scaled(
                if negative {
                    -(magnitude as int)
                } else {
                    magnitude as int
                },
                scale as int,
            );
            &&& celsius is Some <==> i64::MIN <= exact <= i64::MAX
            &&& celsius matches Some(c) ==> c == exact
        }),
{
    let p = power_of_two(scale);
    proof {
        lemma2_to64();
        if scale < 11 {
            lemma_pow2_strictly_increases(scale as nat, 11);
        }
        assert(magnitude * p <= 0x20_0000_0000_0000 * 2048) by (nonlinear_arith)
            requires
                magnitude <= 0x20_0000_0000_0000,
                p <= 2048,
        ;
        assert((-(magnitude as int)) * p == -(magnitude * p)) by (nonlinear_arith);
    }
    let whole: u128 = (magnitude as u128) * p;
    if negative {
        let rounded = round_magnitude((whole + 32) * 5, 9);
        if rounded <= 0x8000_0000_0000_0000 {
            Some((-(rounded as i128)) as i64)
        } else {
            None
        }
    } else if whole >= 32 {
        let rounded = round_magnitude((whole - 32) * 5, 9);
        if rounded <= 0x7fff_ffff_ffff_ffff {
            Some(rounded as i64)
        } else {
            None
        }
    } else {
        let rounded = round_magnitude((32 - whole) * 5, 9);
        Some(-(rounded as i64))
    }
}

/// Converts `significand / 2^shift` degrees Fahrenheit, given by the
/// significand's sign and magnitude.
fn scaled_down_to_celsius(negative: bool, magnitude: u64, shift: u64) -> (celsius: i64)
    requires
        magnitude < 0x20_0000_0000_0000,
        1 <= shift <= 63,
    ensures
        celsius == celsius_of_scaled(
            if negative {
                -(magnitude as int)
            } else {
                magnitude as int
            },
            -(shift as int),
        ),
{
    let p = power_of_two(shift);
    let offset: u128 = 32 * p;
    let den: u128 = 9 * p;
    let m = magnitude as u128;
    if negative {
        let rounded = round_magnitude((m + offset) * 5, den);
        proof {
            assert((2 * ((m + offset) * 5) + den) / (2 * den as int) <= 0x40_0000_0000_0000)
                by (nonlinear_arith)
                requires
                    den == 9 * p,
                    offset == 32 * p,
                    1 <= p,
                    m <= 0x20_0000_0000_0000,
            ;
        }
        -(rounded as i64)
    } else if m >= offset {
        let rounded = round_magnitude((m - offset) * 5, den);
        proof {
            assert((2 * ((m - offset) * 5) + den) / (2 * den as int) <= 0x40_0000_0000_0000)
                by (nonlinear_arith)
                requires
                    den == 9 * p,
                    offset == 32 * p,
                    1 <= p,
                    offset <= m <= 0x20_0000_0000_0000,
            ;
        }
        rounded as i64
    } else {
        let rounded = round_magnitude((offset - m) * 5, den);
        proof {
            assert((2 * ((offset - m) * 5) + den) / (2 * den as int) <= 18) by (nonlinear_arith)
                requires
                    den == 9 * p,
                    offset == 32 * p,
                    1 <= p,
                    0 <= m < offset,
            ;
        }
        -(rounded as i64)
    }
}

/// Converts the number of degrees Fahrenheit that a binary64 bit pattern
/// encodes to rounded degrees Celsius. There is no result for an infinity or
/// a NaN, nor where the rounded value lies outside the range of `i64`.
pub fn double_to_celsius(bits: u64) -> (celsius: Option<i64>)
    ensures
        celsius is Some <==> double_is_finite(bits) && i64::MIN <= celsius_of_double(bits)
            <= i64::MAX,
        celsius matches Some(c) ==> c == celsius_of_double(bits),
{
    let negative = bits / 0x8000_0000_0000_0000 == 1;
    let exponent: u64 = (bits / 0x10_0000_0000_0000) % 0x800;
    let fraction: u64 = bits % 0x10_0000_0000_0000;
    if exponent == 0x7ff {
        return None;
    }
    let magnitude: u64 = if exponent == 0 {
        fraction
    } else {
        fraction + 0x10_0000_0000_0000
    };
    if exponent >= 1075 {
        let scale: u64 = exponent - 1075;
        if scale > 11 {
            proof {
                lemma_huge_is_out_of_range(double_significand(bits), scale as int);
            }
            None
        } else {
            scaled_up_to_celsius(negative, magnitude, scale)
        }
    } else {
        let shift: u64 = if exponent == 0 {
            1074
        } else {
            1075 - exponent
        };
        if shift > 63 {
            proof {
                lemma_tiny_is_minus_eighteen(double_significand(bits), -(shift as int));
            }
            Some(-18)
        } else {
            Some(scaled_down_to_celsius(negative, magnitude, shift))
        }
    }
}

} // verus!
