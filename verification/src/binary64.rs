//! Double-precision values, handled by their IEEE 754 bit patterns.
//!
//! A finite pattern denotes `± significand × 2^exponent`, which is a whole
//! number of grains of `2^-1074`. The limiter counts in wad, a fixed-point unit
//! of `10^-18`, so the agent works on wad amounts: what a pattern denotes, times
//! `10^18`, rounded toward zero.

use vstd::arithmetic::div_mod::*;
use vstd::arithmetic::mul::*;
use vstd::arithmetic::power2::*;
use vstd::prelude::*;

verus! {

/// The pattern's sign bit, and the pattern of negative zero.
pub const SIGN_BIT: u64 = 0x8000_0000_0000_0000;

/// Weight of the lowest bit of the exponent field: `2^52`.
pub const FRACTION_SPAN: u64 = 0x0010_0000_0000_0000;

/// The pattern of positive infinity; every greater magnitude is a NaN.
pub const INFINITY: u64 = 0x7ff0_0000_0000_0000;

/// Exponent field of the patterns whose significand counts units.
pub const UNIT_EXPONENT_FIELD: u64 = 1075;

/// Exponent of the grain: the least positive double is `2^-1074`.
pub const GRAIN_EXPONENT: u64 = 1074;

/// Wad per unit of value.
pub const WAD: u128 = 1_000_000_000_000_000_000;

/// Whether the sign bit is set.
pub open spec fn is_negative(bits: u64) -> bool {
    bits >= SIGN_BIT
}

/// The pattern without its sign bit.
pub open spec fn magnitude_bits(bits: u64) -> nat {
    if bits >= SIGN_BIT {
        (bits - SIGN_BIT) as nat
    } else {
        bits as nat
    }
}

/// Whether the pattern denotes a number: neither an infinity nor a NaN.
pub open spec fn is_finite(bits: u64) -> bool {
    magnitude_bits(bits) < INFINITY
}

/// The eleven bits of the biased exponent.
pub open spec fn exponent_field(bits: u64) -> nat {
    magnitude_bits(bits) / (FRACTION_SPAN as nat)
}

/// The fifty-two bits below the exponent.
pub open spec fn fraction_field(bits: u64) -> nat {
    magnitude_bits(bits) % (FRACTION_SPAN as nat)
}

/// The integer significand: subnormal patterns have no implied leading bit.
pub open spec fn significand(bits: u64) -> nat {
    if exponent_field(bits) == 0 {
        fraction_field(bits)
    } else {
        FRACTION_SPAN as nat + fraction_field(bits)
    }
}

/// The power of two that scales the integer significand.
pub open spec fn exponent(bits: u64) -> int {
    if exponent_field(bits) == 0 {
        1 - UNIT_EXPONENT_FIELD
    } else {
        exponent_field(bits) - UNIT_EXPONENT_FIELD
    }
}

/// The absolute value in grains: `significand × 2^(exponent + 1074)`.
pub open spec fn grains(bits: u64) -> nat {
    significand(bits) * pow2((exponent(bits) + GRAIN_EXPONENT) as nat)
}

/// The value in grains, with its sign.
pub open spec fn value_in_grains(bits: u64) -> int {
    if is_negative(bits) {
        -(grains(bits) as int)
    } else {
        grains(bits) as int
    }
}

/// Wad in the absolute value of a finite pattern, fractions of a wad dropped:
/// the value times `10^18`, which is `grains × 10^18 / 2^1074`.
pub open spec fn wad_magnitude(bits: u64) -> nat {
    (grains(bits) * (WAD as nat)) / pow2(GRAIN_EXPONENT as nat)
}

/// The value of a finite pattern in wad, rounded toward zero.
pub open spec fn wad_value(bits: u64) -> int {
    if is_negative(bits) {
        -(wad_magnitude(bits) as int)
    } else {
        wad_magnitude(bits) as int
    }
}

/// Whether the pattern is finite and its wad value, of either sign, fits `i128`.
pub open spec fn representable(bits: u64) -> bool {
    is_finite(bits) && wad_magnitude(bits) <= i128::MAX
}

/// The value with negative amounts raised to zero.
pub open spec fn floor_at_zero(value: int) -> int {
    if value < 0 {
        0
    } else {
        value
    }
}

/// The value that the agent takes from a sample: its wad amount, floored at
/// zero.
pub open spec fn consumed(bits: u64) -> int {
    floor_at_zero(wad_value(bits))
}

/// Tells whether `bits` denotes a number.
pub fn finite(bits: u64) -> (r: bool)
    ensures
        r == is_finite(bits),
{
    let magnitude: u64 = if bits >= SIGN_BIT {
        bits - SIGN_BIT
    } else {
        bits
    };
    magnitude < INFINITY
}

/// The wad amount by the sign of the exponent: the scaled significand is
/// multiplied by a power of two, or divided by one.
pub proof fn lemma_wad_magnitude_by_exponent(bits: u64)
    ensures
        exponent(bits) >= 0 ==> wad_magnitude(bits) == significand(bits) * (WAD as nat) * pow2(
            exponent(bits) as nat,
        ),
        exponent(bits) < 0 ==> wad_magnitude(bits) == (significand(bits) * (WAD as nat)) / pow2(
            (-exponent(bits)) as nat,
        ),
{
    let digits = significand(bits) as int;
    let wad = WAD as int;
    let whole = pow2(GRAIN_EXPONENT as nat) as int;
    lemma_pow2_pos(GRAIN_EXPONENT as nat);
    lemma_mul_nonnegative(digits, wad);
    if exponent(bits) >= 0 {
        let up = exponent(bits) as nat;
        let factor = pow2(up) as int;
        lemma_pow2_adds(up, GRAIN_EXPONENT as nat);
        lemma_mul_nonnegative(digits * wad, factor);
        assert((digits * (factor * whole)) * wad == ((digits * wad) * factor) * whole)
            by (nonlinear_arith);
        lemma_div_by_multiple((digits * wad) * factor, whole);
    } else {
        let down = (-exponent(bits)) as nat;
        let rest = (GRAIN_EXPONENT - down) as nat;
        let kept = pow2(rest) as int;
        let divisor = pow2(down) as int;
        lemma_pow2_adds(rest, down);
        lemma_pow2_pos(rest);
        lemma_pow2_pos(down);
        assert((digits * kept) * wad == (digits * wad) * kept) by (nonlinear_arith);
        lemma_mul_nonnegative(digits * wad, kept);
        lemma_div_denominator((digits * wad) * kept, kept, divisor);
        lemma_div_by_multiple(digits * wad, kept);
    }
}

/// The conversion keeps the order of values: where one number is at most
/// another, so are their wad amounts. Numbers less than a wad apart can come
/// to the same amount.
pub proof fn lemma_wad_value_keeps_order(a: u64, b: u64)
    requires
        value_in_grains(a) <= value_in_grains(b),
    ensures
        wad_value(a) <= wad_value(b),
{
    let whole = pow2(GRAIN_EXPONENT as nat) as int;
    lemma_pow2_pos(GRAIN_EXPONENT as nat);
    if grains(a) <= grains(b) {
        lemma_mul_inequality(grains(a) as int, grains(b) as int, WAD as int);
        lemma_div_is_ordered(grains(a) * WAD, grains(b) * WAD, whole);
    }
    if grains(b) <= grains(a) {
        lemma_mul_inequality(grains(b) as int, grains(a) as int, WAD as int);
        lemma_div_is_ordered(grains(b) * WAD, grains(a) * WAD, whole);
    }
}

proof fn lemma_pow2_landmarks()
    ensures
        pow2(16) == 0x1_0000,
        pow2(112) == 0x1_0000_0000_0000_0000_0000_0000_0000,
        pow2(113) == 0x2_0000_0000_0000_0000_0000_0000_0000,
{
    lemma2_to64();
    lemma2_to64_rest();
    lemma_pow2_adds(64, 48);
    lemma_pow2_adds(64, 49);
}

/// Computes `2^n` for the exponents that a wad conversion can need.
fn power_of_two(n: u64) -> (r: u128)
    requires
        n <= 112,
    ensures
        r == pow2(n as nat),
{
    let mut r: u128 = 1;
    let mut i: u64 = 0;
    proof {
        lemma2_to64();
    }
    while i < n
        invariant
            i <= n,
            n <= 112,
            r == pow2(i as nat),
        decreases n - i,
    {
        proof {
            lemma_pow2_unfold((i + 1) as nat);
            lemma_pow2_landmarks();
            if i + 1 < 112 {
                lemma_pow2_strictly_increases((i + 1) as nat, 112);
            }
        }
        r = r * 2;
        i = i + 1;
    }
    r
}

/// Converts a pattern to its value in wad, rounding toward zero.
///
/// `None` marks the patterns that have no such value: infinities, NaNs, and
/// numbers too large for `i128`.
pub fn to_wad(bits: u64) -> (r: Option<i128>)
    ensures
        representable(bits) ==> r == Some(wad_value(bits) as i128),
        !representable(bits) ==> r.is_none(),
{
    let negative: bool = bits >= SIGN_BIT;
    let magnitude: u64 = if negative {
        bits - SIGN_BIT
    } else {
        bits
    };
    if magnitude >= INFINITY {
        return None;
    }
    let field: u64 = magnitude / FRACTION_SPAN;
    let fraction: u64 = magnitude % FRACTION_SPAN;
    let digits: u64 = if field == 0 {
        fraction
    } else {
        FRACTION_SPAN + fraction
    };
    let scaled: u128 = (digits as u128) * WAD;
    proof {
        lemma_wad_magnitude_by_exponent(bits);
    }
    let wad: u128;
    if field >= UNIT_EXPONENT_FIELD {
        // A whole number of units: the scaled significand times `2^up`.
        let up: u64 = field - UNIT_EXPONENT_FIELD;
        if up >= 16 {
            // No less than `2^52 × 10^18 × 2^16` wad, which no `i128` holds.
            proof {
                lemma_pow2_landmarks();
                if up > 16 {
                    lemma_pow2_strictly_increases(16, up as nat);
                }
                lemma_mul_inequality(0x1_0000, pow2(up as nat) as int, scaled as int);
                lemma_mul_is_commutative(scaled as int, pow2(up as nat) as int);
            }
            return None;
        }
        let factor: u128 = power_of_two(up);
        // Less than `2^53 × 10^18 × 2^15` wad, which a `u128` holds.
        proof {
            lemma_pow2_landmarks();
            if up < 15 {
                lemma_pow2_strictly_increases(up as nat, 15);
            }
            lemma2_to64();
            lemma_mul_inequality(factor as int, 0x8000, scaled as int);
            lemma_mul_is_commutative(scaled as int, factor as int);
        }
        wad = scaled * factor;
        if wad > i128::MAX as u128 {
            return None;
        }
    } else {
        // A fraction of `2^down`: the scaled significand divided by it.
        let down: u64 = if field == 0 {
            UNIT_EXPONENT_FIELD - 1
        } else {
            UNIT_EXPONENT_FIELD - field
        };
        if down >= 113 {
            // The scaled significand is below `2^113`: less than one wad.
            proof {
                lemma_pow2_landmarks();
                if down > 113 {
                    lemma_pow2_strictly_increases(113, down as nat);
                }
                lemma_basic_div(scaled as int, pow2(down as nat) as int);
            }
            wad = 0;
        } else {
            let divisor: u128 = power_of_two(down);
            proof {
                lemma_pow2_pos(down as nat);
            }
            wad = scaled / divisor;
            assert(wad <= scaled) by {
                lemma_div_nonincreasing(scaled as int, divisor as int);
            }
        }
    }
    if negative {
        Some(-(wad as i128))
    } else {
        Some(wad as i128)
    }
}

} // verus!
