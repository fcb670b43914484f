//! Saturating fixed-point arithmetic with sixteen fractional bits.
//!
//! Animated values, easing progress and transform entries are all carried as
//! [`Fx`] numbers: an `i64` holding the mathematical value scaled by 2^16.
//! Every operation is total; results outside the representable range saturate
//! at the nearest bound, and multiplication truncates the extra fractional
//! bits toward zero. Each operation's exact result is given by a spec
//! function, so callers can reason about the arithmetic bit for bit.

use vstd::prelude::*;

verus! {

/// Raw representation of one: the fixed-point scale, 2^16.
pub const FX_ONE_RAW: i64 = 65536;
/// Raw representation of one half.
pub const FX_HALF_RAW: i64 = 32768;

/// Saturates an unbounded integer into the `i64` range.
pub open spec fn fx_clamp(x: int) -> int {
    if x > i64::MAX as int {
        i64::MAX as int
    } else if x < i64::MIN as int {
        i64::MIN as int
    } else {
        x
    }
}

/// Removes the scale from a double-width product, truncating toward zero.
pub open spec fn fx_scale_down(p: int) -> int {
    if p >= 0 {
        p / (FX_ONE_RAW as int)
    } else {
        -((-p) / (FX_ONE_RAW as int))
    }
}

/// Exact result of fixed-point addition on raw values.
pub open spec fn fx_add_val(a: int, b: int) -> int {
    fx_clamp(a + b)
}

/// Exact result of fixed-point subtraction on raw values.
pub open spec fn fx_sub_val(a: int, b: int) -> int {
    fx_clamp(a - b)
}

/// Exact result of fixed-point multiplication on raw values.
pub open spec fn fx_mul_val(a: int, b: int) -> int {
    fx_clamp(fx_scale_down(a * b))
}

/// Exact result of converting an integer to a raw fixed-point value.
pub open spec fn fx_from_int_val(n: int) -> int {
    fx_clamp(n * (FX_ONE_RAW as int))
}

/// Exact result of the quotient `num / den` as a raw fixed-point value,
/// rounded toward zero.
pub open spec fn fx_ratio_val(num: int, den: int) -> int
    recommends
        den > 0,
{
    fx_clamp((num * (FX_ONE_RAW as int)) / den)
}

/// Exact result of rounding a raw fixed-point value to the nearest integer,
/// halves away from zero.
pub open spec fn fx_round_val(x: int) -> int {
    if x >= 0 {
        (x + FX_HALF_RAW as int) / (FX_ONE_RAW as int)
    } else {
        -(((-x) + FX_HALF_RAW as int) / (FX_ONE_RAW as int))
    }
}

/// A saturating fixed-point number with sixteen fractional bits: the
/// mathematical value is `raw / 65536`.
#[derive(Clone, Copy, Debug, PartialEq, Eq, Structural)]
pub struct Fx {
    pub raw: i64,
}

pub(crate) fn clamp_to_i64(x: i128) -> (r: i64)
    ensures
        r as int == fx_clamp(x as int),
{
    if x > i64::MAX as i128 {
        i64::MAX
    } else if x < i64::MIN as i128 {
        i64::MIN
    } else {
        x as i64
    }
}

fn scale_down_exec(p: i128) -> (r: i128)
    requires
        -0x4000_0000_0000_0000_0000_0000_0000_0000 <= p
            <= 0x4000_0000_0000_0000_0000_0000_0000_0000,
    ensures
        r as int == fx_scale_down(p as int),
{
    if p >= 0 {
        let q: u128 = (p as u128) / 65536;
        q as i128
    } else {
        let m: u128 = (-p) as u128;
        let q: u128 = m / 65536;
        assert(q <= m) by {
            vstd::arithmetic::div_mod::lemma_div_is_ordered_by_denominator(m as int, 1, 65536);
        }
        -(q as i128)
    }
}

pub(crate) fn round_scale_exec(p: i128) -> (r: i128)
    requires
        -0x4000_0000_0000_0000_0000_0000_0000_0000 <= p
            <= 0x4000_0000_0000_0000_0000_0000_0000_0000,
    ensures
        r as int == fx_round_val(p as int),
{
    if p >= 0 {
        let q: u128 = ((p as u128) + 32768) / 65536;
        assert(q <= (p as u128) + 32768) by {
            vstd::arithmetic::div_mod::lemma_div_is_ordered_by_denominator(
                p as int + 32768,
                1,
                65536,
            );
        }
        q as i128
    } else {
        let m: u128 = (-p) as u128;
        let q: u128 = (m + 32768) / 65536;
        assert(q <= m + 32768) by {
            vstd::arithmetic::div_mod::lemma_div_is_ordered_by_denominator(
                m as int + 32768,
                1,
                65536,
            );
        }
        -(q as i128)
    }
}

impl Fx {
    /// The fixed-point number holding the quotient `num / den`, as a spec
    /// value.
    pub open spec fn ratio_spec(num: int, den: int) -> Fx
        recommends
            den > 0,
    {
        Fx { raw: fx_ratio_val(num, den) as i64 }
    }

    /// The saturating sum, as a spec value.
    pub open spec fn add_spec(self, rhs: Fx) -> Fx {
        Fx { raw: fx_add_val(self.raw as int, rhs.raw as int) as i64 }
    }

    /// The saturating difference, as a spec value.
    pub open spec fn sub_spec(self, rhs: Fx) -> Fx {
        Fx { raw: fx_sub_val(self.raw as int, rhs.raw as int) as i64 }
    }

    /// The saturating truncating product, as a spec value.
    pub open spec fn mul_spec(self, rhs: Fx) -> Fx {
        Fx { raw: fx_mul_val(self.raw as int, rhs.raw as int) as i64 }
    }

    /// Zero.
    pub fn zero() -> (r: Fx)
        ensures
            r.raw == 0,
    {
        Fx { raw: 0 }
    }

    /// One, the unit of progress.
    pub fn one() -> (r: Fx)
        ensures
            r.raw == FX_ONE_RAW,
    {
        Fx { raw: 65536 }
    }

    /// One half.
    pub fn half() -> (r: Fx)
        ensures
            r.raw == FX_HALF_RAW,
    {
        Fx { raw: 32768 }
    }

    /// Converts an integer, saturating at the representable bounds.
    pub fn from_int(n: i64) -> (r: Fx)
        ensures
            r.raw as int == fx_from_int_val(n as int),
    {
        let p: i128 = (n as i128) * 65536;
        Fx { raw: clamp_to_i64(p) }
    }

    /// The quotient `num / den`, truncated to the fixed-point grid.
    pub fn ratio(num: u64, den: u64) -> (r: Fx)
        requires
            den > 0,
        ensures
            r.raw as int == fx_ratio_val(num as int, den as int),
    {
        let p: u128 = (num as u128) * 65536;
        let q: u128 = p / (den as u128);
        assert(q <= p) by {
            vstd::arithmetic::div_mod::lemma_div_is_ordered_by_denominator(p as int, 1, den as int);
        }
        if q > i64::MAX as u128 {
            Fx { raw: i64::MAX }
        } else {
            Fx { raw: q as i64 }
        }
    }

    /// Saturating addition.
    pub fn add(self, rhs: Fx) -> (r: Fx)
        ensures
            r.raw as int == fx_add_val(self.raw as int, rhs.raw as int),
    {
        let s: i128 = (self.raw as i128) + (rhs.raw as i128);
        Fx { raw: clamp_to_i64(s) }
    }

    /// Saturating subtraction.
    pub fn sub(self, rhs: Fx) -> (r: Fx)
        ensures
            r.raw as int == fx_sub_val(self.raw as int, rhs.raw as int),
    {
        let s: i128 = (self.raw as i128) - (rhs.raw as i128);
        Fx { raw: clamp_to_i64(s) }
    }

    /// Saturating multiplication, truncating extra fractional bits toward
    /// zero.
    pub fn mul(self, rhs: Fx) -> (r: Fx)
        ensures
            r.raw as int == fx_mul_val(self.raw as int, rhs.raw as int),
    {
        proof {
            let a = self.raw as int;
            let b = rhs.raw as int;
            assert(a * b <= 0x4000_0000_0000_0000_0000_0000_0000_0000 && a * b
                >= -0x4000_0000_0000_0000_0000_0000_0000_0000) by (nonlinear_arith)
                requires
                    -0x8000_0000_0000_0000 <= a <= 0x7FFF_FFFF_FFFF_FFFF,
                    -0x8000_0000_0000_0000 <= b <= 0x7FFF_FFFF_FFFF_FFFF,
            ;
        }
        let p: i128 = (self.raw as i128) * (rhs.raw as i128);
        let q: i128 = scale_down_exec(p);
        Fx { raw: clamp_to_i64(q) }
    }

    /// Rounds to the nearest integer, halves away from zero.
    pub fn round_to_i64(self) -> (r: i64)
        ensures
            r as int == fx_round_val(self.raw as int),
    {
        if self.raw >= 0 {
            let q: u128 = ((self.raw as u128) + 32768) / 65536;
            q as i64
        } else {
            let m: i128 = -(self.raw as i128);
            let q: u128 = ((m as u128) + 32768) / 65536;
            -(q as i64)
        }
    }

    /// Whether this value is strictly below `rhs`.
    pub fn lt(self, rhs: Fx) -> (r: bool)
        ensures
            r == (self.raw < rhs.raw),
    {
        self.raw < rhs.raw
    }
}

/// Multiplying a zero difference by any factor yields zero.
pub proof fn lemma_fx_mul_zero_left(b: int)
    ensures
        fx_mul_val(0, b) == 0,
{
    assert(0 * b == 0) by (nonlinear_arith);
}

/// Multiplying by a zero progress yields zero.
pub proof fn lemma_fx_mul_zero_right(a: int)
    ensures
        fx_mul_val(a, 0) == 0,
{
    assert(a * 0 == 0) by (nonlinear_arith);
}

/// Multiplying by one returns the value unchanged.
pub proof fn lemma_fx_mul_one(a: int)
    requires
        i64::MIN as int <= a <= i64::MAX as int,
    ensures
        fx_mul_val(a, FX_ONE_RAW as int) == a,
{
    let s = FX_ONE_RAW as int;
    assert(a * s == s * a) by (nonlinear_arith);
    if a >= 0 {
        vstd::arithmetic::div_mod::lemma_div_multiples_vanish(a, s);
        assert(a * s >= 0) by (nonlinear_arith)
            requires
                a >= 0 && s > 0,
        ;
    } else {
        assert(-(a * s) == (-a) * s) by (nonlinear_arith);
        assert(a * s < 0) by (nonlinear_arith)
            requires
                a < 0 && s > 0,
        ;
        vstd::arithmetic::div_mod::lemma_div_multiples_vanish(-a, s);
        assert((s * (-a)) / s == -a);
    }
}

} // verus!
