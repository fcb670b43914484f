//! Named easing curves: closed-form reparameterizations of interpolation
//! progress.
//!
//! A curve maps a progress value, nominally in `[0, 1]`, to an eased
//! progress. All curves are stateless and deterministic; their exact value
//! on the fixed-point grid is given by [`ease_val`].

use crate::fx::{fx_mul_val, fx_sub_val, Fx, FX_HALF_RAW, FX_ONE_RAW};
use vstd::prelude::*;

verus! {

/// A named easing curve.
#[derive(Clone, Copy, Debug, PartialEq, Eq, Structural)]
pub enum Easing {
    /// `f(t) = t`
    Linear,
    /// `f(t) = t^2`
    InQuadratic,
    /// `f(t) = t^3`
    InCubic,
    /// `f(t) = t^4`
    InQuartic,
    /// `f(t) = t^5`
    InQuintic,
    /// `f(t) = t^10`
    InExponential,
    /// `f(t) = 1 - (1-t)^2`
    OutQuadratic,
    /// `f(t) = 1 - (1-t)^3`
    OutCubic,
    /// `f(t) = 1 - (1-t)^4`
    OutQuartic,
    /// `f(t) = 1 - (1-t)^5`
    OutQuintic,
    /// `f(t) = 1 - (1-t)^10`
    OutExponential,
    /// `f(t) = 16 t^5` below one half, `f(t) = 1 - (2 - 2t)^5 / 2` above
    InOutQuintic,
    /// Reserved for a catapult-like launch curve; evaluates as the identity
    /// reparameterization.
    InBack,
    /// Reserved for a curve overshooting at the end; evaluates as the
    /// identity reparameterization.
    OutBack,
    /// Reserved for a curve overshooting at both ends; evaluates as the
    /// identity reparameterization.
    InOutBack,
}

/// `f(t) = t`
pub const LINEAR: Easing = Easing::Linear;

/// `f(t) = t^2`
pub const IN_QUADRATIC: Easing = Easing::InQuadratic;

/// `f(t) = t^3`
pub const IN_CUBIC: Easing = Easing::InCubic;

/// `f(t) = t^4`
pub const IN_QUARTIC: Easing = Easing::InQuartic;

/// `f(t) = t^5`
pub const IN_QUINTIC: Easing = Easing::InQuintic;

/// `f(t) = t^10`
pub const IN_EXPONENTIAL: Easing = Easing::InExponential;

/// `f(t) = 1 - (1-t)^2`
pub const OUT_QUADRATIC: Easing = Easing::OutQuadratic;

/// `f(t) = 1 - (1-t)^3`
pub const OUT_CUBIC: Easing = Easing::OutCubic;

/// `f(t) = 1 - (1-t)^4`
pub const OUT_QUARTIC: Easing = Easing::OutQuartic;

/// `f(t) = 1 - (1-t)^5`
pub const OUT_QUINTIC: Easing = Easing::OutQuintic;

/// `f(t) = 1 - (1-t)^10`
pub const OUT_EXPONENTIAL: Easing = Easing::OutExponential;

/// Quintic ease-in-out, piecewise at one half.
pub const IN_OUT_QUINTIC: Easing = Easing::InOutQuintic;

/// Catapult-like launch curve.
pub const IN_BACK: Easing = Easing::InBack;

/// Curve overshooting at the end.
pub const OUT_BACK: Easing = Easing::OutBack;

/// Curve overshooting at both ends.
pub const IN_OUT_BACK: Easing = Easing::InOutBack;

/// The `n`-th power of a raw fixed-point value, one truncating
/// multiplication at a time.
pub open spec fn pow_val(t: int, n: nat) -> int
    decreases n,
{
    if n == 0 {
        FX_ONE_RAW as int
    } else {
        fx_mul_val(t, pow_val(t, (n - 1) as nat))
    }
}

/// The exponent a pure power curve raises its argument to; one for the
/// identity curves.
pub open spec fn curve_exponent(e: Easing) -> nat {
    match e {
        Easing::InQuadratic | Easing::OutQuadratic => 2,
        Easing::InCubic | Easing::OutCubic => 3,
        Easing::InQuartic | Easing::OutQuartic => 4,
        Easing::InQuintic | Easing::OutQuintic => 5,
        Easing::InExponential | Easing::OutExponential => 10,
        _ => 1,
    }
}

/// Exact eased progress for a raw fixed-point progress `t`.
pub open spec fn ease_val(e: Easing, t: int) -> int {
    match e {
        Easing::Linear | Easing::InBack | Easing::OutBack | Easing::InOutBack => t,
        Easing::InQuadratic | Easing::InCubic | Easing::InQuartic | Easing::InQuintic
            | Easing::InExponential => pow_val(t, curve_exponent(e)),
        Easing::OutQuadratic | Easing::OutCubic | Easing::OutQuartic | Easing::OutQuintic
            | Easing::OutExponential => fx_sub_val(
            FX_ONE_RAW as int,
            pow_val(fx_sub_val(FX_ONE_RAW as int, t), curve_exponent(e)),
        ),
        Easing::InOutQuintic => {
            if t < FX_HALF_RAW as int {
                fx_mul_val(16 * (FX_ONE_RAW as int), pow_val(t, 5))
            } else {
                fx_sub_val(
                    FX_ONE_RAW as int,
                    fx_mul_val(
                        pow_val(
                            fx_sub_val(
                                2 * (FX_ONE_RAW as int),
                                fx_mul_val(fx_from_two(), t),
                            ),
                            5,
                        ),
                        FX_HALF_RAW as int,
                    ),
                )
            }
        },
    }
}

/// The raw fixed-point value of two.
pub open spec fn fx_from_two() -> int {
    2 * (FX_ONE_RAW as int)
}

fn fx_pow(t: Fx, n: u64) -> (r: Fx)
    ensures
        r.raw as int == pow_val(t.raw as int, n as nat),
{
    let mut acc = Fx::one();
    let mut i: u64 = 0;
    while i < n
        invariant
            i <= n,
            acc.raw as int == pow_val(t.raw as int, i as nat),
        decreases n - i,
    {
        acc = t.mul(acc);
        i = i + 1;
    }
    acc
}

impl Easing {
    /// Applies the curve to a progress value. The result is exactly
    /// [`ease_val`] of the raw input; progress outside `[0, 1]` is neither
    /// clamped nor rejected.
    pub fn apply(self, t: Fx) -> (r: Fx)
        ensures
            r.raw as int == ease_val(self, t.raw as int),
    {
        match self {
            Easing::Linear | Easing::InBack | Easing::OutBack | Easing::InOutBack => t,
            Easing::InQuadratic => fx_pow(t, 2),
            Easing::InCubic => fx_pow(t, 3),
            Easing::InQuartic => fx_pow(t, 4),
            Easing::InQuintic => fx_pow(t, 5),
            Easing::InExponential => fx_pow(t, 10),
            Easing::OutQuadratic => Fx::one().sub(fx_pow(Fx::one().sub(t), 2)),
            Easing::OutCubic => Fx::one().sub(fx_pow(Fx::one().sub(t), 3)),
            Easing::OutQuartic => Fx::one().sub(fx_pow(Fx::one().sub(t), 4)),
            Easing::OutQuintic => Fx::one().sub(fx_pow(Fx::one().sub(t), 5)),
            Easing::OutExponential => Fx::one().sub(fx_pow(Fx::one().sub(t), 10)),
            Easing::InOutQuintic => {
                if t.lt(Fx::half()) {
                    Fx::from_int(16).mul(fx_pow(t, 5))
                } else {
                    let two = Fx::from_int(2);
                    Fx::one().sub(fx_pow(two.sub(two.mul(t)), 5).mul(Fx::half()))
                }
            },
        }
    }
}

/// A positive power of zero is zero.
pub proof fn lemma_pow_zero_base(n: nat)
    requires
        n > 0,
    ensures
        pow_val(0, n) == 0,
    decreases n,
{
    if n == 1 {
        crate::fx::lemma_fx_mul_zero_left(pow_val(0, 0));
    } else {
        lemma_pow_zero_base((n - 1) as nat);
        crate::fx::lemma_fx_mul_zero_left(pow_val(0, (n - 1) as nat));
    }
}

/// Every power of one is one.
pub proof fn lemma_pow_one_base(n: nat)
    ensures
        pow_val(FX_ONE_RAW as int, n) == FX_ONE_RAW as int,
    decreases n,
{
    if n > 0 {
        lemma_pow_one_base((n - 1) as nat);
        assert(fx_mul_val(FX_ONE_RAW as int, FX_ONE_RAW as int) == FX_ONE_RAW as int) by {
            crate::fx::lemma_fx_mul_one(FX_ONE_RAW as int);
        }
    }
}

/// Every curve starts at zero: easing a progress of zero yields zero.
pub proof fn lemma_ease_zero(e: Easing)
    ensures
        ease_val(e, 0) == 0,
{
    match e {
        Easing::Linear | Easing::InBack | Easing::OutBack | Easing::InOutBack => {},
        Easing::InQuadratic | Easing::InCubic | Easing::InQuartic | Easing::InQuintic
            | Easing::InExponential => {
            lemma_pow_zero_base(curve_exponent(e));
        },
        Easing::OutQuadratic | Easing::OutCubic | Easing::OutQuartic | Easing::OutQuintic
            | Easing::OutExponential => {
            lemma_pow_one_base(curve_exponent(e));
        },
        Easing::InOutQuintic => {
            lemma_pow_zero_base(5);
            crate::fx::lemma_fx_mul_zero_right(16 * (FX_ONE_RAW as int));
        },
    }
}

/// Every curve ends at one: easing a progress of one yields one.
pub proof fn lemma_ease_one(e: Easing)
    ensures
        ease_val(e, FX_ONE_RAW as int) == FX_ONE_RAW as int,
{
    match e {
        Easing::Linear | Easing::InBack | Easing::OutBack | Easing::InOutBack => {},
        Easing::InQuadratic | Easing::InCubic | Easing::InQuartic | Easing::InQuintic
            | Easing::InExponential => {
            lemma_pow_one_base(curve_exponent(e));
        },
        Easing::OutQuadratic | Easing::OutCubic | Easing::OutQuartic | Easing::OutQuintic
            | Easing::OutExponential => {
            lemma_pow_zero_base(curve_exponent(e));
        },
        Easing::InOutQuintic => {
            assert(fx_mul_val(fx_from_two(), FX_ONE_RAW as int) == fx_from_two()) by {
                crate::fx::lemma_fx_mul_one(fx_from_two());
            }
            lemma_pow_zero_base(5);
            crate::fx::lemma_fx_mul_zero_left(FX_HALF_RAW as int);
        },
    }
}

} // verus!
