//! Value blending: the linear interpolation `a + (b - a) * t`, defined per
//! value type and applied component-wise to composites.
//!
//! The progress `t` may lie outside `[0, 1]` and is never clamped here:
//! overshooting is a deliberate authored effect. Every implementation proves
//! two laws: blending a value with itself returns it unchanged for every
//! progress, and blending at zero progress returns the start value.

use crate::fx::{
    clamp_to_i64, fx_add_val, fx_clamp, fx_mul_val, fx_round_val, fx_sub_val, round_scale_exec, Fx,
};
use vstd::prelude::*;

verus! {

/// A type whose values can be blended along an animation segment.
pub trait Interpolate: Sized {
    /// Exact blended value for a raw fixed-point progress `traw`.
    spec fn lerp_spec(a: Self, b: Self, traw: int) -> Self;

    /// Blends from `a` toward `b` by progress `t`, without clamping `t`.
    fn interpolate(a: Self, b: Self, t: Fx) -> (r: Self)
        ensures
            r == Self::lerp_spec(a, b, t.raw as int),
    ;

    /// Blending a value with itself is the identity, whatever the progress.
    proof fn lemma_lerp_same(a: Self, traw: int)
        ensures
            Self::lerp_spec(a, a, traw) == a,
    ;

    /// Blending at zero progress returns the start value.
    proof fn lemma_lerp_zero(a: Self, b: Self)
        ensures
            Self::lerp_spec(a, b, 0) == a,
    ;
}

impl Interpolate for Fx {
    open spec fn lerp_spec(a: Fx, b: Fx, traw: int) -> Fx {
        Fx { raw: fx_add_val(a.raw as int, fx_mul_val(fx_sub_val(b.raw as int, a.raw as int), traw)) as i64 }
    }

    fn interpolate(a: Fx, b: Fx, t: Fx) -> (r: Fx) {
        a.add(b.sub(a).mul(t))
    }

    proof fn lemma_lerp_same(a: Fx, traw: int) {
        crate::fx::lemma_fx_mul_zero_left(traw);
    }

    proof fn lemma_lerp_zero(a: Fx, b: Fx) {
        crate::fx::lemma_fx_mul_zero_right(fx_sub_val(b.raw as int, a.raw as int));
    }
}

/// Exact blended value for whole numbers: the scaled difference is rounded
/// to the nearest integer, halves away from zero.
pub open spec fn lerp_i64_val(a: int, b: int, traw: int) -> int {
    fx_clamp(a + fx_round_val(fx_clamp(b - a) * traw))
}

impl Interpolate for i64 {
    open spec fn lerp_spec(a: i64, b: i64, traw: int) -> i64 {
        lerp_i64_val(a as int, b as int, traw) as i64
    }

    fn interpolate(a: i64, b: i64, t: Fx) -> (r: i64) {
        let d: i64 = clamp_to_i64((b as i128) - (a as i128));
        proof {
            let di = d as int;
            let ti = t.raw as int;
            assert(di * ti <= 0x4000_0000_0000_0000_0000_0000_0000_0000 && di * ti
                >= -0x4000_0000_0000_0000_0000_0000_0000_0000) by (nonlinear_arith)
                requires
                    -0x8000_0000_0000_0000 <= di <= 0x7FFF_FFFF_FFFF_FFFF,
                    -0x8000_0000_0000_0000 <= ti <= 0x7FFF_FFFF_FFFF_FFFF,
            ;
        }
        let p: i128 = (d as i128) * (t.raw as i128);
        let rounded: i128 = round_scale_exec(p);
        let s: i128 = (a as i128) + rounded;
        clamp_to_i64(s)
    }

    proof fn lemma_lerp_same(a: i64, traw: int) {
        assert(fx_clamp(a as int - a as int) == 0);
        assert(0 * traw == 0) by (nonlinear_arith);
    }

    proof fn lemma_lerp_zero(a: i64, b: i64) {
        assert(fx_clamp(b as int - a as int) * 0 == 0) by (nonlinear_arith);
    }
}

impl<A: Interpolate, B: Interpolate> Interpolate for (A, B) {
    open spec fn lerp_spec(a: (A, B), b: (A, B), traw: int) -> (A, B) {
        (A::lerp_spec(a.0, b.0, traw), B::lerp_spec(a.1, b.1, traw))
    }

    fn interpolate(a: (A, B), b: (A, B), t: Fx) -> (r: (A, B)) {
        (A::interpolate(a.0, b.0, t), B::interpolate(a.1, b.1, t))
    }

    proof fn lemma_lerp_same(a: (A, B), traw: int) {
        A::lemma_lerp_same(a.0, traw);
        B::lemma_lerp_same(a.1, traw);
    }

    proof fn lemma_lerp_zero(a: (A, B), b: (A, B)) {
        A::lemma_lerp_zero(a.0, b.0);
        B::lemma_lerp_zero(a.1, b.1);
    }
}

impl<A: Interpolate, B: Interpolate, C: Interpolate> Interpolate for (A, B, C) {
    open spec fn lerp_spec(a: (A, B, C), b: (A, B, C), traw: int) -> (A, B, C) {
        (A::lerp_spec(a.0, b.0, traw), B::lerp_spec(a.1, b.1, traw), C::lerp_spec(a.2, b.2, traw))
    }

    fn interpolate(a: (A, B, C), b: (A, B, C), t: Fx) -> (r: (A, B, C)) {
        (A::interpolate(a.0, b.0, t), B::interpolate(a.1, b.1, t), C::interpolate(a.2, b.2, t))
    }

    proof fn lemma_lerp_same(a: (A, B, C), traw: int) {
        A::lemma_lerp_same(a.0, traw);
        B::lemma_lerp_same(a.1, traw);
        C::lemma_lerp_same(a.2, traw);
    }

    proof fn lemma_lerp_zero(a: (A, B, C), b: (A, B, C)) {
        A::lemma_lerp_zero(a.0, b.0);
        B::lemma_lerp_zero(a.1, b.1);
        C::lemma_lerp_zero(a.2, b.2);
    }
}

impl<A: Interpolate, B: Interpolate, C: Interpolate, D: Interpolate> Interpolate for (A, B, C, D) {
    open spec fn lerp_spec(a: (A, B, C, D), b: (A, B, C, D), traw: int) -> (A, B, C, D) {
        (
            A::lerp_spec(a.0, b.0, traw),
            B::lerp_spec(a.1, b.1, traw),
            C::lerp_spec(a.2, b.2, traw),
            D::lerp_spec(a.3, b.3, traw),
        )
    }

    fn interpolate(a: (A, B, C, D), b: (A, B, C, D), t: Fx) -> (r: (A, B, C, D)) {
        (
            A::interpolate(a.0, b.0, t),
            B::interpolate(a.1, b.1, t),
            C::interpolate(a.2, b.2, t),
            D::interpolate(a.3, b.3, t),
        )
    }

    proof fn lemma_lerp_same(a: (A, B, C, D), traw: int) {
        A::lemma_lerp_same(a.0, traw);
        B::lemma_lerp_same(a.1, traw);
        C::lemma_lerp_same(a.2, traw);
        D::lemma_lerp_same(a.3, traw);
    }

    proof fn lemma_lerp_zero(a: (A, B, C, D), b: (A, B, C, D)) {
        A::lemma_lerp_zero(a.0, b.0);
        B::lemma_lerp_zero(a.1, b.1);
        C::lemma_lerp_zero(a.2, b.2);
        D::lemma_lerp_zero(a.3, b.3);
    }
}

} // verus!
