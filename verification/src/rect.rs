//! The built-in rectangle effect: an animated position, size and color.

use crate::animation::{eval_spec, AnimatedProperty};
use crate::color::Color;
use crate::effect::{Effect, InstanceRecord};
use crate::fx::Fx;
use vstd::prelude::*;

verus! {

/// The stable type key of the rectangle effect kind (the bytes of the word
/// `Rect`).
pub const RECT_KIND_KEY: u64 = 0x52656374;

/// A rectangle drawn by the rendering backend: centered at `position`,
/// stretched to `size`, filled with `color`, every parameter animated.
pub struct Rect {
    /// The center of the rectangle, in pixels.
    pub position: AnimatedProperty<(Fx, Fx)>,
    /// Width and height, in pixels.
    pub size: AnimatedProperty<(Fx, Fx)>,
    /// The fill color.
    pub color: AnimatedProperty<Color>,
}

/// The record a rectangle pushes at `frame`: position, size and color
/// evaluated at that frame, flattened in that order.
pub open spec fn rect_record_spec(rect: Rect, frame: u64) -> Seq<Fx> {
    let p = eval_spec(rect.position.initial, rect.position.keyframes@, frame);
    let s = eval_spec(rect.size.initial, rect.size.keyframes@, frame);
    let c = eval_spec(rect.color.initial, rect.color.keyframes@, frame);
    seq![p.0, p.1, s.0, s.1, c.r, c.g, c.b, c.a]
}

impl Effect for Rect {
    open spec fn kind_key_spec(&self) -> u64 {
        RECT_KIND_KEY
    }

    open spec fn push_spec(&self, frame: u64) -> Seq<Fx> {
        rect_record_spec(*self, frame)
    }

    fn type_key(&self) -> (k: u64) {
        RECT_KIND_KEY
    }

    fn push(&self, frame: u64) -> (r: InstanceRecord) {
        let p = self.position.evaluate(frame);
        let s = self.size.evaluate(frame);
        let c = self.color.evaluate(frame);
        let mut fields: Vec<Fx> = Vec::new();
        fields.push(p.0);
        fields.push(p.1);
        fields.push(s.0);
        fields.push(s.1);
        fields.push(c.r);
        fields.push(c.g);
        fields.push(c.b);
        fields.push(c.a);
        proof {
            assert(fields@ =~= rect_record_spec(*self, frame));
        }
        InstanceRecord { fields }
    }
}

} // verus!
