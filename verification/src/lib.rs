//! A programmatic video compositor core: keyframe animation with easing
//! curves, a hierarchical clip timeline, and an effect registry that batches
//! draw submissions per effect kind.
//!
//! Numeric state is carried in [`fx::Fx`], a saturating fixed-point number
//! with sixteen fractional bits, so every computation has an exact
//! mathematical description.

pub mod animation;
pub mod clip;
pub mod color;
pub mod ease;
pub mod effect;
pub mod error;
pub mod fx;
pub mod interpolate;
pub mod io;
pub mod rect;
pub mod render;
pub mod shader;
pub mod timing;
pub mod transform;
pub mod video;

use vstd::prelude::*;

verus! {

} // verus!
