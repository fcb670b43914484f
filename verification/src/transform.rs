//! Node transforms and 4-by-4 matrices over fixed-point entries, composed
//! exactly down the clip tree.

use crate::fx::{fx_add_val, fx_mul_val, Fx, FX_HALF_RAW, FX_ONE_RAW};
use vstd::prelude::*;

verus! {

/// The raw value of a saturating four-term dot product
/// `x0*y0 + x1*y1 + x2*y2 + x3*y3`, folded left.
pub open spec fn dot4_val(
    x0: int,
    x1: int,
    x2: int,
    x3: int,
    y0: int,
    y1: int,
    y2: int,
    y3: int,
) -> int {
    fx_add_val(
        fx_add_val(fx_add_val(fx_mul_val(x0, y0), fx_mul_val(x1, y1)), fx_mul_val(x2, y2)),
        fx_mul_val(x3, y3),
    )
}

/// A 4-by-4 matrix in row-major order: `m_r_c` is the entry of row `r`,
/// column `c`.
#[derive(Clone, Copy, Debug, PartialEq, Eq, Structural)]
pub struct Mat4 {
    pub m00: Fx,
    pub m01: Fx,
    pub m02: Fx,
    pub m03: Fx,
    pub m10: Fx,
    pub m11: Fx,
    pub m12: Fx,
    pub m13: Fx,
    pub m20: Fx,
    pub m21: Fx,
    pub m22: Fx,
    pub m23: Fx,
    pub m30: Fx,
    pub m31: Fx,
    pub m32: Fx,
    pub m33: Fx,
}

/// The exact matrix product `a * b`: each entry is the dot product of a row
/// of `a` with a column of `b`.
pub open spec fn mat_mul_spec(a: Mat4, b: Mat4) -> Mat4 {
    Mat4 {
        m00: Fx { raw: dot4_val(a.m00.raw as int, a.m01.raw as int, a.m02.raw as int, a.m03.raw as int, b.m00.raw as int, b.m10.raw as int, b.m20.raw as int, b.m30.raw as int) as i64 },
        m01: Fx { raw: dot4_val(a.m00.raw as int, a.m01.raw as int, a.m02.raw as int, a.m03.raw as int, b.m01.raw as int, b.m11.raw as int, b.m21.raw as int, b.m31.raw as int) as i64 },
        m02: Fx { raw: dot4_val(a.m00.raw as int, a.m01.raw as int, a.m02.raw as int, a.m03.raw as int, b.m02.raw as int, b.m12.raw as int, b.m22.raw as int, b.m32.raw as int) as i64 },
        m03: Fx { raw: dot4_val(a.m00.raw as int, a.m01.raw as int, a.m02.raw as int, a.m03.raw as int, b.m03.raw as int, b.m13.raw as int, b.m23.raw as int, b.m33.raw as int) as i64 },
        m10: Fx { raw: dot4_val(a.m10.raw as int, a.m11.raw as int, a.m12.raw as int, a.m13.raw as int, b.m00.raw as int, b.m10.raw as int, b.m20.raw as int, b.m30.raw as int) as i64 },
        m11: Fx { raw: dot4_val(a.m10.raw as int, a.m11.raw as int, a.m12.raw as int, a.m13.raw as int, b.m01.raw as int, b.m11.raw as int, b.m21.raw as int, b.m31.raw as int) as i64 },
        m12: Fx { raw: dot4_val(a.m10.raw as int, a.m11.raw as int, a.m12.raw as int, a.m13.raw as int, b.m02.raw as int, b.m12.raw as int, b.m22.raw as int, b.m32.raw as int) as i64 },
        m13: Fx { raw: dot4_val(a.m10.raw as int, a.m11.raw as int, a.m12.raw as int, a.m13.raw as int, b.m03.raw as int, b.m13.raw as int, b.m23.raw as int, b.m33.raw as int) as i64 },
        m20: Fx { raw: dot4_val(a.m20.raw as int, a.m21.raw as int, a.m22.raw as int, a.m23.raw as int, b.m00.raw as int, b.m10.raw as int, b.m20.raw as int, b.m30.raw as int) as i64 },
        m21: Fx { raw: dot4_val(a.m20.raw as int, a.m21.raw as int, a.m22.raw as int, a.m23.raw as int, b.m01.raw as int, b.m11.raw as int, b.m21.raw as int, b.m31.raw as int) as i64 },
        m22: Fx { raw: dot4_val(a.m20.raw as int, a.m21.raw as int, a.m22.raw as int, a.m23.raw as int, b.m02.raw as int, b.m12.raw as int, b.m22.raw as int, b.m32.raw as int) as i64 },
        m23: Fx { raw: dot4_val(a.m20.raw as int, a.m21.raw as int, a.m22.raw as int, a.m23.raw as int, b.m03.raw as int, b.m13.raw as int, b.m23.raw as int, b.m33.raw as int) as i64 },
        m30: Fx { raw: dot4_val(a.m30.raw as int, a.m31.raw as int, a.m32.raw as int, a.m33.raw as int, b.m00.raw as int, b.m10.raw as int, b.m20.raw as int, b.m30.raw as int) as i64 },
        m31: Fx { raw: dot4_val(a.m30.raw as int, a.m31.raw as int, a.m32.raw as int, a.m33.raw as int, b.m01.raw as int, b.m11.raw as int, b.m21.raw as int, b.m31.raw as int) as i64 },
        m32: Fx { raw: dot4_val(a.m30.raw as int, a.m31.raw as int, a.m32.raw as int, a.m33.raw as int, b.m02.raw as int, b.m12.raw as int, b.m22.raw as int, b.m32.raw as int) as i64 },
        m33: Fx { raw: dot4_val(a.m30.raw as int, a.m31.raw as int, a.m32.raw as int, a.m33.raw as int, b.m03.raw as int, b.m13.raw as int, b.m23.raw as int, b.m33.raw as int) as i64 },
    }
}

/// The identity matrix.
pub open spec fn mat_identity_spec() -> Mat4 {
    Mat4 {
        m00: Fx { raw: FX_ONE_RAW }, m01: Fx { raw: 0 }, m02: Fx { raw: 0 }, m03: Fx { raw: 0 },
        m10: Fx { raw: 0 }, m11: Fx { raw: FX_ONE_RAW }, m12: Fx { raw: 0 }, m13: Fx { raw: 0 },
        m20: Fx { raw: 0 }, m21: Fx { raw: 0 }, m22: Fx { raw: FX_ONE_RAW }, m23: Fx { raw: 0 },
        m30: Fx { raw: 0 }, m31: Fx { raw: 0 }, m32: Fx { raw: 0 }, m33: Fx { raw: FX_ONE_RAW },
    }
}

/// The identity with a translation in the last column.
pub open spec fn mat_translation_spec(x: Fx, y: Fx, z: Fx) -> Mat4 {
    Mat4 { m03: x, m13: y, m23: z, ..mat_identity_spec() }
}

/// A diagonal scale matrix.
pub open spec fn mat_scale_spec(x: Fx, y: Fx, z: Fx) -> Mat4 {
    Mat4 { m00: x, m11: y, m22: z, ..mat_identity_spec() }
}

/// The projection-space correction appended before a node's effects are
/// emitted: it halves depth and shifts it, mapping z from `[-1, 1]` to
/// `[0, 1]`.
pub open spec fn opengl_to_wgpu_spec() -> Mat4 {
    Mat4 { m22: Fx { raw: FX_HALF_RAW }, m23: Fx { raw: FX_HALF_RAW }, ..mat_identity_spec() }
}

fn dot4(x0: Fx, x1: Fx, x2: Fx, x3: Fx, y0: Fx, y1: Fx, y2: Fx, y3: Fx) -> (r: Fx)
    ensures
        r.raw as int == dot4_val(
            x0.raw as int, x1.raw as int, x2.raw as int, x3.raw as int,
            y0.raw as int, y1.raw as int, y2.raw as int, y3.raw as int,
        ),
{
    x0.mul(y0).add(x1.mul(y1)).add(x2.mul(y2)).add(x3.mul(y3))
}

impl Mat4 {
    /// The identity matrix.
    pub fn identity() -> (r: Mat4)
        ensures
            r == mat_identity_spec(),
    {
        Mat4 {
            m00: Fx::one(), m01: Fx::zero(), m02: Fx::zero(), m03: Fx::zero(),
            m10: Fx::zero(), m11: Fx::one(), m12: Fx::zero(), m13: Fx::zero(),
            m20: Fx::zero(), m21: Fx::zero(), m22: Fx::one(), m23: Fx::zero(),
            m30: Fx::zero(), m31: Fx::zero(), m32: Fx::zero(), m33: Fx::one(),
        }
    }

    /// The identity with a translation in the last column.
    pub fn from_translation(x: Fx, y: Fx, z: Fx) -> (r: Mat4)
        ensures
            r == mat_translation_spec(x, y, z),
    {
        let mut m = Mat4::identity();
        m.m03 = x;
        m.m13 = y;
        m.m23 = z;
        m
    }

    /// A diagonal scale matrix.
    pub fn from_nonuniform_scale(x: Fx, y: Fx, z: Fx) -> (r: Mat4)
        ensures
            r == mat_scale_spec(x, y, z),
    {
        let mut m = Mat4::identity();
        m.m00 = x;
        m.m11 = y;
        m.m22 = z;
        m
    }

    /// The projection-space correction for the rendering backend.
    pub fn opengl_to_wgpu() -> (r: Mat4)
        ensures
            r == opengl_to_wgpu_spec(),
    {
        let mut m = Mat4::identity();
        m.m22 = Fx::half();
        m.m23 = Fx::half();
        m
    }

    /// The exact saturating matrix product `self * rhs`.
    pub fn mul(&self, rhs: &Mat4) -> (r: Mat4)
        ensures
            r == mat_mul_spec(*self, *rhs),
    {
        let a = *self;
        let b = *rhs;
        Mat4 {
            m00: dot4(a.m00, a.m01, a.m02, a.m03, b.m00, b.m10, b.m20, b.m30),
            m01: dot4(a.m00, a.m01, a.m02, a.m03, b.m01, b.m11, b.m21, b.m31),
            m02: dot4(a.m00, a.m01, a.m02, a.m03, b.m02, b.m12, b.m22, b.m32),
            m03: dot4(a.m00, a.m01, a.m02, a.m03, b.m03, b.m13, b.m23, b.m33),
            m10: dot4(a.m10, a.m11, a.m12, a.m13, b.m00, b.m10, b.m20, b.m30),
            m11: dot4(a.m10, a.m11, a.m12, a.m13, b.m01, b.m11, b.m21, b.m31),
            m12: dot4(a.m10, a.m11, a.m12, a.m13, b.m02, b.m12, b.m22, b.m32),
            m13: dot4(a.m10, a.m11, a.m12, a.m13, b.m03, b.m13, b.m23, b.m33),
            m20: dot4(a.m20, a.m21, a.m22, a.m23, b.m00, b.m10, b.m20, b.m30),
            m21: dot4(a.m20, a.m21, a.m22, a.m23, b.m01, b.m11, b.m21, b.m31),
            m22: dot4(a.m20, a.m21, a.m22, a.m23, b.m02, b.m12, b.m22, b.m32),
            m23: dot4(a.m20, a.m21, a.m22, a.m23, b.m03, b.m13, b.m23, b.m33),
            m30: dot4(a.m30, a.m31, a.m32, a.m33, b.m00, b.m10, b.m20, b.m30),
            m31: dot4(a.m30, a.m31, a.m32, a.m33, b.m01, b.m11, b.m21, b.m31),
            m32: dot4(a.m30, a.m31, a.m32, a.m33, b.m02, b.m12, b.m22, b.m32),
            m33: dot4(a.m30, a.m31, a.m32, a.m33, b.m03, b.m13, b.m23, b.m33),
        }
    }
}

/// A node's placement: a translation and a per-axis scale, combined into a
/// matrix as translation times scale.
#[derive(Clone, Copy, Debug)]
pub struct Transform {
    /// Where the node sits, per axis.
    pub translation: (Fx, Fx, Fx),
    /// How the node is stretched, per axis.
    pub scale: (Fx, Fx, Fx),
}

/// The matrix a transform denotes: its translation matrix times its scale
/// matrix.
pub open spec fn transform_matrix_spec(t: Transform) -> Mat4 {
    mat_mul_spec(
        mat_translation_spec(t.translation.0, t.translation.1, t.translation.2),
        mat_scale_spec(t.scale.0, t.scale.1, t.scale.2),
    )
}

impl Transform {
    /// A transform from its parts.
    pub fn new(translation: (Fx, Fx, Fx), scale: (Fx, Fx, Fx)) -> (r: Transform)
        ensures
            r == (Transform { translation, scale }),
    {
        Transform { translation, scale }
    }

    /// The translation of this transform.
    pub fn get_translation(&self) -> (r: (Fx, Fx, Fx))
        ensures
            r == self.translation,
    {
        self.translation
    }

    /// Moves the node by the given offsets.
    pub fn translate(&mut self, by: (Fx, Fx, Fx))
        ensures
            final(self).translation.0 == old(self).translation.0.add_spec(by.0),
            final(self).translation.1 == old(self).translation.1.add_spec(by.1),
            final(self).translation.2 == old(self).translation.2.add_spec(by.2),
            final(self).scale == old(self).scale,
    {
        self.translation = (
            self.translation.0.add(by.0),
            self.translation.1.add(by.1),
            self.translation.2.add(by.2),
        );
    }

    /// Places the node at the given position.
    pub fn set_translation(&mut self, new_translation: (Fx, Fx, Fx))
        ensures
            final(self).translation == new_translation,
            final(self).scale == old(self).scale,
    {
        self.translation = new_translation;
    }

    /// The scale of this transform.
    pub fn get_scale(&self) -> (r: (Fx, Fx, Fx))
        ensures
            r == self.scale,
    {
        self.scale
    }

    /// Stretches the node by the given per-axis factors.
    pub fn scale(&mut self, by: (Fx, Fx, Fx))
        ensures
            final(self).scale.0 == old(self).scale.0.mul_spec(by.0),
            final(self).scale.1 == old(self).scale.1.mul_spec(by.1),
            final(self).scale.2 == old(self).scale.2.mul_spec(by.2),
            final(self).translation == old(self).translation,
    {
        self.scale = (self.scale.0.mul(by.0), self.scale.1.mul(by.1), self.scale.2.mul(by.2));
    }

    /// Sets the per-axis scale.
    pub fn set_scale(&mut self, new_scale: (Fx, Fx, Fx))
        ensures
            final(self).scale == new_scale,
            final(self).translation == old(self).translation,
    {
        self.scale = new_scale;
    }

    /// The matrix this transform denotes.
    pub fn matrix(&self) -> (r: Mat4)
        ensures
            r == transform_matrix_spec(*self),
    {
        Mat4::from_translation(self.translation.0, self.translation.1, self.translation.2).mul(
            &Mat4::from_nonuniform_scale(self.scale.0, self.scale.1, self.scale.2),
        )
    }
}

impl Default for Transform {
    /// The resting transform: no translation, unit scale.
    fn default() -> (r: Transform)
        ensures
            r.translation == (Fx { raw: 0 }, Fx { raw: 0 }, Fx { raw: 0 }),
            r.scale == (Fx { raw: FX_ONE_RAW }, Fx { raw: FX_ONE_RAW }, Fx { raw: FX_ONE_RAW }),
    {
        Transform {
            translation: (Fx::zero(), Fx::zero(), Fx::zero()),
            scale: (Fx::one(), Fx::one(), Fx::one()),
        }
    }
}

} // verus!
