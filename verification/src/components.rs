//! Vectors and matrices as the encodings of their components.
//!
//! These are the values that contracts speak of: each component is the 32-bit
//! encoding of a single-precision number (see [`crate::binary32`]), and a
//! matrix is held column by column.

use vstd::prelude::*;
use crate::binary32;

verus! {

/// The components of a 3-vector.
#[derive(Clone, Copy, Debug, PartialEq, Eq, Structural)]
pub struct Vec3Bits {
    pub x: u32,
    pub y: u32,
    pub z: u32,
}

/// The components of a 4-vector.
#[derive(Clone, Copy, Debug, PartialEq, Eq, Structural)]
pub struct Vec4Bits {
    pub x: u32,
    pub y: u32,
    pub z: u32,
    pub w: u32,
}

/// The columns of a 3x3 matrix.
#[derive(Clone, Copy, Debug, PartialEq, Eq, Structural)]
pub struct Mat3Bits {
    pub x_axis: Vec3Bits,
    pub y_axis: Vec3Bits,
    pub z_axis: Vec3Bits,
}

/// The columns of a 4x4 matrix.
#[derive(Clone, Copy, Debug, PartialEq, Eq, Structural)]
pub struct Mat4Bits {
    pub x_axis: Vec4Bits,
    pub y_axis: Vec4Bits,
    pub z_axis: Vec4Bits,
    pub w_axis: Vec4Bits,
}

impl Vec3Bits {
    /// Every component is a finite number.
    pub open spec fn finite(self) -> bool {
        binary32::finite(self.x) && binary32::finite(self.y) && binary32::finite(self.z)
    }

    /// Every component is a zero, of either sign.
    pub open spec fn zero(self) -> bool {
        binary32::zero(self.x) && binary32::zero(self.y) && binary32::zero(self.z)
    }

    /// The two vectors agree component by component, up to the payload of a
    /// not-a-number.
    pub open spec fn same_numbers(self, other: Vec3Bits) -> bool {
        binary32::same_number(self.x, other.x) && binary32::same_number(self.y, other.y)
            && binary32::same_number(self.z, other.z)
    }

    /// The vector with each component's sign flipped.
    pub open spec fn negated(self) -> Vec3Bits {
        Vec3Bits {
            x: binary32::negated(self.x),
            y: binary32::negated(self.y),
            z: binary32::negated(self.z),
        }
    }

    /// The 4-vector that has `w` as its last component.
    pub open spec fn extended(self, w: u32) -> Vec4Bits {
        Vec4Bits { x: self.x, y: self.y, z: self.z, w }
    }

    /// Tells whether every component is a finite number.
    pub fn is_finite(&self) -> (r: bool)
        ensures
            r == self.finite(),
    {
        binary32::is_finite(self.x) && binary32::is_finite(self.y) && binary32::is_finite(self.z)
    }

    /// Tells whether every component is a zero.
    pub fn is_zero(&self) -> (r: bool)
        ensures
            r == self.zero(),
    {
        binary32::is_zero(self.x) && binary32::is_zero(self.y) && binary32::is_zero(self.z)
    }
}

/// Vectors that agree up to the payload of a not-a-number are both finite or
/// both not, and a finite one is the other bit for bit.
pub proof fn lemma_same_vec3(a: Vec3Bits, b: Vec3Bits)
    requires
        a.same_numbers(b),
    ensures
        a.finite() == b.finite(),
        a.finite() ==> a == b,
{
}

/// Matrices that agree up to the payload of a not-a-number are both finite
/// or both not, and a finite one is the other bit for bit.
pub proof fn lemma_same_mat3(a: Mat3Bits, b: Mat3Bits)
    requires
        a.same_numbers(b),
    ensures
        a.finite() == b.finite(),
        a.finite() ==> a == b,
{
    lemma_same_vec3(a.x_axis, b.x_axis);
    lemma_same_vec3(a.y_axis, b.y_axis);
    lemma_same_vec3(a.z_axis, b.z_axis);
}

/// Matrices that agree up to the payload of a not-a-number are both finite
/// or both not, and a finite one is the other bit for bit.
pub proof fn lemma_same_mat4(a: Mat4Bits, b: Mat4Bits)
    requires
        a.same_numbers(b),
    ensures
        a.finite() == b.finite(),
        a.finite() ==> a == b,
{
    assert(a.x_axis.finite() == b.x_axis.finite() && (a.x_axis.finite() ==> a.x_axis
        == b.x_axis));
    assert(a.y_axis.finite() == b.y_axis.finite() && (a.y_axis.finite() ==> a.y_axis
        == b.y_axis));
    assert(a.z_axis.finite() == b.z_axis.finite() && (a.z_axis.finite() ==> a.z_axis
        == b.z_axis));
    assert(a.w_axis.finite() == b.w_axis.finite() && (a.w_axis.finite() ==> a.w_axis
        == b.w_axis));
}

/// A finite matrix stays finite when it is transposed, and when it is
/// embedded in a 4x4 matrix.
pub proof fn lemma_finite_mat3(m: Mat3Bits)
    requires
        m.finite(),
    ensures
        m.transposed().finite(),
        m.embedded().finite(),
{
}

/// The matrix that moves by a finite offset is finite.
pub proof fn lemma_finite_translation(offset: Vec3Bits)
    requires
        offset.finite(),
    ensures
        Mat4Bits::translation(offset).finite(),
{
}

/// Negating a vector changes no component's class, and negating twice gives
/// the vector back.
pub proof fn lemma_negated_vector(v: Vec3Bits)
    ensures
        v.negated().finite() == v.finite(),
        v.negated().zero() == v.zero(),
        v.negated().negated() == v,
{
    binary32::lemma_negated(v.x);
    binary32::lemma_negated(v.y);
    binary32::lemma_negated(v.z);
}

impl Vec4Bits {
    /// Every component is a finite number.
    pub open spec fn finite(self) -> bool {
        binary32::finite(self.x) && binary32::finite(self.y) && binary32::finite(self.z)
            && binary32::finite(self.w)
    }

    /// The two vectors agree component by component, up to the payload of a
    /// not-a-number.
    pub open spec fn same_numbers(self, other: Vec4Bits) -> bool {
        binary32::same_number(self.x, other.x) && binary32::same_number(self.y, other.y)
            && binary32::same_number(self.z, other.z) && binary32::same_number(self.w, other.w)
    }

    /// Tells whether every component is a finite number.
    pub fn is_finite(&self) -> (r: bool)
        ensures
            r == self.finite(),
    {
        binary32::is_finite(self.x) && binary32::is_finite(self.y) && binary32::is_finite(self.z)
            && binary32::is_finite(self.w)
    }
}

impl Mat3Bits {
    /// Every entry is a finite number.
    pub open spec fn finite(self) -> bool {
        self.x_axis.finite() && self.y_axis.finite() && self.z_axis.finite()
    }

    /// The two matrices agree entry by entry, up to the payload of a
    /// not-a-number.
    pub open spec fn same_numbers(self, other: Mat3Bits) -> bool {
        self.x_axis.same_numbers(other.x_axis) && self.y_axis.same_numbers(other.y_axis)
            && self.z_axis.same_numbers(other.z_axis)
    }

    /// The matrix with rows and columns exchanged.
    pub open spec fn transposed(self) -> Mat3Bits {
        Mat3Bits {
            x_axis: Vec3Bits { x: self.x_axis.x, y: self.y_axis.x, z: self.z_axis.x },
            y_axis: Vec3Bits { x: self.x_axis.y, y: self.y_axis.y, z: self.z_axis.y },
            z_axis: Vec3Bits { x: self.x_axis.z, y: self.y_axis.z, z: self.z_axis.z },
        }
    }

    /// The 4x4 matrix that applies this one to the first three coordinates
    /// and keeps the fourth.
    pub open spec fn embedded(self) -> Mat4Bits {
        Mat4Bits {
            x_axis: self.x_axis.extended(binary32::POSITIVE_ZERO),
            y_axis: self.y_axis.extended(binary32::POSITIVE_ZERO),
            z_axis: self.z_axis.extended(binary32::POSITIVE_ZERO),
            w_axis: Vec4Bits {
                x: binary32::POSITIVE_ZERO,
                y: binary32::POSITIVE_ZERO,
                z: binary32::POSITIVE_ZERO,
                w: binary32::ONE,
            },
        }
    }

    /// Tells whether every entry is a finite number.
    pub fn is_finite(&self) -> (r: bool)
        ensures
            r == self.finite(),
    {
        self.x_axis.is_finite() && self.y_axis.is_finite() && self.z_axis.is_finite()
    }
}

impl Mat4Bits {
    /// Every entry is a finite number.
    pub open spec fn finite(self) -> bool {
        self.x_axis.finite() && self.y_axis.finite() && self.z_axis.finite()
            && self.w_axis.finite()
    }

    /// The two matrices agree entry by entry, up to the payload of a
    /// not-a-number.
    pub open spec fn same_numbers(self, other: Mat4Bits) -> bool {
        self.x_axis.same_numbers(other.x_axis) && self.y_axis.same_numbers(other.y_axis)
            && self.z_axis.same_numbers(other.z_axis) && self.w_axis.same_numbers(other.w_axis)
    }

    /// The matrix that moves every point by `offset`.
    pub open spec fn translation(offset: Vec3Bits) -> Mat4Bits {
        Mat4Bits {
            x_axis: Vec4Bits {
                x: binary32::ONE,
                y: binary32::POSITIVE_ZERO,
                z: binary32::POSITIVE_ZERO,
                w: binary32::POSITIVE_ZERO,
            },
            y_axis: Vec4Bits {
                x: binary32::POSITIVE_ZERO,
                y: binary32::ONE,
                z: binary32::POSITIVE_ZERO,
                w: binary32::POSITIVE_ZERO,
            },
            z_axis: Vec4Bits {
                x: binary32::POSITIVE_ZERO,
                y: binary32::POSITIVE_ZERO,
                z: binary32::ONE,
                w: binary32::POSITIVE_ZERO,
            },
            w_axis: offset.extended(binary32::ONE),
        }
    }

    /// Tells whether every entry is a finite number.
    pub fn is_finite(&self) -> (r: bool)
        ensures
            r == self.finite(),
    {
        self.x_axis.is_finite() && self.y_axis.is_finite() && self.z_axis.is_finite()
            && self.w_axis.is_finite()
    }
}

} // verus!
