//! The single-precision vector and matrix arithmetic, which `glam` performs.
//!
//! Nothing in this file is proved. Each item states, for one function of
//! `glam`, what the rest of the library relies on.
//!
//! The same operands give the same number on every run, but the sign and
//! payload of a not-a-number are not fixed. So each result is stated up to
//! that payload (`same_numbers`): a result without a not-a-number is stated
//! bit for bit.

use vstd::prelude::*;
use crate::components::{Mat3Bits, Mat4Bits, Vec3Bits, Vec4Bits};

verus! {

/// `glam::Vec3`, three single-precision components.
#[verifier::external_type_specification]
#[verifier::external_body]
pub struct ExVec3(glam::Vec3);

/// `glam::Mat3`, three `Vec3` columns.
#[verifier::external_type_specification]
#[verifier::external_body]
pub struct ExMat3(glam::Mat3);

/// `glam::Mat4`, four columns of four single-precision components.
#[verifier::external_type_specification]
#[verifier::external_body]
pub struct ExMat4(glam::Mat4);

/// The encodings of the components of a `Vec3`.
pub uninterp spec fn vec3_bits(v: glam::Vec3) -> Vec3Bits;

/// The encodings of the entries of a `Mat3`, column by column.
pub uninterp spec fn mat3_bits(m: glam::Mat3) -> Mat3Bits;

/// The encodings of the entries of a `Mat4`, column by column.
pub uninterp spec fn mat4_bits(m: glam::Mat4) -> Mat4Bits;

/// What `Vec3::normalize` computes from a vector: the vector times the
/// reciprocal of its length.
pub uninterp spec fn normalized(v: Vec3Bits) -> Vec3Bits;

/// What `Vec3::project_onto` computes: the projection of `v` onto `onto`.
pub uninterp spec fn projected(v: Vec3Bits, onto: Vec3Bits) -> Vec3Bits;

/// What `Vec3 - Vec3` computes: the component-wise difference.
pub uninterp spec fn difference(a: Vec3Bits, b: Vec3Bits) -> Vec3Bits;

/// What `Vec3::cross` computes: the cross product `a × b`.
pub uninterp spec fn crossed(a: Vec3Bits, b: Vec3Bits) -> Vec3Bits;

/// What `Mat3::inverse` computes.
pub uninterp spec fn inverted(m: Mat3Bits) -> Mat3Bits;

/// What `Mat4 * Mat4` computes: the matrix product `a · b`.
pub uninterp spec fn product(a: Mat4Bits, b: Mat4Bits) -> Mat4Bits;

/// `Vec3::normalize` returns `v * (1 / v.length())` and does not panic
/// (`glam-assert` is off). Rounded arithmetic gives the same number for the
/// same operands and leaves only the payload of a not-a-number open, so the
/// result is the named one up to that payload.
pub assume_specification[ glam::Vec3::normalize ](v: glam::Vec3) -> (r: glam::Vec3)
    ensures
        vec3_bits(r).same_numbers(normalized(vec3_bits(v))),
;

/// `Vec3::project_onto` returns `rhs * v.dot(rhs) * (1 / rhs.dot(rhs))`; the
/// named result, up to the payload of a not-a-number.
pub assume_specification[ glam::Vec3::project_onto ](v: glam::Vec3, rhs: glam::Vec3) -> (r:
    glam::Vec3)
    ensures
        vec3_bits(r).same_numbers(projected(vec3_bits(v), vec3_bits(rhs))),
;

/// `Vec3::cross` returns the cross product of `v` and `rhs`, in that order:
/// the named result, up to the payload of a not-a-number.
pub assume_specification[ glam::Vec3::cross ](v: glam::Vec3, rhs: glam::Vec3) -> (r: glam::Vec3)
    ensures
        vec3_bits(r).same_numbers(crossed(vec3_bits(v), vec3_bits(rhs))),
;

/// `Mat3::from_cols` stores the three vectors as the columns.
pub assume_specification[ glam::Mat3::from_cols ](
    x_axis: glam::Vec3,
    y_axis: glam::Vec3,
    z_axis: glam::Vec3,
) -> (r: glam::Mat3)
    ensures
        mat3_bits(r).same_numbers(
            Mat3Bits {
                x_axis: vec3_bits(x_axis),
                y_axis: vec3_bits(y_axis),
                z_axis: vec3_bits(z_axis),
            },
        ),
;

/// `Mat3::transpose` moves each entry to its mirrored place.
pub assume_specification[ glam::Mat3::transpose ](m: &glam::Mat3) -> (r: glam::Mat3)
    ensures
        mat3_bits(r).same_numbers(mat3_bits(*m).transposed()),
;

/// `Mat3::inverse` divides the transposed cofactors by the determinant and
/// does not panic (`glam-assert` is off): the named result, up to the
/// payload of a not-a-number.
pub assume_specification[ glam::Mat3::inverse ](m: &glam::Mat3) -> (r: glam::Mat3)
    ensures
        mat3_bits(r).same_numbers(inverted(mat3_bits(*m))),
;

/// `Mat4::from_mat3` extends each column with `0.0` and adds the column
/// `(0, 0, 0, 1)`.
pub assume_specification[ glam::Mat4::from_mat3 ](m: glam::Mat3) -> (r: glam::Mat4)
    ensures
        mat4_bits(r).same_numbers(mat3_bits(m).embedded()),
;

/// `Mat4::from_translation` returns the identity with `(t, 1)` as its last
/// column.
pub assume_specification[ glam::Mat4::from_translation ](translation: glam::Vec3) -> (r:
    glam::Mat4)
    ensures
        mat4_bits(r).same_numbers(Mat4Bits::translation(vec3_bits(translation))),
;

/// `Vec3::Y`, the vector `(0, 1, 0)`.
#[verifier::external_body]
pub(crate) fn unit_y() -> (r: glam::Vec3)
    ensures
        vec3_bits(r) == (Vec3Bits {
            x: crate::binary32::POSITIVE_ZERO,
            y: crate::binary32::ONE,
            z: crate::binary32::POSITIVE_ZERO,
        }),
{
    glam::Vec3::Y
}

/// `Vec3 - Vec3` subtracts component by component: the named result, up to
/// the payload of a not-a-number.
#[verifier::external_body]
pub(crate) fn subtract(a: glam::Vec3, b: glam::Vec3) -> (r: glam::Vec3)
    ensures
        vec3_bits(r).same_numbers(difference(vec3_bits(a), vec3_bits(b))),
{
    a - b
}

/// `-Vec3` flips the sign of each component.
#[verifier::external_body]
pub(crate) fn negate(v: glam::Vec3) -> (r: glam::Vec3)
    ensures
        vec3_bits(r).same_numbers(vec3_bits(v).negated()),
{
    -v
}

/// `Mat4 * Mat4` is the matrix product, each entry a sum of four products
/// taken in column order: the named result, up to the payload of a
/// not-a-number.
#[verifier::external_body]
pub(crate) fn multiply(a: glam::Mat4, b: glam::Mat4) -> (r: glam::Mat4)
    ensures
        mat4_bits(r).same_numbers(product(mat4_bits(a), mat4_bits(b))),
{
    a * b
}

/// Reads the components of a `Vec3`, each through `to_bits`.
#[verifier::external_body]
pub(crate) fn read_vec3(v: &glam::Vec3) -> (r: Vec3Bits)
    ensures
        r == vec3_bits(*v),
{
    Vec3Bits { x: v.x.to_bits(), y: v.y.to_bits(), z: v.z.to_bits() }
}

/// Reads the entries of a `Mat3`, each through `to_bits`.
#[verifier::external_body]
pub(crate) fn read_mat3(m: &glam::Mat3) -> (r: Mat3Bits)
    ensures
        r == mat3_bits(*m),
{
    let (x, y, z) = (m.x_axis, m.y_axis, m.z_axis);
    Mat3Bits {
        x_axis: Vec3Bits { x: x.x.to_bits(), y: x.y.to_bits(), z: x.z.to_bits() },
        y_axis: Vec3Bits { x: y.x.to_bits(), y: y.y.to_bits(), z: y.z.to_bits() },
        z_axis: Vec3Bits { x: z.x.to_bits(), y: z.y.to_bits(), z: z.z.to_bits() },
    }
}

/// Reads the entries of a `Mat4`, each through `to_bits`.
#[verifier::external_body]
pub(crate) fn read_mat4(m: &glam::Mat4) -> (r: Mat4Bits)
    ensures
        r == mat4_bits(*m),
{
    let column = |c: glam::Vec4| Vec4Bits {
        x: c.x.to_bits(),
        y: c.y.to_bits(),
        z: c.z.to_bits(),
        w: c.w.to_bits(),
    };
    Mat4Bits {
        x_axis: column(m.x_axis),
        y_axis: column(m.y_axis),
        z_axis: column(m.z_axis),
        w_axis: column(m.w_axis),
    }
}

} // verus!
