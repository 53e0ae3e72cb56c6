//! The view transform of a camera, and the check on the extent of an
//! orthographic projection.
//!
//! A camera stands at a position and looks along a facing direction. Its view
//! transform takes world coordinates to coordinates relative to the camera.
//! World up is the Y axis. Vectors and matrices are `glam`'s; contracts speak
//! of the encodings of their components (see [`crate::components`]).
//!
//! A camera that looks straight up or down has no defined up axis; this
//! library rejects such a facing rather than pick another reference axis.

use vstd::prelude::*;
use crate::binary32;
use crate::components::{
    lemma_finite_mat3, lemma_finite_translation, lemma_negated_vector, lemma_same_mat3,
    lemma_same_mat4, lemma_same_vec3, Mat3Bits, Mat4Bits, Vec3Bits,
};
use crate::linear::{
    crossed, difference, inverted, mat3_bits, mat4_bits, multiply, negate, normalized, product,
    projected, read_mat3, read_mat4, read_vec3, subtract, unit_y, vec3_bits,
};

verus! {

/// Why a transform could not be built.
#[derive(Clone, Copy, Debug, PartialEq, Eq, Structural)]
pub enum CameraError {
    /// The parameters describe no camera, or none that single precision can
    /// represent.
    InvalidInput,
}

/// The three axes of a camera, as world-space vectors.
#[derive(Clone, Copy)]
pub struct CameraBasis {
    /// The camera's right axis.
    pub x_axis: glam::Vec3,
    /// The camera's up axis.
    pub y_axis: glam::Vec3,
    /// The camera's forward axis.
    pub z_axis: glam::Vec3,
}

/// The world's up direction, `(0, 1, 0)`.
pub open spec fn world_up() -> Vec3Bits {
    Vec3Bits { x: binary32::POSITIVE_ZERO, y: binary32::ONE, z: binary32::POSITIVE_ZERO }
}

/// The facing is parallel to world up, or has no length at all: its X and Z
/// components are both zero.
pub open spec fn vertical(facing: Vec3Bits) -> bool {
    binary32::zero(facing.x) && binary32::zero(facing.z)
}

/// The forward axis: the facing, normalized.
pub open spec fn forward_axis(facing: Vec3Bits) -> Vec3Bits {
    normalized(facing)
}

/// The part of world up that lies along the forward axis.
pub open spec fn up_along_forward(facing: Vec3Bits) -> Vec3Bits {
    projected(world_up(), forward_axis(facing))
}

/// World up with its part along the forward axis removed.
pub open spec fn up_residual(facing: Vec3Bits) -> Vec3Bits {
    difference(world_up(), up_along_forward(facing))
}

/// The up axis: the residual of world up, normalized.
pub open spec fn up_axis(facing: Vec3Bits) -> Vec3Bits {
    normalized(up_residual(facing))
}

/// The right axis: up cross forward, in that order.
pub open spec fn right_axis(facing: Vec3Bits) -> Vec3Bits {
    crossed(up_axis(facing), forward_axis(facing))
}

/// The matrix that has the right, up and forward axes as its columns.
pub open spec fn axes_matrix(facing: Vec3Bits) -> Mat3Bits {
    Mat3Bits { x_axis: right_axis(facing), y_axis: up_axis(facing), z_axis: forward_axis(facing) }
}

/// The rotation part of the view transform: the inverse of the transpose of
/// the axes matrix.
pub open spec fn rotation(facing: Vec3Bits) -> Mat3Bits {
    inverted(axes_matrix(facing).transposed())
}

/// The view transform: move the camera to the origin, then rotate.
pub open spec fn view_transform(position: Vec3Bits, facing: Vec3Bits) -> Mat4Bits {
    product(rotation(facing).embedded(), Mat4Bits::translation(position.negated()))
}

/// The facing gives a camera basis: it is finite, has a length, is not
/// vertical, and every step towards the three axes stays finite.
pub open spec fn basis_defined(facing: Vec3Bits) -> bool {
    &&& facing.finite()
    &&& !facing.zero()
    &&& !vertical(facing)
    &&& forward_axis(facing).finite()
    &&& up_along_forward(facing).finite()
    &&& up_residual(facing).finite()
    &&& up_axis(facing).finite()
    &&& right_axis(facing).finite()
}

/// Position and facing give a view transform: the position is finite, the
/// facing gives a basis, and the rotation and the transform are finite.
pub open spec fn view_defined(position: Vec3Bits, facing: Vec3Bits) -> bool {
    &&& position.finite()
    &&& basis_defined(facing)
    &&& rotation(facing).finite()
    &&& view_transform(position, facing).finite()
}

/// The extent of an orthographic view is usable: the view height and the
/// aspect ratio are both finite numbers greater than zero.
pub open spec fn ortho_extent_valid(view_height: u32, aspect_ratio: u32) -> bool {
    binary32::positive(view_height) && binary32::positive(aspect_ratio)
}

/// Tells whether a facing is vertical.
pub fn is_vertical(facing: &Vec3Bits) -> (r: bool)
    ensures
        r == vertical(*facing),
{
    binary32::is_zero(facing.x) && binary32::is_zero(facing.z)
}

/// Tells whether every component of `v` is a finite number.
pub fn vec3_is_finite(v: &glam::Vec3) -> (r: bool)
    ensures
        r == vec3_bits(*v).finite(),
{
    read_vec3(v).is_finite()
}

/// Tells whether every entry of `m` is a finite number.
pub fn mat4_is_finite(m: &glam::Mat4) -> (r: bool)
    ensures
        r == mat4_bits(*m).finite(),
{
    read_mat4(m).is_finite()
}

/// Lets a transform through if every entry is a finite number.
pub fn admit_transform(m: glam::Mat4) -> (r: Result<glam::Mat4, CameraError>)
    ensures
        r is Ok <==> mat4_bits(m).finite(),
        r matches Ok(admitted) ==> admitted == m,
        r matches Err(e) ==> e == CameraError::InvalidInput,
{
    if mat4_is_finite(&m) {
        Ok(m)
    } else {
        Err(CameraError::InvalidInput)
    }
}

/// Checks the extent of an orthographic view before a projection is built
/// from it. `view_height` and `aspect_ratio` are the encodings of the view's
/// height in world units and of its width divided by its height.
///
/// Both must be finite and greater than zero: a zero, a negative number, an
/// infinity and a not-a-number are each `InvalidInput`.
pub fn check_ortho_extent(view_height: u32, aspect_ratio: u32) -> (r: Result<(), CameraError>)
    ensures
        r is Ok <==> ortho_extent_valid(view_height, aspect_ratio),
        r matches Err(e) ==> e == CameraError::InvalidInput,
        binary32::zero(view_height) || binary32::negative(view_height) ==> r is Err,
        binary32::zero(aspect_ratio) || binary32::negative(aspect_ratio) ==> r is Err,
{
    if binary32::is_positive(view_height) && binary32::is_positive(aspect_ratio) {
        Ok(())
    } else {
        Err(CameraError::InvalidInput)
    }
}

/// Builds the orthonormal basis of a camera that looks along `cam_facing`.
///
/// The facing need not be normalized. It is rejected when a component is not
/// finite, when it has no length, when it is vertical, and when a step of the
/// construction leaves the finite numbers.
pub fn camera_basis(cam_facing: &glam::Vec3) -> (r: Result<CameraBasis, CameraError>)
    ensures
        r is Ok <==> basis_defined(vec3_bits(*cam_facing)),
        r matches Ok(basis) ==> {
            &&& vec3_bits(basis.x_axis) == right_axis(vec3_bits(*cam_facing))
            &&& vec3_bits(basis.y_axis) == up_axis(vec3_bits(*cam_facing))
            &&& vec3_bits(basis.z_axis) == forward_axis(vec3_bits(*cam_facing))
        },
        r matches Err(e) ==> e == CameraError::InvalidInput,
{
    let ghost f = vec3_bits(*cam_facing);
    let facing = read_vec3(cam_facing);
    if !facing.is_finite() || facing.is_zero() || is_vertical(&facing) {
        return Err(CameraError::InvalidInput);
    }
    let cam_z = cam_facing.normalize();
    proof {
        lemma_same_vec3(vec3_bits(cam_z), forward_axis(f));
    }
    if !vec3_is_finite(&cam_z) {
        return Err(CameraError::InvalidInput);
    }
    let up = unit_y();
    let along = up.project_onto(cam_z);
    proof {
        lemma_same_vec3(vec3_bits(along), up_along_forward(f));
    }
    if !vec3_is_finite(&along) {
        return Err(CameraError::InvalidInput);
    }
    let residual = subtract(up, along);
    proof {
        lemma_same_vec3(vec3_bits(residual), up_residual(f));
    }
    if !vec3_is_finite(&residual) {
        return Err(CameraError::InvalidInput);
    }
    let cam_y = residual.normalize();
    proof {
        lemma_same_vec3(vec3_bits(cam_y), up_axis(f));
    }
    if !vec3_is_finite(&cam_y) {
        return Err(CameraError::InvalidInput);
    }
    let cam_x = cam_y.cross(cam_z);
    proof {
        lemma_same_vec3(vec3_bits(cam_x), right_axis(f));
    }
    if !vec3_is_finite(&cam_x) {
        return Err(CameraError::InvalidInput);
    }
    Ok(CameraBasis { x_axis: cam_x, y_axis: cam_y, z_axis: cam_z })
}

/// Builds the view transform of a camera at `cam_pos` that looks along
/// `cam_facing`.
///
/// The result is the rotation into the camera's basis applied after the
/// translation by `-cam_pos`. It is `InvalidInput` when the position is not
/// finite, when the facing gives no basis (see [`camera_basis`]), and when
/// the rotation or the transform leaves the finite numbers; a transform that
/// is returned has finite entries only.
pub fn make_view_mat(cam_pos: &glam::Vec3, cam_facing: &glam::Vec3) -> (r: Result<
    glam::Mat4,
    CameraError,
>)
    ensures
        r is Ok <==> view_defined(vec3_bits(*cam_pos), vec3_bits(*cam_facing)),
        r matches Ok(m) ==> {
            &&& mat4_bits(m) == view_transform(vec3_bits(*cam_pos), vec3_bits(*cam_facing))
            &&& mat4_bits(m).finite()
        },
        r matches Err(e) ==> e == CameraError::InvalidInput,
        vec3_bits(*cam_facing).zero() ==> r is Err,
        vertical(vec3_bits(*cam_facing)) ==> r is Err,
        !vec3_bits(*cam_facing).finite() ==> r is Err,
        !vec3_bits(*cam_pos).finite() ==> r is Err,
{
    let ghost p = vec3_bits(*cam_pos);
    let ghost f = vec3_bits(*cam_facing);
    if !vec3_is_finite(cam_pos) {
        return Err(CameraError::InvalidInput);
    }
    let basis = match camera_basis(cam_facing) {
        Ok(basis) => basis,
        Err(e) => {
            return Err(e);
        },
    };
    let offset = negate(*cam_pos);
    let translation_mat = glam::Mat4::from_translation(offset);
    proof {
        lemma_negated_vector(p);
        lemma_same_vec3(vec3_bits(offset), p.negated());
        lemma_finite_translation(p.negated());
        lemma_same_mat4(mat4_bits(translation_mat), Mat4Bits::translation(p.negated()));
    }
    let axes = glam::Mat3::from_cols(basis.x_axis, basis.y_axis, basis.z_axis);
    let rows = axes.transpose();
    let rotation = rows.inverse();
    proof {
        lemma_same_mat3(mat3_bits(axes), axes_matrix(f));
        lemma_finite_mat3(axes_matrix(f));
        lemma_same_mat3(mat3_bits(rows), axes_matrix(f).transposed());
        lemma_same_mat3(mat3_bits(rotation), self::rotation(f));
    }
    if !read_mat3(&rotation).is_finite() {
        return Err(CameraError::InvalidInput);
    }
    let rotation_mat = glam::Mat4::from_mat3(rotation);
    let view = multiply(rotation_mat, translation_mat);
    proof {
        lemma_finite_mat3(self::rotation(f));
        lemma_same_mat4(mat4_bits(rotation_mat), self::rotation(f).embedded());
        lemma_same_mat4(mat4_bits(view), view_transform(p, f));
    }
    admit_transform(view)
}

} // verus!
