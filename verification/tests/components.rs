use camera_view::components::{Mat3Bits, Mat4Bits, Vec3Bits, Vec4Bits};

fn vec3(x: f32, y: f32, z: f32) -> Vec3Bits {
    Vec3Bits { x: x.to_bits(), y: y.to_bits(), z: z.to_bits() }
}

fn vec4(x: f32, y: f32, z: f32, w: f32) -> Vec4Bits {
    Vec4Bits { x: x.to_bits(), y: y.to_bits(), z: z.to_bits(), w: w.to_bits() }
}

#[test]
fn vector_is_finite_when_every_component_is() {
    assert!(vec3(1.0, -2.0, 0.0).is_finite());
    assert!(!vec3(f32::NAN, 0.0, 0.0).is_finite());
    assert!(!vec3(0.0, f32::INFINITY, 0.0).is_finite());
    assert!(!vec3(0.0, 0.0, f32::NEG_INFINITY).is_finite());
    assert!(vec4(1.0, 2.0, 3.0, 4.0).is_finite());
    assert!(!vec4(1.0, 2.0, 3.0, f32::NAN).is_finite());
    assert!(!vec4(f32::INFINITY, 2.0, 3.0, 4.0).is_finite());
}

#[test]
fn vector_is_zero_when_every_component_is() {
    assert!(vec3(0.0, 0.0, 0.0).is_zero());
    assert!(vec3(-0.0, 0.0, -0.0).is_zero());
    assert!(!vec3(0.0, 1.0e-45, 0.0).is_zero());
    assert!(!vec3(1.0, 0.0, 0.0).is_zero());
    assert!(!vec3(0.0, 0.0, f32::NAN).is_zero());
}

#[test]
fn matrix_is_finite_when_every_entry_is() {
    let good = Mat3Bits {
        x_axis: vec3(1.0, 0.0, 0.0),
        y_axis: vec3(0.0, 1.0, 0.0),
        z_axis: vec3(0.0, 0.0, 1.0),
    };
    assert!(good.is_finite());
    let bad = Mat3Bits { z_axis: vec3(0.0, 0.0, f32::NAN), ..good };
    assert!(!bad.is_finite());
    let bad = Mat3Bits { x_axis: vec3(f32::INFINITY, 0.0, 0.0), ..good };
    assert!(!bad.is_finite());

    let good = Mat4Bits {
        x_axis: vec4(1.0, 0.0, 0.0, 0.0),
        y_axis: vec4(0.0, 1.0, 0.0, 0.0),
        z_axis: vec4(0.0, 0.0, 1.0, 0.0),
        w_axis: vec4(5.0, 6.0, 7.0, 1.0),
    };
    assert!(good.is_finite());
    let bad = Mat4Bits { w_axis: vec4(5.0, f32::NEG_INFINITY, 7.0, 1.0), ..good };
    assert!(!bad.is_finite());
    let bad = Mat4Bits { y_axis: vec4(0.0, 1.0, f32::NAN, 0.0), ..good };
    assert!(!bad.is_finite());
}
