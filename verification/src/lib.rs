//! Camera transforms for a small OpenGL renderer, with the decisions that
//! guard them.
//!
//! * [`camera`] builds the view transform of a camera and checks the extent
//!   of an orthographic view.
//! * [`binary32`] and [`components`] read single-precision numbers, vectors
//!   and matrices as encodings, so that contracts can speak of them.
//! * [`linear`] states what is relied on of `glam`, which does the arithmetic.
//! * [`lifecycle`] decides what the program does on each window event.
//! * [`shaders`] and [`vertex`] hold what the renderer hands to the driver.

pub mod binary32;
pub mod camera;
pub mod components;
pub mod lifecycle;
pub mod linear;
pub mod shaders;
pub mod vertex;

pub use camera::{make_view_mat, CameraError};
pub use shaders::ShaderPair;
pub use vertex::size_of_element;
