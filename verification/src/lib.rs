//! Core of a real-time 3D scene renderer, modelled over exact integers.
//!
//! The crate turns a scene description (models, materials, instance
//! transforms, one camera, one light) into the sequence of draw commands
//! that make up one frame.  GPU device work (buffer allocation, command
//! submission, presentation) is the caller's: the library computes what a
//! frame must contain and in which order, and hands plain values outward.
//! Scalar quantities (transform components, matrix entries, uniform words)
//! are carried in model units as `i64`, so every statement about them is
//! exact.

pub mod binding;
pub mod depth_pass;
pub mod frame;
pub mod instances;
pub mod matrix;
pub mod mesh;
pub mod model;
pub mod pipeline;
pub mod shapes;
pub mod transform;

pub use matrix::Mat3I;
pub use matrix::Mat4I;
pub use matrix::Vec3I;
