//! Verified core of a set of stylized real-time clock renderers.
//!
//! The GPU, windowing and wall-clock glue around this crate works in
//! floating point and talks to the platform; everything that can be
//! stated exactly lives here instead, over plain integers and binary
//! fixed-point values: color packing and interpolation, the adaptive
//! drawspace scaling rule, the separable Gaussian blur coefficient
//! table, the 7-segment digit flags, the mechanical wheel angles, the
//! polar clock angles, per-frame render pass plans, and the byte
//! layouts handed to the shaders.
//!
//! Fixed-point conventions used throughout:
//! * `Q16` values carry 16 fractional bits (`x` stands for `x / 2^16`);
//! * `Q32` values carry 32 fractional bits (`x` stands for `x / 2^32`).
pub mod blur;
pub mod color;
pub mod fixedpoint;
pub mod frame;
pub mod gauss;
pub mod mesh;
pub mod pack;
pub mod polar;
pub mod portal;
pub mod scaling;
pub mod segments;
pub mod walltime;
pub mod wheels;
