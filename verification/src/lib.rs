//! Color-correctness gradients for an sRGB-aware rendering backend.
//!
//! The library models 1-D color gradients in gamma-encoded, premultiplied
//! 8-bit form, together with the linear-light arithmetic (conversion,
//! interpolation and "over" compositing) that a correct renderer must apply,
//! and a content-keyed cache of uploaded gradient textures.  All arithmetic
//! is exact fixed-point integer math, so every blending rule is stated and
//! proved as a contract.

pub mod cache;
pub mod color;
pub mod gradient;
pub mod panel;
pub mod srgb_table;
pub mod widget;
