//! Host-side logic of two post-process passes: a separable Gaussian blur and
//! a CSS/SVG-style 4x5 color matrix.
//!
//! This crate holds the decisions and the uniform-buffer layouts of both
//! passes; the GPU work itself (pipelines, textures, render passes) and the
//! floating-point kernel math are done by the caller.

pub mod blur;
pub mod color_matrix;
