//! Rendering-state core for a single coloured triangle drawn into a surface that a
//! host toolkit owns: the vertex data and its layout, the GPU state record, the
//! per-frame command list and the surface lifecycle.
//!
//! The library decides and describes; it never touches the GPU. The embedding
//! program performs the described work and reports handles and surface queries
//! back as plain values.

pub mod adapter;
pub mod frame;
pub mod geometry;
pub mod gpu;
