//! Host-side core of a GPU Mandelbrot renderer: the pixel-buffer layout that
//! the compute kernel writes and the display reads, and the one-time setup of
//! the compute pipeline.

pub mod error;
pub mod layout;
pub mod pipeline;
pub mod pixels;
pub mod raster;
pub mod render;
