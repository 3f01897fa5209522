//! Escape-time shading, camera control and canvas layout for an interactive
//! Mandelbrot viewer. The integer side of the viewer lives here, with its
//! contracts; the floating-point plane arithmetic is done by the caller.

pub mod config;
pub mod shading;
pub mod camera;
pub mod canvas;
