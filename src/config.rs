use vstd::prelude::*;

verus! {

/// Width of the canvas, in pixels.
pub const WIDTH: i32 = 1280;

/// Height of the canvas, in pixels.
pub const HEIGHT: i32 = 960;

/// Iteration budget of a freshly made camera.
pub const MAX_ITERATIONS: u32 = 64;

/// Iterations added or taken away by one press of an iteration key.
pub const ITERATION_STEP: u32 = 64;

/// The budget never drops below this, so that shading never divides by zero.
pub const MIN_ITERATIONS: u32 = 1;

/// Number of colours in a palette: one per intensity byte.
pub const PALETTE_LEN: usize = 256;

} // verus!
