//! Per-frame decisions and procedural assets of a small fly-through scene:
//! the checkerboard-like debug texture, and what the held keys ask of the
//! camera. The engine that renders the scene and runs the frames calls in
//! with plain values.

pub mod controls;
pub mod texture;
