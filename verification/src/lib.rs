//! Core library for an ASCII-art ray tracer: integer framebuffer logic,
//! the neighbor-averaging post-filter, the adaptive-resolution controller,
//! render-command plumbing, timing, profiling, and the fixed-timestep
//! simulation executor. The floating-point sampling that fills the
//! framebuffer lives in the surrounding binary.

pub mod conversions;
pub mod profiling;
pub mod queue;
pub mod raytracer;
pub mod render;
pub mod simulation;
pub mod text;
pub mod timing;
pub mod window;
