//! Frame planning for a GPU Mandelbrot viewer.
//!
//! The device, the window and the shading programs live outside this crate.
//! What is decided on the host before anything reaches the device lives here:
//! how many workgroups a compute pass dispatches, which bytes the kernel's
//! parameter block holds, when a resize reconfigures the surface, and what
//! the frame loop does with an input event or a failed presentation.

pub mod app;
pub mod bytes;
pub mod computer;
pub mod event;
pub mod geometry;
pub mod math;
pub mod renderer;
