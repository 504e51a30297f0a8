//! The decision logic of a minimal explicit-API renderer that draws one
//! static triangle onto a double-buffered presentation surface.
//!
//! Everything here works on plain values: the caller owns the native device,
//! queue and swapchain, performs each action this library hands out, and
//! reports back what happened.

pub mod resource;
pub mod targets;
pub mod geometry;
pub mod commands;
pub mod frame;
pub mod upload;
pub mod setup;
pub mod pipeline;
