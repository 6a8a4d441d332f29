//! Core of a small graphics engine: choosing a physical device, the life cycle
//! of a device context, device memory bookkeeping, command recording and
//! fence-based completion, and the per-window registry that owns one renderer
//! per window.
//!
//! The driver and the window system are reached by the program around this
//! library. The library decides; the program performs the calls and reports
//! back what happened.

pub mod command;
pub mod context;
pub mod device;
pub mod engine;
pub mod error;
pub mod fill;
pub mod lifecycle;
pub mod memory;
pub mod readback;
pub mod renderer;
pub mod resources;
