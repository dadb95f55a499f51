//! A verified model of an immediate-mode GUI frame loop.
//!
//! The library covers the orchestration of a small demo: building the
//! window, font and draw-conversion configurations, baking a font atlas,
//! accumulating widget draw commands in a UI context, packing those
//! commands into fixed-budget GPU buffers, and driving the
//! input / build / render / present / clear phase cycle until the window
//! is closed.  The platform collaborators (windowing, GPU device, glyph
//! rasterization) stay outside the library; it exchanges plain values
//! with them.

pub mod atlas;
pub mod config;
pub mod context;
pub mod drawer;
pub mod frame;
