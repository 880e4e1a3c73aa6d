//! Software rendering core for a small fixed-format display.
//!
//! The crate provides the coordinate model (points, offsets, rectangles and
//! viewports), a bitmap abstraction over several fixed pixel encodings, a
//! 16-bit canvas with fill / copy / blend / blur operations, a streaming
//! row-windowed blur engine with a bounded scratch budget, per-frame scratch
//! arenas, the codecs and rules of the device-storage entries, and the small
//! state machines that drive the interactive screens
//! built on top of the renderer.

pub mod bitmap;
pub mod blur;
pub mod cache;
pub mod canvas;
pub mod color;
pub mod flow;
pub mod format;
pub mod frame;
pub mod geometry;
pub mod hold;
pub mod popup;
pub mod storage;
pub mod viewport;
