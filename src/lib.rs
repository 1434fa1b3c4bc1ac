//! Lifecycle and drawing decisions for a vector canvas hosted in a GPU-backed
//! toolkit widget.
//!
//! The toolkit drives the widget through `realize`, `resize`, `render` and
//! `unrealize`. This crate decides, for each of those callbacks, what the host
//! must do: when the vector renderer bridge is built and torn down, which
//! framebuffer it targets, what size the canvas is given, and which draw
//! commands a frame issues.
use vstd::prelude::*;

pub mod figure;
pub mod laws;
pub mod lifecycle;
pub mod render;

pub use figure::{figure, Point, Segment, LINE_WIDTH};
pub use lifecycle::{
    Bridge, BridgeStep, CanvasSize, FemtovgCanvas, TeardownStep, HAS_STENCIL_BUFFER,
};
pub use render::{plan_frame, CanvasError, ClearRect, RenderPlan, Rgba8};
