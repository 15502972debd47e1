//! Core of an interactive drawing canvas: the drawing-element model, the
//! pointer-driven tool state machine, the vector-to-raster conversion for
//! custom rectangles, and the dispatcher that turns the committed scene into
//! an ordered sequence of draw primitives.
//!
//! The surrounding user interface (window, pointer event source, settings
//! panel, rendering surface) lives outside this crate; it hands in plain
//! pointer positions and tool settings and receives draw primitives back.

pub mod color;
pub mod elements;
pub mod geometry;
pub mod helpers;
pub mod model;
pub mod raster;
pub mod render;
