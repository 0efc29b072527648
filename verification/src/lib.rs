//! Layout engine for a fixed-template title card: a background photo fitted to
//! the canvas, a decorative overlay, and a caption squeezed into its band.
//!
//! The engine decides *what* is drawn and *where*, in exact integer arithmetic;
//! a raster backend replays the recorded canvas and encodes the pixels.

pub mod units;
pub mod geometry;
pub mod overlay;
pub mod text_fit;
pub mod canvas;
pub mod error;
pub mod render;
pub mod service;
