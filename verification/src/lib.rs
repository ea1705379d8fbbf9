//! Palette extraction and swatch-grid synthesis.
//!
//! The crate holds the rules of a small palette tool: checking a request,
//! turning the quantization engine's outcome into a palette, rendering colors
//! as text, and laying the palette out as a grid of square cells. Reading and
//! writing files is left to the caller, who hands in what was read and takes
//! back what is to be written.

pub mod canvas;
pub mod color;
pub mod error;
pub mod extract;
pub mod format;
pub mod grid;
pub mod palette;
pub mod validate;
