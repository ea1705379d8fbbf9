//! What can go wrong while a palette is extracted and drawn.

use vstd::prelude::*;

verus! {

/// The failures of one run. Each ends the run; none is retried.
#[derive(Debug, Clone, PartialEq, Eq)]
pub enum AppError {
    /// The quality level lies outside 1..=10.
    InvalidQuality(u8),
    /// The maximum number of colors lies outside 2..=255.
    InvalidMaxColors(u8),
    /// Nothing exists at the image path.
    InvalidImagePath(String),
    /// The file at the image path could not be decoded.
    ImageOpenError(String),
    /// The quantization engine gave no palette.
    PaletteExtractionError,
    /// The grid image could not be written.
    ImageSaveError,
}

} // verus!
