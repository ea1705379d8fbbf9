//! From the pixels of an image to its palette.

use vstd::prelude::*;
use crate::color::Color;
use crate::error::AppError;
use crate::palette::{leading, Palette};
use crate::validate::{max_colors_in_range, quality_in_range, ExtractionRequest};

verus! {

/// The error of the quantization engine. Nothing is read from it: whatever
/// the engine reports becomes a `PaletteExtractionError`.
#[verifier::external_type_specification]
#[verifier::external_body]
pub struct ExEngineError(color_thief::Error);

/// The most samples that the engine can take without harm. It counts its
/// samples, and sums their channels weighted by at most 252 each, in 32-bit
/// integers: with this many samples no count or sum overflows, with one more
/// a sum can.
pub const MAX_SAMPLES: usize = 8_521_760;

/// The number of pixels that the engine samples in `len` bytes of pixel data,
/// three bytes a pixel: it starts at the first pixel and goes on in steps of
/// three times the quality for as long as there are pixels.
pub open spec fn sample_count(len: nat, quality: u8) -> nat {
    ((len / 3 + 3 * quality - 1) / (3 * quality)) as nat
}

/// The number of samples that the engine takes of this much pixel data.
pub fn samples_of(len: usize, quality: u8) -> (samples: usize)
    requires
        quality_in_range(quality),
    ensures
        samples == sample_count(len as nat, quality),
{
    let pixels: usize = len / 3;
    let step: usize = 3 * (quality as usize);
    (pixels + step - 1) / step
}

/// What the engine finds in the pixels of an image, three bytes a pixel (red,
/// green, blue): the colors in the order of their weight, or nothing where it
/// fails.
pub uninterp spec fn engine_palette(pixels: Seq<u8>, quality: u8, max_colors: u8) -> Option<
    Seq<Color>,
>;

/// `color_thief::get_palette` on pixels of three bytes each. The engine
/// computes its result from the arguments alone, so the result has a name,
/// `engine_palette`. Of a palette that it finds, its source shows that it
/// holds at least one color (the queue that the colors are taken from is
/// never empty) and at most `max_colors` (the result is cut off there).
/// The engine panics on a quality outside 1..=10 and on fewer than two
/// colors, and its 32-bit sums can overflow on more than `MAX_SAMPLES`
/// samples: the precondition leaves these out.
#[verifier::external_body]
fn quantize(pixels: &[u8], quality: u8, max_colors: u8) -> (outcome: Result<
    Vec<Color>,
    color_thief::Error,
>)
    requires
        quality_in_range(quality),
        max_colors_in_range(max_colors),
        sample_count(pixels@.len(), quality) <= MAX_SAMPLES,
    ensures
        match outcome {
            Ok(colors) => {
                &&& engine_palette(pixels@, quality, max_colors) == Some(colors@)
                &&& 1 <= colors@.len() <= max_colors
            },
            Err(_) => engine_palette(pixels@, quality, max_colors) is None,
        },
{
    match color_thief::get_palette(pixels, color_thief::ColorFormat::Rgb, quality, max_colors) {
        Ok(colors) => Ok(colors.into_iter().map(|c| Color { r: c.r, g: c.g, b: c.b }).collect()),
        Err(error) => Err(error),
    }
}

/// Turns an outcome of the engine into a palette, for every outcome there can
/// be: the colors are kept in the engine's order, never more than
/// `max_colors` of them, and any error of the engine gives a
/// `PaletteExtractionError`.
pub fn palette_from_outcome(outcome: Result<Vec<Color>, color_thief::Error>, max_colors: u8) -> (palette:
    Result<Palette, AppError>)
    ensures
        match outcome {
            Ok(colors) => palette matches Ok(p) && p@ == leading(colors@, max_colors as nat),
            Err(_) => palette == Err::<Palette, AppError>(AppError::PaletteExtractionError),
        },
{
    match outcome {
        Ok(colors) => Ok(Palette::from_leading_colors(colors, max_colors)),
        Err(_) => Err(AppError::PaletteExtractionError),
    }
}

/// What extracting a palette gives. `decoded` holds the pixels of the image,
/// three bytes each, or nothing where the file could not be decoded.
///
/// An image that could not be decoded gives an `ImageOpenError` with its
/// path. Pixel data of more samples than the engine can sum, and data that
/// the engine fails on, give a `PaletteExtractionError`. Otherwise the
/// palette is what the engine found: its colors in its order, none added and
/// none left out.
pub open spec fn extraction(
    image_path: String,
    quality: u8,
    max_colors: u8,
    decoded: Option<Seq<u8>>,
) -> Result<Seq<Color>, AppError> {
    match decoded {
        None => Err(AppError::ImageOpenError(image_path)),
        Some(pixels) => if sample_count(pixels.len(), quality) > MAX_SAMPLES {
            Err(AppError::PaletteExtractionError)
        } else {
            match engine_palette(pixels, quality, max_colors) {
                Some(colors) => Ok(colors),
                None => Err(AppError::PaletteExtractionError),
            }
        },
    }
}

/// The bytes behind the decoded pixels, if there are any.
pub open spec fn pixels_of(decoded: Option<&[u8]>) -> Option<Seq<u8>> {
    match decoded {
        Some(pixels) => Some(pixels@),
        None => None,
    }
}

/// Extracts the palette of an image that the caller has decoded. The outcome
/// is the one that `extraction` gives, and a palette that comes out holds at
/// least one color and no more than the request allows.
pub fn extract_palette(request: &ExtractionRequest, decoded: Option<&[u8]>) -> (palette: Result<
    Palette,
    AppError,
>)
    ensures
        match palette {
            Ok(p) => {
                &&& extraction(
                    request.image_path(),
                    request.quality(),
                    request.max_colors(),
                    pixels_of(decoded),
                ) == Ok::<Seq<Color>, AppError>(p@)
                &&& 1 <= p@.len() <= request.max_colors()
            },
            Err(failure) => extraction(
                request.image_path(),
                request.quality(),
                request.max_colors(),
                pixels_of(decoded),
            ) == Err::<Seq<Color>, AppError>(failure),
        },
{
    match decoded {
        None => Err(AppError::ImageOpenError(request.image_path())),
        Some(pixels) => {
            let quality: u8 = request.quality();
            let max_colors: u8 = request.max_colors();
            if samples_of(pixels.len(), quality) > MAX_SAMPLES {
                Err(AppError::PaletteExtractionError)
            } else {
                let outcome = quantize(pixels, quality, max_colors);
                palette_from_outcome(outcome, max_colors)
            }
        },
    }
}

} // verus!
