//! Checking what the caller asks for, before anything is read.

use vstd::prelude::*;
use crate::error::AppError;

verus! {

/// The quality level of a request that names none.
pub const DEFAULT_QUALITY: u8 = 10;

/// The maximum number of colors of a request that names none.
pub const DEFAULT_MAX_COLORS: u8 = 6;

/// Whether a quality level is one that the quantization engine takes: 1 is
/// the finest and slowest, 10 the coarsest and fastest.
pub open spec fn quality_in_range(quality: u8) -> bool {
    1 <= quality <= 10
}

/// Whether a maximum number of colors is one that the engine takes.
pub open spec fn max_colors_in_range(max_colors: u8) -> bool {
    2 <= max_colors <= 255
}

/// The failure that the values of a request give, if any. The quality is
/// looked at first, then the number of colors, then the path; the first that
/// fails is the one reported.
pub open spec fn validation_failure(
    quality: u8,
    max_colors: u8,
    image_path: String,
    path_exists: bool,
) -> Option<AppError> {
    if !quality_in_range(quality) {
        Some(AppError::InvalidQuality(quality))
    } else if !max_colors_in_range(max_colors) {
        Some(AppError::InvalidMaxColors(max_colors))
    } else if !path_exists {
        Some(AppError::InvalidImagePath(image_path))
    } else {
        None
    }
}

/// A request that has passed validation: the path of an image that exists, a
/// quality level in 1..=10 and a maximum number of colors in 2..=255.
#[derive(Debug, PartialEq, Eq)]
pub struct ExtractionRequest {
    image_path: String,
    quality: u8,
    max_colors: u8,
}

impl ExtractionRequest {
    #[verifier::type_invariant]
    spec fn in_range(&self) -> bool {
        quality_in_range(self.quality) && max_colors_in_range(self.max_colors)
    }

    pub closed spec fn spec_image_path(&self) -> String {
        self.image_path
    }

    pub closed spec fn spec_quality(&self) -> u8 {
        self.quality
    }

    pub closed spec fn spec_max_colors(&self) -> u8 {
        self.max_colors
    }

    #[verifier::when_used_as_spec(spec_image_path)]
    pub fn image_path(&self) -> (path: String)
        ensures
            path == self.spec_image_path(),
    {
        self.image_path.clone()
    }

    #[verifier::when_used_as_spec(spec_quality)]
    pub fn quality(&self) -> (quality: u8)
        ensures
            quality == self.spec_quality(),
            quality_in_range(quality),
    {
        proof {
            use_type_invariant(self);
        }
        self.quality
    }

    #[verifier::when_used_as_spec(spec_max_colors)]
    pub fn max_colors(&self) -> (max_colors: u8)
        ensures
            max_colors == self.spec_max_colors(),
            max_colors_in_range(max_colors),
    {
        proof {
            use_type_invariant(self);
        }
        self.max_colors
    }
}

/// Checks the values of a request. `path_exists` says whether something
/// exists at `image_path`; whether it is an image is not asked here.
///
/// The request is accepted exactly when `validation_failure` finds nothing,
/// and then holds the three values as they were given; otherwise the failure
/// found is returned.
pub fn validate_args(quality: u8, max_colors: u8, image_path: String, path_exists: bool) -> (outcome:
    Result<ExtractionRequest, AppError>)
    ensures
        match outcome {
            Ok(request) => {
                &&& validation_failure(quality, max_colors, image_path, path_exists) is None
                &&& request.image_path() == image_path
                &&& request.quality() == quality
                &&& request.max_colors() == max_colors
            },
            Err(failure) => validation_failure(quality, max_colors, image_path, path_exists)
                == Some(failure),
        },
{
    if quality < 1 || quality > 10 {
        return Err(AppError::InvalidQuality(quality));
    }
    if max_colors < 2 {
        return Err(AppError::InvalidMaxColors(max_colors));
    }
    if !path_exists {
        return Err(AppError::InvalidImagePath(image_path));
    }
    Ok(ExtractionRequest { image_path, quality, max_colors })
}

/// A quality outside 1..=10 is rejected as such, whatever the other values
/// are; and with a quality inside, no request is rejected for its quality.
pub proof fn lemma_quality_decides(
    quality: u8,
    max_colors: u8,
    image_path: String,
    path_exists: bool,
)
    ensures
        !quality_in_range(quality) ==> validation_failure(
            quality,
            max_colors,
            image_path,
            path_exists,
        ) == Some(AppError::InvalidQuality(quality)),
        quality_in_range(quality) ==> !(validation_failure(
            quality,
            max_colors,
            image_path,
            path_exists,
        ) is Some && validation_failure(quality, max_colors, image_path, path_exists)->0
            is InvalidQuality),
{
}

/// Once the quality is in range, a number of colors outside 2..=255 is
/// rejected as such, whatever the path; and with a number inside, no request
/// is rejected for its number of colors.
pub proof fn lemma_max_colors_decides(
    quality: u8,
    max_colors: u8,
    image_path: String,
    path_exists: bool,
)
    requires
        quality_in_range(quality),
    ensures
        !max_colors_in_range(max_colors) ==> validation_failure(
            quality,
            max_colors,
            image_path,
            path_exists,
        ) == Some(AppError::InvalidMaxColors(max_colors)),
        max_colors_in_range(max_colors) ==> !(validation_failure(
            quality,
            max_colors,
            image_path,
            path_exists,
        ) is Some && validation_failure(quality, max_colors, image_path, path_exists)->0
            is InvalidMaxColors),
{
}

/// A path at which nothing exists is never accepted, and it is the failure
/// reported whenever the quality and the number of colors are in range.
pub proof fn lemma_missing_path_rejected(quality: u8, max_colors: u8, image_path: String)
    ensures
        validation_failure(quality, max_colors, image_path, false) is Some,
        quality_in_range(quality) && max_colors_in_range(max_colors) ==> validation_failure(
            quality,
            max_colors,
            image_path,
            false,
        ) == Some(AppError::InvalidImagePath(image_path)),
{
}

/// Values that are all in range, with a path that exists, are accepted.
pub proof fn lemma_valid_values_accepted(quality: u8, max_colors: u8, image_path: String)
    requires
        quality_in_range(quality),
        max_colors_in_range(max_colors),
    ensures
        validation_failure(quality, max_colors, image_path, true) is None,
{
}

/// A request that names neither a quality nor a number of colors is accepted
/// for any image that exists.
pub proof fn lemma_defaults_accepted(image_path: String)
    ensures
        validation_failure(DEFAULT_QUALITY, DEFAULT_MAX_COLORS, image_path, true) is None,
{
}

} // verus!
