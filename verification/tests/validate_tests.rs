use palettize::error::AppError;
use palettize::validate::{validate_args, DEFAULT_MAX_COLORS, DEFAULT_QUALITY};

fn path() -> String {
    String::from("images/photo.png")
}

#[test]
fn quality_outside_range_is_rejected() {
    for quality in [0u8, 11, 12, 100, 255] {
        assert_eq!(
            validate_args(quality, 6, path(), true),
            Err(AppError::InvalidQuality(quality))
        );
    }
}

#[test]
fn every_quality_is_judged_by_its_range() {
    for quality in 0..=255u8 {
        let outcome = validate_args(quality, 6, path(), true);
        if (1..=10).contains(&quality) {
            let request = outcome.expect("a quality in range is accepted");
            assert_eq!(request.quality(), quality);
        } else {
            assert_eq!(outcome, Err(AppError::InvalidQuality(quality)));
        }
    }
}

#[test]
fn every_max_colors_is_judged_by_its_range() {
    for max_colors in 0..=255u8 {
        let outcome = validate_args(10, max_colors, path(), true);
        if max_colors >= 2 {
            let request = outcome.expect("a number of colors in range is accepted");
            assert_eq!(request.max_colors(), max_colors);
        } else {
            assert_eq!(outcome, Err(AppError::InvalidMaxColors(max_colors)));
        }
    }
}

#[test]
fn accepted_request_keeps_its_values() {
    let request = validate_args(1, 255, path(), true).unwrap();
    assert_eq!(request.quality(), 1);
    assert_eq!(request.max_colors(), 255);
    assert_eq!(request.image_path(), path());
    let request = validate_args(10, 2, String::new(), true).unwrap();
    assert_eq!(request.quality(), 10);
    assert_eq!(request.max_colors(), 2);
    assert_eq!(request.image_path(), "");
}

#[test]
fn missing_path_is_rejected() {
    assert_eq!(
        validate_args(10, 6, path(), false),
        Err(AppError::InvalidImagePath(path()))
    );
    assert_eq!(
        validate_args(1, 2, String::from("nowhere"), false),
        Err(AppError::InvalidImagePath(String::from("nowhere")))
    );
}

#[test]
fn missing_path_is_never_accepted() {
    for quality in 0..=255u8 {
        for max_colors in [0u8, 1, 2, 6, 255] {
            assert!(validate_args(quality, max_colors, path(), false).is_err());
        }
    }
}

#[test]
fn first_failing_field_is_reported() {
    assert_eq!(validate_args(0, 1, path(), false), Err(AppError::InvalidQuality(0)));
    assert_eq!(validate_args(11, 0, path(), true), Err(AppError::InvalidQuality(11)));
    assert_eq!(validate_args(5, 1, path(), false), Err(AppError::InvalidMaxColors(1)));
    assert_eq!(validate_args(5, 0, path(), true), Err(AppError::InvalidMaxColors(0)));
}

#[test]
fn defaults_are_accepted() {
    assert_eq!((DEFAULT_QUALITY, DEFAULT_MAX_COLORS), (10, 6));
    let request = validate_args(DEFAULT_QUALITY, DEFAULT_MAX_COLORS, path(), true).unwrap();
    assert_eq!((request.quality(), request.max_colors()), (10, 6));
}
