use palettize::color::Color;
use palettize::error::AppError;
use palettize::extract::{extract_palette, palette_from_outcome, samples_of, MAX_SAMPLES};
use palettize::format::{format_palette, ColorFormat};
use palettize::validate::{validate_args, ExtractionRequest};

fn request(quality: u8, max_colors: u8) -> ExtractionRequest {
    validate_args(quality, max_colors, String::from("images/photo.png"), true).unwrap()
}

fn solid(pixels: usize, color: [u8; 3]) -> Vec<u8> {
    std::iter::repeat(color).take(pixels).flatten().collect()
}

fn engine(pixels: &[u8], quality: u8, max_colors: u8) -> Vec<Color> {
    color_thief::get_palette(pixels, color_thief::ColorFormat::Rgb, quality, max_colors)
        .unwrap()
        .into_iter()
        .map(|c| Color::new(c.r, c.g, c.b))
        .collect()
}

#[test]
fn undecoded_image_is_an_open_error() {
    assert_eq!(
        extract_palette(&request(10, 6), None),
        Err(AppError::ImageOpenError(String::from("images/photo.png")))
    );
}

#[test]
fn engine_error_is_an_extraction_error() {
    assert_eq!(
        palette_from_outcome(Err(color_thief::Error::InvalidVBox), 6),
        Err(AppError::PaletteExtractionError)
    );
    assert_eq!(
        palette_from_outcome(Err(color_thief::Error::VBoxCutFailed), 2),
        Err(AppError::PaletteExtractionError)
    );
}

#[test]
fn engine_colors_keep_their_order() {
    let colors = vec![Color::new(5, 5, 5), Color::new(1, 1, 1), Color::new(9, 9, 9)];
    let palette = palette_from_outcome(Ok(colors.clone()), 6).unwrap();
    assert_eq!(palette.colors(), &colors);
    let palette = palette_from_outcome(Ok(colors.clone()), 3).unwrap();
    assert_eq!(palette.colors(), &colors);
    let palette = palette_from_outcome(Ok(colors.clone()), 2).unwrap();
    assert_eq!(palette.colors(), &colors[..2].to_vec());
    assert!(palette_from_outcome(Ok(Vec::new()), 2).unwrap().is_empty());
}

#[test]
fn solid_red_found_by_the_engine_prints_one_line() {
    let palette = palette_from_outcome(Ok(vec![Color::new(255, 0, 0)]), 2).unwrap();
    assert_eq!(format_palette(&palette, ColorFormat::Hex, None), vec!["#ff0000"]);
}

#[test]
fn solid_red_image_gives_one_color() {
    let pixels = solid(4, [255, 0, 0]);
    let palette = extract_palette(&request(10, 2), Some(&pixels)).unwrap();
    assert_eq!(palette.colors(), &engine(&pixels, 10, 2));
    assert_eq!(palette.colors(), &vec![Color::new(252, 4, 4)]);
    assert_eq!(format_palette(&palette, ColorFormat::Hex, None), vec!["#fc0404"]);
}

#[test]
fn palette_is_what_the_engine_finds() {
    let mut pixels = solid(600, [200, 30, 30]);
    pixels.extend(solid(300, [20, 40, 220]));
    pixels.extend(solid(100, [30, 200, 60]));
    for (quality, max_colors) in [(1u8, 2u8), (1, 3), (1, 6), (5, 4), (10, 255)] {
        let palette = extract_palette(&request(quality, max_colors), Some(&pixels)).unwrap();
        assert!(palette.len() >= 1);
        assert!(palette.len() <= max_colors as usize);
        assert_eq!(palette.colors(), &engine(&pixels, quality, max_colors));
    }
}

#[test]
fn empty_image_is_handled_by_the_engine() {
    let palette = extract_palette(&request(10, 6), Some(&[])).unwrap();
    assert_eq!(palette.colors(), &engine(&[], 10, 6));
}

#[test]
fn samples_follow_the_quality() {
    assert_eq!(MAX_SAMPLES, 8_521_760);
    assert_eq!(samples_of(0, 1), 0);
    assert_eq!(samples_of(2, 1), 0);
    assert_eq!(samples_of(3, 1), 1);
    assert_eq!(samples_of(9, 1), 1);
    assert_eq!(samples_of(12, 1), 2);
    assert_eq!(samples_of(12, 10), 1);
    assert_eq!(samples_of(90, 10), 1);
    assert_eq!(samples_of(93, 10), 2);
    assert_eq!(samples_of(9 * MAX_SAMPLES, 1), MAX_SAMPLES);
    assert_eq!(samples_of(9 * MAX_SAMPLES + 3, 1), MAX_SAMPLES + 1);
    assert_eq!(samples_of(9 * MAX_SAMPLES + 3, 2), MAX_SAMPLES / 2 + 1);
}

#[test]
fn image_of_too_many_samples_is_an_extraction_error() {
    let pixels = solid(3 * MAX_SAMPLES + 1, [255, 0, 0]);
    assert_eq!(
        extract_palette(&request(1, 6), Some(&pixels)),
        Err(AppError::PaletteExtractionError)
    );
}

#[test]
fn large_image_is_taken_where_the_quality_thins_it() {
    let pixels = solid(3 * MAX_SAMPLES + 1, [255, 0, 0]);
    let palette = extract_palette(&request(2, 6), Some(&pixels)).unwrap();
    assert_eq!(palette.get(0), Color::new(252, 4, 4));
    assert_eq!(palette.colors(), &engine(&pixels, 2, 6));
    let palette = extract_palette(&request(10, 6), Some(&pixels)).unwrap();
    assert_eq!(palette.colors(), &engine(&pixels, 10, 6));
}

#[test]
fn image_of_the_most_samples_is_taken() {
    let pixels = solid(3 * MAX_SAMPLES, [255, 0, 0]);
    let palette = extract_palette(&request(1, 6), Some(&pixels)).unwrap();
    assert_eq!(palette.get(0), Color::new(252, 4, 4));
    assert_eq!(palette.colors(), &engine(&pixels, 1, 6));
}

#[test]
fn extracted_palette_is_never_empty() {
    for pixels in [Vec::new(), solid(1, [255, 255, 255]), solid(7, [0, 0, 0])] {
        for max_colors in [2u8, 6, 255] {
            let palette = extract_palette(&request(10, max_colors), Some(&pixels)).unwrap();
            assert!(!palette.is_empty());
            assert!(palette.len() <= max_colors as usize);
        }
    }
}
