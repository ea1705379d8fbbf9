use palettize::color::Color;
use palettize::palette::{Palette, MAX_PALETTE_LEN};

#[test]
fn palette_keeps_colors_in_order() {
    let colors = vec![Color::new(3, 2, 1), Color::new(1, 2, 3), Color::new(3, 2, 1)];
    let palette = Palette::from_colors(colors.clone()).unwrap();
    assert_eq!(palette.len(), 3);
    assert!(!palette.is_empty());
    assert_eq!(palette.colors(), &colors);
    assert_eq!(palette.get(0), Color::new(3, 2, 1));
    assert_eq!(palette.get(1), Color::new(1, 2, 3));
    assert_eq!(palette.get(2), Color::new(3, 2, 1));
    assert_eq!(palette.clone(), palette);
}

#[test]
fn palette_holds_at_most_255_colors() {
    assert_eq!(MAX_PALETTE_LEN, 255);
    let full: Vec<Color> = (0..255u8).map(|v| Color::new(v, 0, 0)).collect();
    assert_eq!(Palette::from_colors(full).unwrap().len(), 255);
    let over: Vec<Color> = (0..256u32).map(|v| Color::new((v % 256) as u8, 0, 0)).collect();
    assert_eq!(Palette::from_colors(over), None);
}

#[test]
fn empty_palette_is_empty() {
    let palette = Palette::from_colors(Vec::new()).unwrap();
    assert!(palette.is_empty());
    assert_eq!(palette.len(), 0);
}

#[test]
fn leading_colors_are_cut_at_the_limit() {
    let colors: Vec<Color> = (0..10u8).map(|v| Color::new(v, v, v)).collect();
    assert_eq!(Palette::from_leading_colors(colors.clone(), 4).colors(), &colors[..4].to_vec());
    assert_eq!(Palette::from_leading_colors(colors.clone(), 10).colors(), &colors);
    assert_eq!(Palette::from_leading_colors(colors.clone(), 255).colors(), &colors);
    assert!(Palette::from_leading_colors(colors, 0).is_empty());
    let many: Vec<Color> = (0..300u32).map(|v| Color::new((v % 256) as u8, 1, 2)).collect();
    let palette = Palette::from_leading_colors(many.clone(), 255);
    assert_eq!(palette.colors(), &many[..255].to_vec());
}
