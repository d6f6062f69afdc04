use cntour::canvas::{encode_png, grayscale_array_to_image, RenderedImage};
use cntour::palettes::PaletteName;
use cntour::render::{choose_coloring, choose_coloring_flag, image_pixel_count, Coloring, ColoringError};
use cntour::values::{HEIGHT, WIDTH};

#[test]
fn coloring_choices() {
    assert_eq!(choose_coloring(None), Ok(Coloring::RandomPalette));
    assert_eq!(choose_coloring(Some("random".to_string())), Ok(Coloring::RandomPalette));
    assert_eq!(choose_coloring(Some("grayscale".to_string())), Ok(Coloring::Grayscale));
    assert_eq!(choose_coloring(Some("sunset".to_string())), Ok(Coloring::Palette(PaletteName::Sunset)));
    assert_eq!(choose_coloring(Some("rainbow".to_string())), Err(ColoringError::UnlistedPalette));
    assert_eq!(choose_coloring(Some("".to_string())), Err(ColoringError::UnlistedPalette));
}

#[test]
fn service_images_have_the_fixed_size() {
    assert_eq!(image_pixel_count(), 6_250_000);
    assert_eq!((WIDTH, HEIGHT), (2500, 2500));
}

#[test]
fn full_size_grayscale_field_round_trips() {
    let n = image_pixel_count();
    let data: Vec<u8> = (0..n).map(|i| (i % 251) as u8).collect();
    let canvas = grayscale_array_to_image(&data, WIDTH as u32, HEIGHT as u32);
    let png = encode_png(RenderedImage::Gray(canvas)).unwrap();
    let decoded = image::load_from_memory(&png).unwrap().to_luma8();
    assert_eq!((decoded.width(), decoded.height()), (WIDTH as u32, HEIGHT as u32));
    assert_eq!(decoded.into_raw(), data);
}

#[test]
fn coloring_flag_choices() {
    assert_eq!(choose_coloring_flag(true), Coloring::RandomPalette);
    assert_eq!(choose_coloring_flag(false), Coloring::Grayscale);
}
