use cntour::canvas::{
    encode_png, grayscale_array_to_image, pixel_coords, rgb_pixels_to_image,
    EncodeError, RenderedImage,
};

#[test]
fn coords_and_index_are_inverse() {
    assert_eq!(pixel_coords(0, 4), (0, 0));
    assert_eq!(pixel_coords(5, 4), (1, 1));
    assert_eq!(pixel_coords(11, 4), (3, 2));
    for i in 0..12u32 {
        let (x, y) = pixel_coords(i, 4);
        assert!(x < 4 && y < 3);
        assert_eq!(y * 4 + x, i);
    }
}

#[test]
fn grayscale_image_round_trips_through_png() {
    let data: Vec<u8> = (0..12u8).map(|v| v * 20).collect();
    let canvas = grayscale_array_to_image(&data, 4, 3);
    let png = encode_png(RenderedImage::Gray(canvas)).unwrap();
    assert_eq!(&png[1..4], b"PNG");
    let decoded = image::load_from_memory(&png).unwrap().to_luma8();
    assert_eq!(decoded.width(), 4);
    assert_eq!(decoded.height(), 3);
    assert_eq!(decoded.get_pixel(1, 1).0, [100]);
    assert_eq!(decoded.get_pixel(3, 2).0, [220]);
    assert_eq!(decoded.into_raw(), data);
}

#[test]
fn rgb_image_round_trips_through_png() {
    let colors = vec![[1, 2, 3], [4, 5, 6], [7, 8, 9]];
    let canvas = rgb_pixels_to_image(&colors, 2, 2);
    let png = encode_png(RenderedImage::Rgb(canvas)).unwrap();
    let decoded = image::load_from_memory(&png).unwrap().to_rgb8();
    assert_eq!((decoded.width(), decoded.height()), (2, 2));
    assert_eq!(decoded.get_pixel(0, 0).0, [1, 2, 3]);
    assert_eq!(decoded.get_pixel(1, 0).0, [4, 5, 6]);
    assert_eq!(decoded.get_pixel(0, 1).0, [7, 8, 9]);
    assert_eq!(decoded.get_pixel(1, 1).0, [0, 0, 0]);
}

#[test]
fn empty_image_is_refused_by_the_png_writer() {
    let canvas = grayscale_array_to_image(&[], 0, 0);
    assert_eq!(encode_png(RenderedImage::Gray(canvas)), Err(EncodeError::Png));
}

#[test]
fn png_writer_needs_columns_and_rows() {
    let one = grayscale_array_to_image(&[7], 1, 1);
    assert!(encode_png(RenderedImage::Gray(one)).is_ok());
    let no_columns = grayscale_array_to_image(&[], 0, 3);
    assert_eq!(encode_png(RenderedImage::Gray(no_columns)), Err(EncodeError::Png));
    let no_rows = rgb_pixels_to_image(&[], 5, 0);
    assert_eq!(encode_png(RenderedImage::Rgb(no_rows)), Err(EncodeError::Png));
}
