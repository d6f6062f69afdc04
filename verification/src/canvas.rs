use vstd::prelude::*;
use image::{GrayImage, ImageError, RgbImage};

verus! {

/// A grayscale image buffer of the `image` crate (`GrayImage`).
#[verifier::external_body]
pub struct GrayCanvas {
    img: GrayImage,
}

/// An RGB image buffer of the `image` crate (`RgbImage`).
#[verifier::external_body]
pub struct RgbCanvas {
    img: RgbImage,
}

#[verifier::external_type_specification]
#[verifier::external_body]
pub struct ExImageError(ImageError);

/// The width and height that a grayscale canvas was made with.
pub uninterp spec fn gray_canvas_size(c: GrayCanvas) -> (u32, u32);

/// The samples that a grayscale canvas holds, one per pixel, row by row.
pub uninterp spec fn gray_canvas_samples(c: GrayCanvas) -> Seq<u8>;

/// The width and height that an RGB canvas was made with.
pub uninterp spec fn rgb_canvas_size(c: RgbCanvas) -> (u32, u32);

/// The samples that an RGB canvas holds, three per pixel (red, green,
/// blue), row by row.
pub uninterp spec fn rgb_canvas_samples(c: RgbCanvas) -> Seq<u8>;

/// The PNG file that the `image` crate writes for an 8-bit image with the
/// given number of channels, size and samples, or `None` where it
/// reports an error.
pub uninterp spec fn png_encoding(channels: nat, width: u32, height: u32, samples: Seq<u8>) -> Option<Seq<u8>>;

/// Makes an all-black grayscale image with `GrayImage::new`, which panics
/// when `width * height` samples do not fit in `usize`.
#[verifier::external_body]
fn gray_canvas_new(width: u32, height: u32) -> (c: GrayCanvas)
    requires
        width * height <= usize::MAX,
    ensures
        gray_canvas_size(c) == (width, height),
        gray_canvas_samples(c) == Seq::new((width * height) as nat, |i: int| 0u8),
{
    GrayCanvas { img: GrayImage::new(width, height) }
}

/// Sets one pixel with `ImageBuffer::put_pixel`, which panics outside the
/// image and otherwise writes the sample at `y * width + x`.
#[verifier::external_body]
fn gray_canvas_put(c: &mut GrayCanvas, x: u32, y: u32, value: u8)
    requires
        x < gray_canvas_size(*old(c)).0,
        y < gray_canvas_size(*old(c)).1,
    ensures
        gray_canvas_size(*final(c)) == gray_canvas_size(*old(c)),
        gray_canvas_samples(*final(c)) == gray_canvas_samples(*old(c)).update(
            y * gray_canvas_size(*old(c)).0 + x,
            value,
        ),
{
    c.img.put_pixel(x, y, image::Luma([value]))
}

/// Makes an all-black RGB image with `RgbImage::new`, which panics when
/// `3 * (width * height)` samples do not fit in `usize`.
#[verifier::external_body]
fn rgb_canvas_new(width: u32, height: u32) -> (c: RgbCanvas)
    requires
        3 * width <= usize::MAX,
        3 * (width * height) <= usize::MAX,
    ensures
        rgb_canvas_size(c) == (width, height),
        rgb_canvas_samples(c) == Seq::new((3 * (width * height)) as nat, |i: int| 0u8),
{
    RgbCanvas { img: RgbImage::new(width, height) }
}

/// Sets one pixel with `ImageBuffer::put_pixel`, which panics outside the
/// image and otherwise writes the three samples from `3 * (y * width + x)`.
#[verifier::external_body]
fn rgb_canvas_put(c: &mut RgbCanvas, x: u32, y: u32, color: [u8; 3])
    requires
        x < rgb_canvas_size(*old(c)).0,
        y < rgb_canvas_size(*old(c)).1,
    ensures
        rgb_canvas_size(*final(c)) == rgb_canvas_size(*old(c)),
        rgb_canvas_samples(*final(c)) == ({
            let base = 3 * (y * rgb_canvas_size(*old(c)).0 + x);
            rgb_canvas_samples(*old(c)).update(base, color[0]).update(base + 1, color[1]).update(
                base + 2,
                color[2],
            )
        }),
{
    c.img.put_pixel(x, y, image::Rgb(color))
}

/// Writes a grayscale canvas as PNG with `DynamicImage::write_to` into a
/// byte buffer. The PNG writer refuses an image with no columns or no
/// rows and accepts every other image that a canvas can hold; writing into
/// a growing byte buffer does not fail.
#[verifier::external_body]
fn gray_canvas_png(c: GrayCanvas) -> (r: Result<Vec<u8>, ImageError>)
    ensures
        r is Ok <==> (gray_canvas_size(c).0 > 0 && gray_canvas_size(c).1 > 0),
        png_encoding(1, gray_canvas_size(c).0, gray_canvas_size(c).1, gray_canvas_samples(c))
            == (match r {
            Ok(bytes) => Some(bytes@),
            Err(_) => None,
        }),
{
    let mut buf = std::io::Cursor::new(Vec::new());
    match image::DynamicImage::ImageLuma8(c.img).write_to(&mut buf, image::ImageFormat::Png) {
        Ok(()) => Ok(buf.into_inner()),
        Err(e) => Err(e),
    }
}

/// Writes an RGB canvas as PNG with `DynamicImage::write_to` into a byte
/// buffer. The PNG writer refuses an image with no columns or no rows and
/// accepts every other image that a canvas can hold; writing into a growing
/// byte buffer does not fail.
#[verifier::external_body]
fn rgb_canvas_png(c: RgbCanvas) -> (r: Result<Vec<u8>, ImageError>)
    ensures
        r is Ok <==> (rgb_canvas_size(c).0 > 0 && rgb_canvas_size(c).1 > 0),
        png_encoding(3, rgb_canvas_size(c).0, rgb_canvas_size(c).1, rgb_canvas_samples(c))
            == (match r {
            Ok(bytes) => Some(bytes@),
            Err(_) => None,
        }),
{
    let mut buf = std::io::Cursor::new(Vec::new());
    match image::DynamicImage::ImageRgb8(c.img).write_to(&mut buf, image::ImageFormat::Png) {
        Ok(()) => Ok(buf.into_inner()),
        Err(e) => Err(e),
    }
}

/// The column and row of the `i`-th pixel of an image `width` pixels wide.
pub fn pixel_coords(i: u32, width: u32) -> (xy: (u32, u32))
    requires
        width > 0,
    ensures
        xy.0 == i % width,
        xy.1 == i / width,
{
    (i % width, i / width)
}

/// Column and row, and row-by-row position, are inverse to each other on
/// the pixels of an image: the column and row that `pixel_coords` gives
/// lie inside the image, and `row * width + column` is `i` again.
pub proof fn lemma_pixel_coords_index(i: u32, width: u32, height: u32)
    requires
        width > 0,
        i < width * height,
    ensures
        i % width < width,
        i / width < height,
        (i / width) * width + i % width == i,
{
    let q = i / width;
    let r = i % width;
    vstd::arithmetic::div_mod::lemma_fundamental_div_mod(i as int, width as int);
    vstd::arithmetic::div_mod::lemma_mod_pos_bound(i as int, width as int);
    assert(q * width + r == i) by (nonlinear_arith)
        requires
            i == width * q + r,
    ;
    assert(q < height) by (nonlinear_arith)
        requires
            q * width + r == i,
            i < width * height,
            0 <= r,
            width > 0,
    ;
}

/// Lays grayscale samples out as an image, row by row. The samples must
/// fill the image exactly.
pub fn grayscale_array_to_image(data: &[u8], width: u32, height: u32) -> (c: GrayCanvas)
    requires
        data@.len() == width * height,
        width * height <= usize::MAX,
        width * height <= u32::MAX + 1,
    ensures
        gray_canvas_size(c) == (width, height),
        gray_canvas_samples(c) == data@,
{
    let mut c = gray_canvas_new(width, height);
    let n = data.len();
    for i in 0..n
        invariant
            n == data@.len(),
            n == width * height,
            n <= u32::MAX + 1,
            gray_canvas_size(c) == (width, height),
            gray_canvas_samples(c).len() == n,
            forall|j: int| 0 <= j < i ==> gray_canvas_samples(c)[j] == data@[j],
            forall|j: int| i <= j < n ==> gray_canvas_samples(c)[j] == 0,
    {
        let k = i as u32;
        proof {
            lemma_pixel_coords_index(k, width, height);
        }
        let (x, y) = pixel_coords(k, width);
        gray_canvas_put(&mut c, x, y, data[i]);
    }
    assert(gray_canvas_samples(c) =~= data@);
    c
}

/// Lays RGB colours out as an image, row by row, from the top-left pixel.
/// Pixels past the given colours stay black.
pub fn rgb_pixels_to_image(pixels: &[[u8; 3]], width: u32, height: u32) -> (c: RgbCanvas)
    requires
        pixels@.len() <= width * height,
        3 * width <= usize::MAX,
        3 * (width * height) <= usize::MAX,
        pixels@.len() <= u32::MAX + 1,
    ensures
        rgb_canvas_size(c) == (width, height),
        rgb_canvas_samples(c).len() == 3 * (width * height),
        forall|k: int, ch: int|
            0 <= k < pixels@.len() && 0 <= ch < 3 ==> #[trigger] rgb_canvas_samples(c)[3 * k + ch]
                == pixels@[k][ch],
        forall|j: int|
            3 * pixels@.len() <= j < 3 * (width * height) ==> #[trigger] rgb_canvas_samples(c)[j] == 0,
{
    let mut c = rgb_canvas_new(width, height);
    let n = pixels.len();
    for i in 0..n
        invariant
            n == pixels@.len(),
            n <= width * height,
            n <= u32::MAX + 1,
            rgb_canvas_size(c) == (width, height),
            rgb_canvas_samples(c).len() == 3 * (width * height),
            forall|k: int, ch: int|
                0 <= k < i && 0 <= ch < 3 ==> #[trigger] rgb_canvas_samples(c)[3 * k + ch]
                    == pixels@[k][ch],
            forall|j: int| 3 * i <= j < 3 * (width * height) ==> #[trigger] rgb_canvas_samples(c)[j] == 0,
    {
        let k = i as u32;
        proof {
            lemma_pixel_coords_index(k, width, height);
        }
        let (x, y) = pixel_coords(k, width);
        let ghost before = rgb_canvas_samples(c);
        rgb_canvas_put(&mut c, x, y, pixels[i]);
        proof {
            let after = rgb_canvas_samples(c);
            assert(3 * (y * width + x) == 3 * i);
            assert forall|kk: int, ch: int|
                0 <= kk < i + 1 && 0 <= ch < 3 implies #[trigger] after[3 * kk + ch]
                    == pixels@[kk][ch] by {
                if kk < i {
                    assert(before[3 * kk + ch] == pixels@[kk][ch]);
                }
            }
        }
    }
    c
}

/// An image ready to be written as a file: grayscale or RGB.
pub enum RenderedImage {
    Gray(GrayCanvas),
    Rgb(RgbCanvas),
}

/// The reason an image could not be written as PNG.
#[derive(Clone, Copy, Debug, PartialEq, Eq, Structural)]
pub enum EncodeError {
    Png,
}

/// The PNG file of an image, or `None` where the `image` crate refuses it.
pub open spec fn rendered_png(img: RenderedImage) -> Option<Seq<u8>> {
    match img {
        RenderedImage::Gray(c) => png_encoding(
            1,
            gray_canvas_size(c).0,
            gray_canvas_size(c).1,
            gray_canvas_samples(c),
        ),
        RenderedImage::Rgb(c) => png_encoding(
            3,
            rgb_canvas_size(c).0,
            rgb_canvas_size(c).1,
            rgb_canvas_samples(c),
        ),
    }
}

/// The width and height of an image.
pub open spec fn rendered_size(img: RenderedImage) -> (u32, u32) {
    match img {
        RenderedImage::Gray(c) => gray_canvas_size(c),
        RenderedImage::Rgb(c) => rgb_canvas_size(c),
    }
}

/// Writes an image as a PNG file in memory. Every image with at least one
/// column and one row is written.
pub fn encode_png(img: RenderedImage) -> (r: Result<Vec<u8>, EncodeError>)
    ensures
        r is Ok <==> (rendered_size(img).0 > 0 && rendered_size(img).1 > 0),
        match r {
            Ok(bytes) => rendered_png(img) == Some(bytes@),
            Err(e) => rendered_png(img) is None && e == EncodeError::Png,
        },
{
    let written = match img {
        RenderedImage::Gray(c) => gray_canvas_png(c),
        RenderedImage::Rgb(c) => rgb_canvas_png(c),
    };
    match written {
        Ok(bytes) => Ok(bytes),
        Err(_) => Err(EncodeError::Png),
    }
}

} // verus!
