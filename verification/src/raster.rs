//! The pixel buffer: an image of the `image` crate, reached through `nannou`,
//! with the few operations the renderer needs.

use vstd::prelude::*;
use itertools::Itertools;
use nannou::image::{DynamicImage, Rgb};

verus! {

/// `image::DynamicImage`, an image in any of the crate's pixel formats. The
/// verifier sees nothing inside it; the two functions below name what the
/// contracts say of it.
#[verifier::external_type_specification]
#[verifier::external_body]
pub struct ExDynamicImage(DynamicImage);

/// Width and height of an image that stores 8-bit RGB pixels; `None` for an
/// image of any other pixel format.
pub uninterp spec fn image_extent(image: DynamicImage) -> Option<(u32, u32)>;

/// The colour stored at each position `(x, y)` of an 8-bit RGB image, as its
/// red, green and blue bytes.
pub uninterp spec fn image_pixels(image: DynamicImage) -> Map<(int, int), (u8, u8, u8)>;

/// The positions of a canvas `width` wide and `height` high.
pub open spec fn grid(width: int, height: int) -> Set<(int, int)> {
    Set::new(|p: (int, int)| 0 <= p.0 < width && 0 <= p.1 < height)
}

/// Whether a canvas of this size can be allocated: three bytes per pixel for
/// the image, and eight for the list of its positions.
pub open spec fn canvas_fits(width: u32, height: u32) -> bool {
    width * height * 8 <= isize::MAX
}

/// Calls `DynamicImage::new_rgb8`, which allocates a zeroed buffer of three
/// bytes per pixel and panics when that many bytes cannot be a vector. The
/// contract claims an 8-bit RGB image of exactly the given size, black
/// everywhere.
#[verifier::external_body]
pub(crate) fn new_rgb8(width: u32, height: u32) -> (image: DynamicImage)
    requires
        width * height * 3 <= isize::MAX,
    ensures
        image_extent(image) == Some((width, height)),
        image_pixels(image) == Map::new(
            |p: (int, int)| grid(width as int, height as int).contains(p),
            |p: (int, int)| (0u8, 0u8, 0u8),
        ),
{
    DynamicImage::new_rgb8(width, height)
}

/// Calls `DynamicImage::as_mut_rgb8` and, on the buffer it yields,
/// `ImageBuffer::put_pixel`, which panics outside the image. The contract
/// claims that exactly the pixel at `(x, y)` is replaced.
#[verifier::external_body]
pub(crate) fn put_pixel(image: &mut DynamicImage, x: u32, y: u32, rgb: (u8, u8, u8))
    requires
        image_extent(*old(image)) matches Some(extent) && x < extent.0 && y < extent.1,
    ensures
        image_extent(*final(image)) == image_extent(*old(image)),
        image_pixels(*final(image)) == image_pixels(*old(image)).insert((x as int, y as int), rgb),
{
    if let Some(buffer) = image.as_mut_rgb8() {
        buffer.put_pixel(x, y, Rgb([rgb.0, rgb.1, rgb.2]));
    }
}

/// Calls `DynamicImage::as_rgb8` and, on the buffer it yields,
/// `ImageBuffer::get_pixel`, which panics outside the image. The contract
/// claims the three bytes stored at `(x, y)`.
#[verifier::external_body]
pub(crate) fn get_pixel(image: &DynamicImage, x: u32, y: u32) -> (rgb: (u8, u8, u8))
    requires
        image_extent(*image) matches Some(extent) && x < extent.0 && y < extent.1,
    ensures
        rgb == image_pixels(*image)[(x as int, y as int)],
{
    match image.as_rgb8() {
        Some(buffer) => {
            let pixel = buffer.get_pixel(x, y);
            (pixel[0], pixel[1], pixel[2])
        },
        None => (0, 0, 0),
    }
}

/// Calls `Itertools::cartesian_product` on the ranges `0..width` and
/// `0..height` and collects what it yields. The contract claims the pairs in
/// the adaptor's order: the first coordinate advances only when the second
/// has run through its whole range.
#[verifier::external_body]
pub(crate) fn cartesian_product(width: u32, height: u32) -> (points: Vec<(u32, u32)>)
    requires
        width * height * 8 <= isize::MAX,
    ensures
        points@.len() == width * height,
        forall|i: int|
            0 <= i < points@.len() ==> #[trigger] points@[i] == (
                (i / height as int) as u32,
                (i % height as int) as u32,
            ),
{
    (0..width).cartesian_product(0..height).collect()
}

} // verus!
