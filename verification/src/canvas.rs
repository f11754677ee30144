//! The canvas: a pixel buffer of a fixed size, and the paint that fills it.

use vstd::prelude::*;
use vstd::arithmetic::div_mod::{
    lemma_fundamental_div_mod, lemma_fundamental_div_mod_converse, lemma_mod_bound,
};
use nannou::image::DynamicImage;
use crate::range::{map_range_spec, map_range_wide};
use crate::raster::{
    canvas_fits, cartesian_product, get_pixel, grid, image_extent, image_pixels, new_rgb8,
    put_pixel,
};
use crate::settings::{clamp, clamp_spec, UNIT};

verus! {

/// The gray level that a reading is drawn with: the reading, taken from
/// `-1 ..= 1` to `0 ..= 255` and held to a byte.
pub open spec fn channel_spec(reading: int) -> u8 {
    let level = map_range_spec(reading, -(UNIT as int), UNIT as int, 0, 255);
    if level < 0 {
        0u8
    } else if level > 255 {
        255u8
    } else {
        level as u8
    }
}

/// The gray level that a reading is drawn with.
pub fn channel(reading: i32) -> (byte: u8)
    ensures
        byte == channel_spec(reading as int),
{
    let level = map_range_wide(reading, -UNIT, UNIT, 0, 255);
    if level < 0 {
        0
    } else if level > 255 {
        255
    } else {
        level as u8
    }
}

/// The gray pixel of a reading: all three bytes are the channel byte of the
/// reading.
pub open spec fn gray_spec(reading: int) -> (u8, u8, u8) {
    (channel_spec(reading), channel_spec(reading), channel_spec(reading))
}

/// The byte that a colour component is drawn with: the component, held to
/// `0 ..= 1`, taken to `0 ..= 255`.
pub open spec fn color_byte_spec(component: int) -> u8 {
    (clamp_spec(component, 0, UNIT as int) * 255 / (UNIT as int)) as u8
}

/// The byte that a colour component is drawn with.
pub fn color_byte(component: i32) -> (byte: u8)
    ensures
        byte == color_byte_spec(component as int),
{
    let held: i64 = clamp(component, 0, UNIT) as i64;
    (held * 255 / (UNIT as i64)) as u8
}

/// The pixel of a converted colour, component by component.
pub open spec fn rgb_spec(color: (i32, i32, i32)) -> (u8, u8, u8) {
    (
        color_byte_spec(color.0 as int),
        color_byte_spec(color.1 as int),
        color_byte_spec(color.2 as int),
    )
}

/// What the canvas is painted from, one entry per position, in painting order
/// (see [`point_at`]).
#[derive(Debug)]
pub enum Paint {
    /// The reading of the sample source at each position, `-1` for black and
    /// `1` for white.
    Readings(Vec<i32>),
    /// The red, green and blue components of the colour at each position,
    /// each `0` for none and `1` for full.
    Colors(Vec<(i32, i32, i32)>),
}

impl Paint {
    /// The number of entries.
    pub open spec fn spec_len(&self) -> nat {
        match *self {
            Paint::Readings(readings) => readings@.len(),
            Paint::Colors(colors) => colors@.len(),
        }
    }

    /// Whether the entries are readings, to be drawn as gray levels.
    pub open spec fn spec_is_readings(&self) -> bool {
        self is Readings
    }

    /// The pixel that entry `i` is drawn as.
    pub open spec fn shade(&self, i: int) -> (u8, u8, u8) {
        match *self {
            Paint::Readings(readings) => gray_spec(readings@[i] as int),
            Paint::Colors(colors) => rgb_spec(colors@[i]),
        }
    }

    /// The number of entries.
    pub fn len(&self) -> (n: usize)
        ensures
            n == self.spec_len(),
    {
        match self {
            Paint::Readings(readings) => readings.len(),
            Paint::Colors(colors) => colors.len(),
        }
    }

    /// Whether the entries are readings, to be drawn as gray levels.
    #[verifier::when_used_as_spec(spec_is_readings)]
    pub fn is_readings(&self) -> (b: bool)
        ensures
            b == self.spec_is_readings(),
    {
        match self {
            Paint::Readings(_) => true,
            Paint::Colors(_) => false,
        }
    }

    /// The pixel that entry `i` is drawn as.
    pub fn pixel(&self, i: usize) -> (rgb: (u8, u8, u8))
        requires
            i < self.spec_len(),
        ensures
            rgb == self.shade(i as int),
    {
        match self {
            Paint::Readings(readings) => {
                let level = channel(readings[i]);
                (level, level, level)
            },
            Paint::Colors(colors) => {
                let color = colors[i];
                (color_byte(color.0), color_byte(color.1), color_byte(color.2))
            },
        }
    }
}

/// Whether a paint has one entry for each position of a canvas of the given
/// size.
pub fn covers(paint: &Paint, width: u32, height: u32) -> (whole: bool)
    ensures
        whole == (paint.spec_len() == width * height),
{
    assert(width * height <= 0xffff_ffff * 0xffff_ffff) by (nonlinear_arith)
        requires
            width <= 0xffff_ffff,
            height <= 0xffff_ffff,
    ;
    paint.len() as u128 == (width as u128) * (height as u128)
}

/// Position `i` of a canvas `height` high, in painting order: columns from
/// the left, each from its first row down.
pub open spec fn point_at(i: int, height: int) -> (int, int) {
    (i / height, i % height)
}

/// The place in painting order of the position `(x, y)`.
pub open spec fn index_of(x: int, y: int, height: int) -> int {
    x * height + y
}

/// Every index below `width * height` names a position of the canvas, and
/// the position names the index back.
pub proof fn lemma_point_of_index(i: int, width: int, height: int)
    requires
        0 <= i < width * height,
        0 <= width,
        0 <= height,
    ensures
        grid(width, height).contains(point_at(i, height)),
        index_of(point_at(i, height).0, point_at(i, height).1, height) == i,
{
    assert(height > 0) by (nonlinear_arith)
        requires
            0 <= i < width * height,
            0 <= width,
            0 <= height,
    ;
    lemma_fundamental_div_mod(i, height);
    lemma_mod_bound(i, height);
    let x = i / height;
    let y = i % height;
    assert(0 <= x < width) by (nonlinear_arith)
        requires
            i == height * x + y,
            0 <= y < height,
            0 <= i < width * height,
    ;
    assert(x * height == height * x) by (nonlinear_arith);
}

/// Every position of the canvas has an index below `width * height`, and the
/// index names the position back.
pub proof fn lemma_index_of_point(x: int, y: int, width: int, height: int)
    requires
        grid(width, height).contains((x, y)),
    ensures
        0 <= index_of(x, y, height) < width * height,
        point_at(index_of(x, y, height), height) == (x, y),
{
    assert(0 <= x * height + y < width * height) by (nonlinear_arith)
        requires
            0 <= x < width,
            0 <= y < height,
    ;
    lemma_fundamental_div_mod_converse(x * height + y, height, x, y);
}

/// The positions of a canvas of the given size in painting order: entry `i`
/// of a paint belongs to position `i` of this list.
pub fn sample_points(width: u32, height: u32) -> (points: Vec<(u32, u32)>)
    requires
        canvas_fits(width, height),
    ensures
        points@.len() == width * height,
        forall|i: int|
            0 <= i < points@.len() ==> (#[trigger] points@[i].0 as int, points@[i].1 as int)
                == point_at(i, height as int),
        forall|i: int|
            0 <= i < points@.len() ==> grid(width as int, height as int).contains(
                (#[trigger] points@[i].0 as int, points@[i].1 as int),
            ),
{
    let points = cartesian_product(width, height);
    proof {
        assert forall|i: int| 0 <= i < points@.len() implies (
            #[trigger] points@[i].0 as int,
            points@[i].1 as int,
        ) == point_at(i, height as int) && grid(width as int, height as int).contains(
            (points@[i].0 as int, points@[i].1 as int),
        ) by {
            lemma_point_of_index(i, width as int, height as int);
        }
    }
    points
}

/// Paints every position of `image` from the entry of `paint` with its index.
fn fill(image: &mut DynamicImage, width: u32, height: u32, paint: &Paint)
    requires
        canvas_fits(width, height),
        image_extent(*old(image)) == Some((width, height)),
        image_pixels(*old(image)).dom() == grid(width as int, height as int),
        paint.spec_len() == width * height,
    ensures
        image_extent(*final(image)) == Some((width, height)),
        image_pixels(*final(image)).dom() == grid(width as int, height as int),
        forall|x: int, y: int|
            grid(width as int, height as int).contains((x, y)) ==> #[trigger] image_pixels(
                *final(image),
            )[(x, y)] == paint.shade(index_of(x, y, height as int)),
{
    let points = cartesian_product(width, height);
    let count = points.len();
    let mut i: usize = 0;
    while i < count
        invariant
            i <= count,
            count == points@.len(),
            count == width * height,
            paint.spec_len() == count,
            image_extent(*image) == Some((width, height)),
            image_pixels(*image).dom() == grid(width as int, height as int),
            forall|k: int|
                0 <= k < count ==> #[trigger] points@[k] == (
                    (k / height as int) as u32,
                    (k % height as int) as u32,
                ),
            forall|k: int|
                0 <= k < i ==> image_pixels(*image)[#[trigger] point_at(k, height as int)]
                    == paint.shade(k),
        decreases count - i,
    {
        let (x, y) = points[i];
        let rgb = paint.pixel(i);
        proof {
            lemma_point_of_index(i as int, width as int, height as int);
            assert(points@[i as int] == (x, y));
            assert((x as int, y as int) == point_at(i as int, height as int));
            assert forall|k: int| 0 <= k < i implies point_at(k, height as int) != point_at(
                i as int,
                height as int,
            ) by {
                lemma_point_of_index(k, width as int, height as int);
            }
        }
        let ghost before = image_pixels(*image);
        put_pixel(image, x, y, rgb);
        proof {
            assert(image_pixels(*image).dom() =~= grid(width as int, height as int));
            assert forall|k: int| 0 <= k < i + 1 implies image_pixels(*image)[#[trigger] point_at(
                k,
                height as int,
            )] == paint.shade(k) by {
                if k < i {
                    assert(before[point_at(k, height as int)] == paint.shade(k));
                }
            }
        }
        i = i + 1;
    }
    proof {
        assert forall|x: int, y: int|
            grid(width as int, height as int).contains((x, y)) implies #[trigger] image_pixels(
            *image,
        )[(x, y)] == paint.shade(index_of(x, y, height as int)) by {
            lemma_index_of_point(x, y, width as int, height as int);
            let k = index_of(x, y, height as int);
            assert(point_at(k, height as int) == (x, y));
        }
    }
}

/// A pixel buffer of a fixed size.
pub struct Canvas {
    image: DynamicImage,
    width: u32,
    height: u32,
}

impl Canvas {
    pub closed spec fn spec_width(&self) -> u32 {
        self.width
    }

    pub closed spec fn spec_height(&self) -> u32 {
        self.height
    }

    pub closed spec fn spec_image(&self) -> &DynamicImage {
        &self.image
    }

    /// The colour at each position.
    pub open spec fn pixels(&self) -> Map<(int, int), (u8, u8, u8)> {
        image_pixels(*self.image())
    }

    /// The positions of this canvas.
    pub open spec fn grid(&self) -> Set<(int, int)> {
        grid(self.width() as int, self.height() as int)
    }

    /// The image is an 8-bit RGB image of the canvas's size, with a colour at
    /// every position and nowhere else. Every canvas that this library hands
    /// out is well formed.
    pub open spec fn wf(&self) -> bool {
        &&& canvas_fits(self.width(), self.height())
        &&& image_extent(*self.image()) == Some((self.width(), self.height()))
        &&& self.pixels().dom() == self.grid()
    }

    /// Every pixel is black.
    pub open spec fn is_blank(&self) -> bool {
        forall|x: int, y: int|
            self.grid().contains((x, y)) ==> #[trigger] self.pixels()[(x, y)] == (0u8, 0u8, 0u8)
    }

    /// Every pixel is drawn from the entry of `paint` with its index.
    pub open spec fn shows(&self, paint: Paint) -> bool {
        forall|x: int, y: int|
            self.grid().contains((x, y)) ==> #[trigger] self.pixels()[(x, y)] == paint.shade(
                index_of(x, y, self.height() as int),
            )
    }

    /// Every pixel has its red, green and blue bytes equal.
    pub open spec fn is_gray(&self) -> bool {
        forall|x: int, y: int|
            self.grid().contains((x, y)) ==> {
                let rgb = #[trigger] self.pixels()[(x, y)];
                rgb.0 == rgb.1 && rgb.1 == rgb.2
            }
    }

    /// Whether a canvas of the given size can be made.
    pub fn fits(width: u32, height: u32) -> (ok: bool)
        ensures
            ok == canvas_fits(width, height),
    {
        assert(width * height <= 0xffff_ffff * 0xffff_ffff) by (nonlinear_arith)
            requires
                width <= 0xffff_ffff,
                height <= 0xffff_ffff,
        ;
        let bytes: u128 = (width as u128) * (height as u128) * 8;
        bytes <= isize::MAX as u128
    }

    /// A black canvas of the given size.
    pub fn new(width: u32, height: u32) -> (canvas: Canvas)
        requires
            canvas_fits(width, height),
        ensures
            canvas.wf(),
            canvas.width() == width,
            canvas.height() == height,
            canvas.is_blank(),
    {
        let canvas = Canvas { image: new_rgb8(width, height), width, height };
        assert(canvas.pixels().dom() =~= canvas.grid());
        canvas
    }

    /// Width in pixels.
    #[verifier::when_used_as_spec(spec_width)]
    pub fn width(&self) -> (w: u32)
        ensures
            w == self.spec_width(),
    {
        self.width
    }

    /// Height in pixels.
    #[verifier::when_used_as_spec(spec_height)]
    pub fn height(&self) -> (h: u32)
        ensures
            h == self.spec_height(),
    {
        self.height
    }

    /// The image itself, for whoever puts it on a screen.
    #[verifier::when_used_as_spec(spec_image)]
    pub fn image(&self) -> (image: &DynamicImage)
        ensures
            image == self.spec_image(),
    {
        &self.image
    }

    /// The number of positions.
    pub fn area(&self) -> (n: usize)
        requires
            self.wf(),
        ensures
            n == self.width() * self.height(),
    {
        let n: u128 = (self.width as u128) * (self.height as u128);
        n as usize
    }

    /// The colour at `(x, y)`; `None` outside the canvas.
    pub fn pixel(&self, x: u32, y: u32) -> (rgb: Option<(u8, u8, u8)>)
        requires
            self.wf(),
        ensures
            rgb == (if x < self.width() && y < self.height() {
                Some(self.pixels()[(x as int, y as int)])
            } else {
                None
            }),
    {
        if x < self.width && y < self.height {
            Some(get_pixel(&self.image, x, y))
        } else {
            None
        }
    }

    /// The positions of this canvas in painting order.
    pub fn sample_points(&self) -> (points: Vec<(u32, u32)>)
        requires
            self.wf(),
        ensures
            points@.len() == self.width() * self.height(),
            forall|i: int|
                0 <= i < points@.len() ==> (#[trigger] points@[i].0 as int, points@[i].1 as int)
                    == point_at(i, self.height() as int),
            forall|i: int|
                0 <= i < points@.len() ==> self.grid().contains(
                    (#[trigger] points@[i].0 as int, points@[i].1 as int),
                ),
    {
        sample_points(self.width, self.height)
    }

    /// Paints every position from the entry of `paint` with its index.
    pub fn paint(&mut self, paint: &Paint)
        requires
            old(self).wf(),
            paint.spec_len() == old(self).width() * old(self).height(),
        ensures
            final(self).wf(),
            final(self).width() == old(self).width(),
            final(self).height() == old(self).height(),
            final(self).shows(*paint),
            paint.is_readings() ==> final(self).is_gray(),
    {
        fill(&mut self.image, self.width, self.height, paint);
    }
}

/// A canvas that shows readings is gray: at every pixel the red, green and
/// blue bytes are equal.
pub proof fn lemma_readings_are_gray(canvas: Canvas, paint: Paint)
    requires
        canvas.shows(paint),
        paint.is_readings(),
    ensures
        canvas.is_gray(),
{
}

} // verus!
