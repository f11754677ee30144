//! The noise field: a canvas of pixels, each coloured from one reading of a
//! two-dimensional sample source.

use vstd::prelude::*;
use nannou::noise::BasicMulti;
use crate::canvas::{covers, Canvas, Paint};
use crate::range::{lemma_map_range_between, map_range_spec, map_range_wide};
use crate::raster::canvas_fits;
use crate::settings::{normalize, normalize_spec, Settings, UNIT};
use crate::seed::{generate, is_plain_name, seed_of_token, seed_text, seed_text_spec};
use crate::source::{new_noise, noise_from_token, noise_octaves, noise_seed, seed};

verus! {

/// How many pixels make one unit of the noise domain: the pixel at `(x, y)`
/// shows the source at `(x / NOISE_STEP, y / NOISE_STEP)`.
pub const NOISE_STEP: u32 = 500;

/// A colour by lightness, chroma and hue, each a fixed-point scalar; the hue
/// is in degrees.
#[derive(Clone, Copy, Debug, PartialEq, Eq, Structural)]
pub struct Lch {
    pub lightness: i32,
    pub chroma: i32,
    pub hue: i32,
}

/// Why a canvas was not repainted.
#[derive(Clone, Copy, Debug, PartialEq, Eq, Structural)]
pub enum RedrawError {
    /// Readings were given to a canvas set to colour, or colours to one set
    /// to gray levels.
    Mode,
    /// The paint has not one entry for each position of the canvas.
    Length,
}

/// The hue, in degrees, that a reading is drawn in: the reading, held to
/// `-1 ..= 1`, taken to the interval of `hue_range` to either side of
/// `hue_center`.
pub open spec fn hue_spec(settings: Settings, reading: int) -> int {
    map_range_spec(
        normalize_spec(reading),
        -(UNIT as int),
        UNIT as int,
        settings.hue_center() - settings.hue_range(),
        settings.hue_center() + settings.hue_range(),
    )
}

/// The colour that a reading is drawn in: the lightness and chroma of the
/// settings, and the reading's hue.
pub open spec fn lch_spec(settings: Settings, reading: int) -> Lch {
    Lch {
        lightness: settings.lightness(),
        chroma: settings.chroma(),
        hue: hue_spec(settings, reading) as i32,
    }
}

/// The hue of a reading stays within `hue_range` of `hue_center`.
pub proof fn lemma_hue_in_range(settings: Settings, reading: int)
    requires
        settings.wf(),
    ensures
        settings.hue_center() - settings.hue_range() <= hue_spec(settings, reading)
            <= settings.hue_center() + settings.hue_range(),
{
    lemma_map_range_between(
        normalize_spec(reading),
        -(UNIT as int),
        UNIT as int,
        settings.hue_center() - settings.hue_range(),
        settings.hue_center() + settings.hue_range(),
    );
}

/// The colour that a reading is drawn in.
pub fn lch(settings: &Settings, reading: i32) -> (color: Lch)
    ensures
        color == lch_spec(*settings, reading as int),
        color.hue == hue_spec(*settings, reading as int),
{
    let center = settings.hue_center();
    let range = settings.hue_range();
    let wide = map_range_wide(normalize(reading), -UNIT, UNIT, center - range, center + range);
    proof {
        lemma_hue_in_range(*settings, reading as int);
    }
    Lch { lightness: settings.lightness(), chroma: settings.chroma(), hue: wide as i32 }
}

/// What a paint is answered with on a canvas of the given size: the paint
/// must be of the kind that the mode asks for, readings for gray levels and
/// colours otherwise, and have one entry for each position.
pub open spec fn paint_verdict(grayscale: bool, width: u32, height: u32, paint: Paint) -> Result<
    (),
    RedrawError,
> {
    if grayscale != paint.is_readings() {
        Err(RedrawError::Mode)
    } else if paint.spec_len() != width * height {
        Err(RedrawError::Length)
    } else {
        Ok(())
    }
}

/// Holds a paint against the mode and the size of a canvas.
fn check_paint(grayscale: bool, width: u32, height: u32, paint: &Paint) -> (verdict: Result<
    (),
    RedrawError,
>)
    ensures
        verdict == paint_verdict(grayscale, width, height, *paint),
{
    if grayscale != paint.is_readings() {
        Err(RedrawError::Mode)
    } else if !covers(paint, width, height) {
        Err(RedrawError::Length)
    } else {
        Ok(())
    }
}

/// The noise field and what it is drawn with.
pub struct Model {
    settings: Settings,
    should_redraw: bool,
    noise: BasicMulti,
    canvas: Canvas,
}

impl Model {
    pub closed spec fn spec_settings(&self) -> Settings {
        self.settings
    }

    pub closed spec fn spec_should_redraw(&self) -> bool {
        self.should_redraw
    }

    pub closed spec fn spec_noise(&self) -> &BasicMulti {
        &self.noise
    }

    pub closed spec fn spec_canvas(&self) -> &Canvas {
        &self.canvas
    }

    /// The seed of the active sample source.
    pub open spec fn spec_seed(&self) -> u32 {
        noise_seed(*self.noise())
    }

    /// The canvas is well formed. Every model that this library hands out
    /// is.
    pub open spec fn wf(&self) -> bool {
        self.canvas().wf()
    }

    /// Whether a tick in a window of the given size has to paint the canvas
    /// anew: a repaint was asked for, or the window has another size.
    pub open spec fn spec_needs_repaint(&self, width: u32, height: u32) -> bool {
        self.should_redraw() || self.canvas().width() != width || self.canvas().height()
            != height
    }

    /// What a paint is answered with on the canvas as it stands.
    pub open spec fn redraw_verdict(&self, paint: Paint) -> Result<(), RedrawError> {
        paint_verdict(
            self.settings().grayscale(),
            self.canvas().width(),
            self.canvas().height(),
            paint,
        )
    }

    /// Whether everything but the pixels is as in `before`: the source, the
    /// settings and whether a repaint is asked for.
    pub open spec fn keeps_state_of(&self, before: &Model) -> bool {
        &&& self.noise() == before.noise()
        &&& self.settings() == before.settings()
        &&& self.should_redraw() == before.should_redraw()
    }

    /// A model with the default settings and a black canvas ten pixels
    /// square, on the given source or, without one, on a source of its own
    /// with seed zero. No repaint is asked for.
    pub fn new(noise: Option<BasicMulti>) -> (model: Model)
        ensures
            model.wf(),
            model.settings().is_default(),
            !model.should_redraw(),
            model.spec_seed() == (match noise {
                Some(source) => noise_seed(source),
                None => 0,
            }),
            noise matches Some(source) ==> *model.noise() == source,
            model.canvas().width() == 10,
            model.canvas().height() == 10,
            model.canvas().is_blank(),
    {
        let noise = match noise {
            Some(source) => source,
            None => new_noise(),
        };
        Model {
            settings: Settings::default(),
            should_redraw: false,
            noise,
            canvas: Canvas::new(10, 10),
        }
    }

    /// The display parameters.
    #[verifier::when_used_as_spec(spec_settings)]
    pub fn settings(&self) -> (settings: Settings)
        ensures
            settings == self.spec_settings(),
    {
        self.settings
    }

    /// Whether a repaint is asked for.
    #[verifier::when_used_as_spec(spec_should_redraw)]
    pub fn should_redraw(&self) -> (asked: bool)
        ensures
            asked == self.spec_should_redraw(),
    {
        self.should_redraw
    }

    /// The active sample source, for whoever evaluates it.
    #[verifier::when_used_as_spec(spec_noise)]
    pub fn noise(&self) -> (noise: &BasicMulti)
        ensures
            noise == self.spec_noise(),
    {
        &self.noise
    }

    /// The canvas.
    #[verifier::when_used_as_spec(spec_canvas)]
    pub fn canvas(&self) -> (canvas: &Canvas)
        ensures
            canvas == self.spec_canvas(),
    {
        &self.canvas
    }

    /// The seed of the active sample source.
    pub fn seed(&self) -> (seed: u32)
        ensures
            seed == self.spec_seed(),
    {
        seed(&self.noise)
    }

    /// Whether a tick in a window of the given size has to paint the canvas
    /// anew: a repaint was asked for, or the window has another size.
    #[verifier::when_used_as_spec(spec_needs_repaint)]
    pub fn needs_repaint(&self, width: u32, height: u32) -> (needed: bool)
        ensures
            needed == self.spec_needs_repaint(width, height),
    {
        self.should_redraw || self.canvas.width() != width || self.canvas.height() != height
    }

    /// The text drawn over the field: the seed, where it reads as text.
    pub fn view(&self) -> (label: Option<String>)
        ensures
            label.is_some() == seed_text_spec(self.spec_seed()).is_some(),
            label matches Some(shown) ==> seed_text_spec(self.spec_seed()) == Some(shown@),
    {
        seed_text(self.seed())
    }

    /// The colour that each reading is to be drawn in, for whoever converts
    /// colours to red, green and blue.
    pub fn hues(&self, readings: &Vec<i32>) -> (colors: Vec<Lch>)
        ensures
            colors@.len() == readings@.len(),
            forall|i: int|
                0 <= i < readings@.len() ==> #[trigger] colors@[i] == lch_spec(
                    self.settings(),
                    readings@[i] as int,
                ),
    {
        let mut colors: Vec<Lch> = Vec::new();
        let mut i: usize = 0;
        while i < readings.len()
            invariant
                i <= readings@.len(),
                colors@.len() == i,
                forall|k: int|
                    0 <= k < i ==> #[trigger] colors@[k] == lch_spec(
                        self.settings(),
                        readings@[k] as int,
                    ),
            decreases readings@.len() - i,
        {
            colors.push(lch(&self.settings, readings[i]));
            i = i + 1;
        }
        colors
    }

    /// Repaints the whole canvas from `paint`: in gray levels from readings,
    /// in colour from converted colours. Only pixels change; on an error
    /// nothing does.
    pub fn redraw_image(&mut self, paint: &Paint) -> (result: Result<(), RedrawError>)
        requires
            old(self).wf(),
        ensures
            final(self).wf(),
            result == old(self).redraw_verdict(*paint),
            result is Err ==> *final(self) == *old(self),
            result is Ok ==> {
                &&& final(self).canvas().shows(*paint)
                &&& final(self).canvas().width() == old(self).canvas().width()
                &&& final(self).canvas().height() == old(self).canvas().height()
                &&& final(self).keeps_state_of(old(self))
            },
            result is Ok && old(self).settings().grayscale() ==> final(self).canvas().is_gray(),
    {
        match check_paint(
            self.settings.grayscale(),
            self.canvas.width(),
            self.canvas.height(),
            paint,
        ) {
            Err(error) => Err(error),
            Ok(()) => {
                self.canvas.paint(paint);
                Ok(())
            },
        }
    }

    /// Replaces the sample source and repaints the canvas from `paint`,
    /// which is to be made from the new source, so that no pixel of the old
    /// source is left. On an error nothing changes.
    pub fn update_noise(&mut self, noise: BasicMulti, paint: &Paint) -> (result: Result<
        (),
        RedrawError,
    >)
        requires
            old(self).wf(),
        ensures
            final(self).wf(),
            result == old(self).redraw_verdict(*paint),
            result is Err ==> *final(self) == *old(self),
            result is Ok ==> {
                &&& *final(self).noise() == noise
                &&& final(self).canvas().shows(*paint)
                &&& final(self).canvas().width() == old(self).canvas().width()
                &&& final(self).canvas().height() == old(self).canvas().height()
                &&& final(self).settings() == old(self).settings()
                &&& final(self).should_redraw() == old(self).should_redraw()
            },
            result is Ok && old(self).settings().grayscale() ==> final(self).canvas().is_gray(),
    {
        match self.redraw_image(paint) {
            Err(error) => Err(error),
            Ok(()) => {
                self.noise = noise;
                Ok(())
            },
        }
    }

    /// Gives the model a canvas of exactly the given size, painted from
    /// `paint`, which is to be made for that size (see
    /// [`crate::canvas::sample_points`]). On an error nothing changes.
    pub fn update_size(&mut self, width: u32, height: u32, paint: &Paint) -> (result: Result<
        (),
        RedrawError,
    >)
        requires
            canvas_fits(width, height),
        ensures
            result == paint_verdict(old(self).settings().grayscale(), width, height, *paint),
            result is Err ==> *final(self) == *old(self),
            result is Ok ==> {
                &&& final(self).wf()
                &&& final(self).canvas().width() == width
                &&& final(self).canvas().height() == height
                &&& final(self).canvas().shows(*paint)
                &&& final(self).keeps_state_of(old(self))
            },
            result is Ok && old(self).settings().grayscale() ==> final(self).canvas().is_gray(),
    {
        match check_paint(self.settings.grayscale(), width, height, paint) {
            Err(error) => Err(error),
            Ok(()) => {
                let mut canvas = Canvas::new(width, height);
                canvas.paint(paint);
                self.canvas = canvas;
                Ok(())
            },
        }
    }

    /// One tick in a window of the given size. Where no repaint was asked
    /// for and the canvas has the window's size, nothing changes and the
    /// answer is `false`. Otherwise the canvas takes the window's size, is
    /// painted from `paint`, and no longer asks for a repaint; the answer is
    /// `true`. On an error nothing changes.
    pub fn update(&mut self, width: u32, height: u32, paint: &Paint) -> (result: Result<
        bool,
        RedrawError,
    >)
        requires
            old(self).wf(),
            canvas_fits(width, height),
        ensures
            final(self).wf(),
            !old(self).needs_repaint(width, height) ==> result == Ok::<bool, RedrawError>(false)
                && *final(self) == *old(self),
            old(self).needs_repaint(width, height) ==> (match paint_verdict(
                old(self).settings().grayscale(),
                width,
                height,
                *paint,
            ) {
                Err(error) => result == Err::<bool, RedrawError>(error) && *final(self) == *old(
                    self,
                ),
                Ok(()) => {
                    &&& result == Ok::<bool, RedrawError>(true)
                    &&& final(self).canvas().width() == width
                    &&& final(self).canvas().height() == height
                    &&& final(self).canvas().shows(*paint)
                    &&& !final(self).should_redraw()
                    &&& final(self).settings() == old(self).settings()
                    &&& final(self).noise() == old(self).noise()
                    &&& (old(self).settings().grayscale() ==> final(self).canvas().is_gray())
                },
            }),
    {
        if !self.needs_repaint(width, height) {
            return Ok(false);
        }
        match self.update_size(width, height, paint) {
            Err(error) => Err(error),
            Ok(()) => {
                self.should_redraw = false;
                Ok(true)
            },
        }
    }

    /// Takes over the settings as the controls left them, and asks for a
    /// repaint if a control was moved or the update button was clicked.
    pub fn apply_settings(&mut self, settings: Settings, clicked: bool, changed: bool)
        ensures
            final(self).settings() == settings,
            final(self).should_redraw() == (old(self).should_redraw() || clicked || changed),
            final(self).noise() == old(self).noise(),
            final(self).canvas() == old(self).canvas(),
    {
        self.settings = settings;
        if clicked || changed {
            self.should_redraw = true;
        }
    }

    /// A press of the mouse: a fresh random token of the form
    /// adjective-noun and the source seeded from it. The source is to be
    /// evaluated and handed to [`Model::update_noise`] with its paint.
    pub fn mouse_pressed() -> (fresh: (String, BasicMulti))
        ensures
            is_plain_name(fresh.0@),
            noise_seed(fresh.1) == seed_of_token(fresh.0@),
            noise_octaves(fresh.1) == 6,
    {
        let (token, _) = generate();
        let noise = noise_from_token(token.as_str());
        (token, noise)
    }
}

} // verus!
