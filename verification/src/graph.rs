//! The graph: the sample buffer drawn as a line that grows with every tick,
//! with a marker on the newest sample and a gridline at every boundary of
//! the noise domain.

use vstd::prelude::*;
use nannou::noise::BasicMulti;
use rand::rngs::ThreadRng;
use crate::buffer::{Sample, SampleBuffer};
use crate::range::{map_range_spec, map_range_wide};
use crate::seed::{
    generate, is_plain_name, seed_of_token, seed_text, seed_text_spec,
};
use crate::settings::UNIT;
use crate::source::{gen_range, new_noise, noise_from_token, noise_seed, seed, thread_rng};

verus! {

/// How many ticks make one unit of the noise domain: tick `t` asks the source
/// at `t / NOISE_STEP`.
pub const NOISE_STEP: u64 = 500;

/// A gridline stands at every tick that is a multiple of this.
pub const GRID_INTERVAL: usize = 500;

/// The height at which a value is drawn in a window whose top edge is at
/// `top` and whose bottom edge is at `bottom`: `-1` at the top, `1` at the
/// bottom, and a value outside `-1 ..= 1` as far outside the window.
pub open spec fn height_spec(value: int, top: int, bottom: int) -> int {
    map_range_spec(value, -(UNIT as int), UNIT as int, top, bottom)
}

/// A height is never farther from the window than 64 bits hold.
pub proof fn lemma_height_bound(value: i32, top: i32, bottom: i32)
    ensures
        i64::MIN <= height_spec(value as int, top as int, bottom as int) <= i64::MAX,
{
    let reach = value - (-(UNIT as int));
    let rise = bottom - top;
    let scaled = reach * rise;
    assert(-0x1_0000_0000_0000_0000 <= scaled <= 0x1_0000_0000_0000_0000) by (nonlinear_arith)
        requires
            scaled == reach * rise,
            -0x1_0000_0000 <= reach <= 0x1_0000_0000,
            -0x1_0000_0000 <= rise <= 0x1_0000_0000,
    ;
    assert(UNIT - (-(UNIT as int)) == 0x2_0000);
    assert(-0x8000_0000_0000 <= scaled / 0x2_0000 <= 0x8000_0000_0000);
    assert(height_spec(value as int, top as int, bottom as int) == top + scaled / 0x2_0000);
}

/// The height at which a sample is drawn.
pub fn height(sample: Sample, top: i32, bottom: i32) -> (y: i64)
    ensures
        y == height_spec(sample.value as int, top as int, bottom as int),
{
    let wide = map_range_wide(sample.value, -UNIT, UNIT, top, bottom);
    proof {
        lemma_height_bound(sample.value, top, bottom);
    }
    wide as i64
}

/// What is drawn of the graph in one frame. Horizontal places are counted in
/// ticks to the left of the marker, which stands still while the line moves
/// away under it.
#[derive(Debug)]
pub struct Frame {
    /// The height of each sample, oldest first. Sample `i` of `n` stands
    /// `n - i` ticks to the left of the marker.
    pub heights: Vec<i64>,
    /// The height of the marker: that of the newest sample.
    pub marker: i64,
    /// How far to the left of the marker each gridline stands.
    pub gridlines: Vec<usize>,
    /// The text in the corner: the seed, where it reads as text.
    pub label: Option<String>,
}

impl Frame {
    /// Whether this frame draws `samples` in a window from `top` to `bottom`.
    pub open spec fn draws(&self, samples: Seq<Sample>, top: i32, bottom: i32) -> bool {
        &&& self.heights@.len() == samples.len()
        &&& forall|i: int|
            0 <= i < samples.len() ==> #[trigger] self.heights@[i] == height_spec(
                samples[i].value as int,
                top as int,
                bottom as int,
            )
        &&& self.marker == self.heights@.last()
        &&& self.gridlines@.len() == samples.len() / GRID_INTERVAL as nat
        &&& forall|k: int|
            0 <= k < self.gridlines@.len() ==> #[trigger] self.gridlines@[k] == samples.len() - k
                * GRID_INTERVAL
    }
}

/// The height of each sample, oldest first.
fn heights(points: &SampleBuffer, top: i32, bottom: i32) -> (ys: Vec<i64>)
    ensures
        ys@.len() == points@.len(),
        forall|i: int|
            0 <= i < points@.len() ==> #[trigger] ys@[i] == height_spec(
                points@[i].value as int,
                top as int,
                bottom as int,
            ),
{
    let mut ys: Vec<i64> = Vec::new();
    let count = points.len();
    let mut i: usize = 0;
    while i < count
        invariant
            i <= count,
            count == points@.len(),
            ys@.len() == i,
            forall|k: int|
                0 <= k < i ==> #[trigger] ys@[k] == height_spec(
                    points@[k].value as int,
                    top as int,
                    bottom as int,
                ),
        decreases count - i,
    {
        match points.get(i) {
            Some(sample) => {
                ys.push(height(sample, top, bottom));
            },
            None => {},
        }
        i = i + 1;
    }
    ys
}

/// The place of each gridline among `count` samples, as ticks to the left of
/// the marker: one line for every full interval, the oldest boundary first.
fn gridlines(count: usize) -> (lines: Vec<usize>)
    ensures
        lines@.len() == count / GRID_INTERVAL,
        forall|k: int|
            0 <= k < lines@.len() ==> #[trigger] lines@[k] == count - k * GRID_INTERVAL,
{
    let mut lines: Vec<usize> = Vec::new();
    let total = count / GRID_INTERVAL;
    let mut k: usize = 0;
    while k < total
        invariant
            k <= total,
            total == count / GRID_INTERVAL,
            lines@.len() == k,
            forall|j: int| 0 <= j < k ==> #[trigger] lines@[j] == count - j * GRID_INTERVAL,
        decreases total - k,
    {
        lines.push(count - k * GRID_INTERVAL);
        k = k + 1;
    }
    lines
}

/// The frame that draws the buffer in a window from `top` to `bottom`, with
/// the given text in the corner.
pub fn frame(points: &SampleBuffer, top: i32, bottom: i32, label: Option<String>) -> (frame: Frame)
    requires
        points.spec_len() > 0,
    ensures
        frame.draws(points@, top, bottom),
        frame.label == label,
{
    let ys = heights(points, top, bottom);
    let marker = ys[ys.len() - 1];
    Frame { heights: ys, marker, gridlines: gridlines(points.len()), label }
}

/// Whether a label shows the given text, or is absent where there is none.
pub open spec fn label_shows(label: Option<String>, text: Option<Seq<char>>) -> bool {
    match label {
        Some(shown) => text == Some(shown@),
        None => text is None,
    }
}

/// The graph of a coherent source.
pub struct Model {
    noise: BasicMulti,
    points: SampleBuffer,
    frame_start: u64,
}

impl Model {
    pub closed spec fn spec_noise(&self) -> &BasicMulti {
        &self.noise
    }

    pub closed spec fn spec_points(&self) -> &SampleBuffer {
        &self.points
    }

    pub closed spec fn spec_frame_start(&self) -> u64 {
        self.frame_start
    }

    /// The seed of the active sample source.
    pub open spec fn spec_seed(&self) -> u32 {
        noise_seed(*self.noise())
    }

    /// A graph with no samples yet, on a source with seed zero, counting
    /// ticks from frame zero.
    pub fn new() -> (model: Model)
        ensures
            model.spec_seed() == 0,
            model.points()@ == Seq::<Sample>::empty(),
            model.frame_start() == 0,
    {
        Model { noise: new_noise(), points: SampleBuffer::new(), frame_start: 0 }
    }

    /// The active sample source, for whoever evaluates it.
    #[verifier::when_used_as_spec(spec_noise)]
    pub fn noise(&self) -> (noise: &BasicMulti)
        ensures
            noise == self.spec_noise(),
    {
        &self.noise
    }

    /// The sample buffer.
    #[verifier::when_used_as_spec(spec_points)]
    pub fn points(&self) -> (points: &SampleBuffer)
        ensures
            points == self.spec_points(),
    {
        &self.points
    }

    /// The frame at which the source was last replaced.
    #[verifier::when_used_as_spec(spec_frame_start)]
    pub fn frame_start(&self) -> (frame: u64)
        ensures
            frame == self.spec_frame_start(),
    {
        self.frame_start
    }

    /// The seed of the active sample source.
    pub fn seed(&self) -> (seed: u32)
        ensures
            seed == self.spec_seed(),
    {
        seed(&self.noise)
    }

    /// The number of ticks since the source was last replaced, which is
    /// where the source is asked at this frame, in units of `1 / NOISE_STEP`.
    pub fn current_step(&self, elapsed_frames: u64) -> (step: u64)
        requires
            elapsed_frames >= self.frame_start(),
        ensures
            step == elapsed_frames - self.frame_start(),
    {
        elapsed_frames - self.frame_start
    }

    /// One tick: records what the source answered at the current step.
    pub fn update(&mut self, elapsed_frames: u64, reading: i32)
        requires
            elapsed_frames >= old(self).frame_start(),
        ensures
            final(self).points()@ == old(self).points()@.push(
                (Sample {
                    position: (elapsed_frames - old(self).frame_start()) as u64,
                    value: reading,
                }),
            ),
            final(self).noise() == old(self).noise(),
            final(self).frame_start() == old(self).frame_start(),
    {
        let step = self.current_step(elapsed_frames);
        self.points.tick(step, reading);
    }

    /// Replaces the source by one seeded from `token`, empties the buffer,
    /// and counts ticks anew from this frame.
    pub fn reseed(&mut self, token: &str, elapsed_frames: u64)
        ensures
            final(self).spec_seed() == seed_of_token(token@),
            final(self).points()@ == Seq::<Sample>::empty(),
            final(self).frame_start() == elapsed_frames,
    {
        self.noise = noise_from_token(token);
        self.frame_start = elapsed_frames;
        self.points.reset();
    }

    /// A press of the mouse: reseeds from a fresh random token, which is
    /// handed back.
    pub fn mouse_pressed(&mut self, elapsed_frames: u64) -> (token: String)
        ensures
            is_plain_name(token@),
            final(self).spec_seed() == seed_of_token(token@),
            final(self).points()@ == Seq::<Sample>::empty(),
            final(self).frame_start() == elapsed_frames,
    {
        let (token, _) = generate();
        self.reseed(token.as_str(), elapsed_frames);
        token
    }

    /// The frame that draws the graph in a window from `top` to `bottom`,
    /// with the seed in the corner. There must have been a tick.
    pub fn view(&self, top: i32, bottom: i32) -> (frame: Frame)
        requires
            self.points().spec_len() > 0,
        ensures
            frame.draws(self.points()@, top, bottom),
            label_shows(frame.label, seed_text_spec(self.spec_seed())),
    {
        frame(&self.points, top, bottom, seed_text(self.seed()))
    }
}

/// The graph of a uniform source, which has no seed to show.
pub struct RandomModel {
    noise: ThreadRng,
    points: SampleBuffer,
    frame_start: u64,
}

impl RandomModel {
    pub closed spec fn spec_points(&self) -> &SampleBuffer {
        &self.points
    }

    pub closed spec fn spec_frame_start(&self) -> u64 {
        self.frame_start
    }

    /// A graph with no samples yet, counting ticks from frame zero.
    pub fn new() -> (model: RandomModel)
        ensures
            model.points()@ == Seq::<Sample>::empty(),
            model.frame_start() == 0,
    {
        RandomModel { noise: thread_rng(), points: SampleBuffer::new(), frame_start: 0 }
    }

    /// The sample buffer.
    #[verifier::when_used_as_spec(spec_points)]
    pub fn points(&self) -> (points: &SampleBuffer)
        ensures
            points == self.spec_points(),
    {
        &self.points
    }

    /// The frame at which the source was last replaced.
    #[verifier::when_used_as_spec(spec_frame_start)]
    pub fn frame_start(&self) -> (frame: u64)
        ensures
            frame == self.spec_frame_start(),
    {
        self.frame_start
    }

    /// One tick: asks the source for a reading in `-1 .. 1` and records it at
    /// the current step.
    pub fn update(&mut self, elapsed_frames: u64)
        requires
            elapsed_frames >= old(self).frame_start(),
        ensures
            final(self).points()@.len() == old(self).points()@.len() + 1,
            final(self).points()@.drop_last() == old(self).points()@,
            final(self).points()@.last().position == elapsed_frames - old(self).frame_start(),
            -UNIT <= final(self).points()@.last().value < UNIT,
            final(self).frame_start() == old(self).frame_start(),
    {
        let reading = gen_range(&mut self.noise, -UNIT, UNIT);
        self.points.tick(elapsed_frames - self.frame_start, reading);
    }

    /// A press of the mouse: takes the generator anew, empties the buffer,
    /// and counts ticks anew from this frame.
    pub fn mouse_pressed(&mut self, elapsed_frames: u64)
        ensures
            final(self).points()@ == Seq::<Sample>::empty(),
            final(self).frame_start() == elapsed_frames,
    {
        self.noise = thread_rng();
        self.frame_start = elapsed_frames;
        self.points.reset();
    }

    /// The frame that draws the graph in a window from `top` to `bottom`,
    /// with the word "random" in the corner. There must have been a tick.
    pub fn view(&self, top: i32, bottom: i32) -> (frame: Frame)
        requires
            self.points().spec_len() > 0,
        ensures
            frame.draws(self.points()@, top, bottom),
            label_shows(frame.label, Some("random"@)),
    {
        frame(&self.points, top, bottom, Some("random".to_owned()))
    }
}

} // verus!
