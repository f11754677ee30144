//! Display parameters of the noise field, and the fixed-point scale in which
//! the library holds every scalar.

use vstd::prelude::*;

verus! {

/// The fixed-point representation of the number one: a scalar `s` stands for
/// the number `s / UNIT`.
pub const UNIT: i32 = 65_536;

/// Upper end of the lightness range, in whole units.
pub const MAX_LIGHTNESS: i32 = 100;

/// Upper end of the chroma range, in whole units.
pub const MAX_CHROMA: i32 = 181;

/// The hue centre ranges over `-MAX_HUE ..= MAX_HUE` degrees, the hue range
/// over `0 ..= MAX_HUE`.
pub const MAX_HUE: i32 = 180;

/// `x` restricted to `lo ..= hi`.
pub open spec fn clamp_spec(x: int, lo: int, hi: int) -> int {
    if x < lo {
        lo
    } else if x > hi {
        hi
    } else {
        x
    }
}

/// Restricts `x` to `lo ..= hi`.
pub fn clamp(x: i32, lo: i32, hi: i32) -> (r: i32)
    requires
        lo <= hi,
    ensures
        r == clamp_spec(x as int, lo as int, hi as int),
{
    if x < lo {
        lo
    } else if x > hi {
        hi
    } else {
        x
    }
}

/// A reading restricted to the nominal range of a noise value, `-1 ..= 1`.
pub open spec fn normalize_spec(raw: int) -> int {
    clamp_spec(raw, -(UNIT as int), UNIT as int)
}

/// Restricts a reading to the nominal range of a noise value, `-1 ..= 1`.
pub fn normalize(raw: i32) -> (r: i32)
    ensures
        r == normalize_spec(raw as int),
        -UNIT <= r <= UNIT,
{
    clamp(raw, -UNIT, UNIT)
}

/// The display parameters, each a fixed-point scalar inside the range that
/// its control offers.
#[derive(Clone, Copy, Debug, PartialEq, Eq, Structural)]
pub struct Settings {
    lightness: i32,
    chroma: i32,
    grayscale: bool,
    hue_center: i32,
    hue_range: i32,
}

impl Settings {
    pub closed spec fn spec_lightness(&self) -> i32 {
        self.lightness
    }

    pub closed spec fn spec_chroma(&self) -> i32 {
        self.chroma
    }

    pub closed spec fn spec_grayscale(&self) -> bool {
        self.grayscale
    }

    pub closed spec fn spec_hue_center(&self) -> i32 {
        self.hue_center
    }

    pub closed spec fn spec_hue_range(&self) -> i32 {
        self.hue_range
    }

    /// Every parameter lies inside its range.
    #[verifier::type_invariant]
    pub open spec fn wf(&self) -> bool {
        &&& 0 <= self.lightness() <= MAX_LIGHTNESS * UNIT
        &&& 0 <= self.chroma() <= MAX_CHROMA * UNIT
        &&& -MAX_HUE * UNIT <= self.hue_center() <= MAX_HUE * UNIT
        &&& 0 <= self.hue_range() <= MAX_HUE * UNIT
    }

    /// Mid lightness, strong chroma, and the whole circle of hues around
    /// zero degrees, in colour.
    pub open spec fn is_default(&self) -> bool {
        &&& self.lightness() == 50 * UNIT
        &&& self.chroma() == 80 * UNIT
        &&& !self.grayscale()
        &&& self.hue_center() == 0
        &&& self.hue_range() == 180 * UNIT
    }

    /// Settings with the given parameters, each pulled into its range as the
    /// controls do.
    pub fn new(lightness: i32, chroma: i32, hue_center: i32, hue_range: i32, grayscale: bool) -> (s:
        Settings)
        ensures
            s.wf(),
            s.lightness() == clamp_spec(lightness as int, 0, MAX_LIGHTNESS * UNIT),
            s.chroma() == clamp_spec(chroma as int, 0, MAX_CHROMA * UNIT),
            s.hue_center() == clamp_spec(hue_center as int, -MAX_HUE * UNIT, MAX_HUE * UNIT),
            s.hue_range() == clamp_spec(hue_range as int, 0, MAX_HUE * UNIT),
            s.grayscale() == grayscale,
    {
        Settings {
            lightness: clamp(lightness, 0, MAX_LIGHTNESS * UNIT),
            chroma: clamp(chroma, 0, MAX_CHROMA * UNIT),
            grayscale,
            hue_center: clamp(hue_center, -MAX_HUE * UNIT, MAX_HUE * UNIT),
            hue_range: clamp(hue_range, 0, MAX_HUE * UNIT),
        }
    }

    /// Lightness, from 0 to 100.
    #[verifier::when_used_as_spec(spec_lightness)]
    pub fn lightness(&self) -> (r: i32)
        ensures
            r == self.spec_lightness(),
            self.wf(),
    {
        proof {
            use_type_invariant(self);
        }
        self.lightness
    }

    /// Chroma, from 0 to 181.
    #[verifier::when_used_as_spec(spec_chroma)]
    pub fn chroma(&self) -> (r: i32)
        ensures
            r == self.spec_chroma(),
            self.wf(),
    {
        proof {
            use_type_invariant(self);
        }
        self.chroma
    }

    /// Whether the field is drawn in gray levels.
    #[verifier::when_used_as_spec(spec_grayscale)]
    pub fn grayscale(&self) -> (r: bool)
        ensures
            r == self.spec_grayscale(),
    {
        proof {
            use_type_invariant(self);
        }
        self.grayscale
    }

    /// The hue, in degrees, that a reading of zero is drawn in.
    #[verifier::when_used_as_spec(spec_hue_center)]
    pub fn hue_center(&self) -> (r: i32)
        ensures
            r == self.spec_hue_center(),
            self.wf(),
    {
        proof {
            use_type_invariant(self);
        }
        self.hue_center
    }

    /// How far, in degrees, the hue swings to either side of its centre.
    #[verifier::when_used_as_spec(spec_hue_range)]
    pub fn hue_range(&self) -> (r: i32)
        ensures
            r == self.spec_hue_range(),
            self.wf(),
    {
        proof {
            use_type_invariant(self);
        }
        self.hue_range
    }
}

impl Default for Settings {
    fn default() -> (s: Settings)
        ensures
            s.wf(),
            s.is_default(),
    {
        Settings {
            lightness: 50 * UNIT,
            chroma: 80 * UNIT,
            grayscale: false,
            hue_center: 0,
            hue_range: 180 * UNIT,
        }
    }
}

} // verus!
