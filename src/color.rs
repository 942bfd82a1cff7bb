use std::ops::Range;
use vstd::prelude::*;
use vstd::string::StringSliceAdditionalSpecFns;
use crate::digest::{key_hash, rgb_hash};

verus! {

/// Number of hue steps that a configured hue range is divided into.
pub const HUE_RESOLUTION: u32 = 727;

/// Without hue ranges, the hue is the hash modulo this number of degrees.
pub const HUE_MODULUS: u32 = 359;

/// The hash is divided by this before it picks a saturation and a lightness.
pub const TONE_DIVISOR: u32 = 360;

/// A color in the HSL space.
///
/// The hue is held exactly, in steps of 1/727 of a degree: the hue in degrees
/// is `hue_steps / HUE_RESOLUTION`. Saturation and lightness are percentages.
#[derive(Clone, Copy, Debug, PartialEq, Eq, Structural)]
pub struct Hsl {
    pub hue_steps: i64,
    pub saturation: u32,
    pub lightness: u32,
}

/// A configuration that no color can be derived from.
#[derive(Clone, Copy, Debug, PartialEq, Eq, Structural)]
pub enum ConfigError {
    /// The list of saturation candidates is empty.
    EmptySaturation,
    /// The list of lightness candidates is empty.
    EmptyLightness,
}

/// Converts a string to a color using a hash function.
///
/// Holds the candidate saturations, the candidate lightnesses and the hue
/// ranges (in degrees) that a color is picked from.
#[derive(Clone, Debug)]
pub struct ColorHash {
    s: Vec<u32>,
    l: Vec<u32>,
    hue_ranges: Vec<Range<i32>>,
}

/// What a `ColorHash` holds.
pub struct ColorHashView {
    pub saturation: Seq<u32>,
    pub lightness: Seq<u32>,
    pub hue_ranges: Seq<Range<i32>>,
}

impl View for ColorHash {
    type V = ColorHashView;

    closed spec fn view(&self) -> ColorHashView {
        ColorHashView { saturation: self.s@, lightness: self.l@, hue_ranges: self.hue_ranges@ }
    }
}

/// The default configuration: three saturations, three lightnesses, no hue range.
pub open spec fn default_view() -> ColorHashView {
    ColorHashView {
        saturation: seq![35u32, 50u32, 65u32],
        lightness: seq![35u32, 50u32, 65u32],
        hue_ranges: Seq::empty(),
    }
}

/// The hue, in steps of 1/727 degree, that the hash `h` picks from `ranges`.
///
/// With ranges, `h` picks a range and a step inside it; without, the hue is
/// a whole number of degrees below 359.
pub open spec fn hue_steps_of(ranges: Seq<Range<i32>>, h: u32) -> int {
    if ranges.len() > 0 {
        let n = ranges.len() as int;
        let r = ranges[h as int % n];
        let pos = (h as int / n) % (HUE_RESOLUTION as int);
        r.start as int * HUE_RESOLUTION as int + pos * (r.end as int - r.start as int)
    } else {
        (h as int % HUE_MODULUS as int) * HUE_RESOLUTION as int
    }
}

/// The color that the hash `h` picks under the configuration `cfg`.
pub open spec fn color_of(cfg: ColorHashView, h: u32) -> Result<Hsl, ConfigError> {
    let sn = cfg.saturation.len() as int;
    let ln = cfg.lightness.len() as int;
    if sn == 0 {
        Err(ConfigError::EmptySaturation)
    } else if ln == 0 {
        Err(ConfigError::EmptyLightness)
    } else {
        let t = h as int / TONE_DIVISOR as int;
        Ok(
            Hsl {
                hue_steps: hue_steps_of(cfg.hue_ranges, h) as i64,
                saturation: cfg.saturation[t % sn],
                lightness: cfg.lightness[(t / sn) % ln],
            },
        )
    }
}

impl Default for ColorHash {
    /// The default configuration: saturations and lightnesses 35, 50 and 65,
    /// and no hue range.
    fn default() -> (r: Self)
        ensures
            r@ == default_view(),
    {
        let mut s: Vec<u32> = Vec::new();
        s.push(35);
        s.push(50);
        s.push(65);
        let mut l: Vec<u32> = Vec::new();
        l.push(35);
        l.push(50);
        l.push(65);
        let r = ColorHash { s, l, hue_ranges: Vec::new() };
        assert(r@.saturation =~= default_view().saturation);
        assert(r@.lightness =~= default_view().lightness);
        assert(r@.hue_ranges =~= default_view().hue_ranges);
        r
    }
}

impl ColorHash {
    /// A default configuration, to be adjusted with the builder methods.
    pub fn new() -> (r: Self)
        ensures
            r@ == default_view(),
    {
        Self::default()
    }

    /// Replaces the lightness candidates with the single value `lightness`.
    pub fn lightness(self, lightness: u32) -> (r: Self)
        ensures
            r@ == (ColorHashView { lightness: seq![lightness], ..self@ }),
    {
        let mut l: Vec<u32> = Vec::new();
        l.push(lightness);
        let r = ColorHash { s: self.s, l, hue_ranges: self.hue_ranges };
        assert(r@.lightness =~= seq![lightness]);
        r
    }

    /// Replaces the lightness candidates with `lightness`, in order.
    ///
    /// A list whose length is a prime spreads the colors best.
    pub fn lightness_vec(self, lightness: &Vec<u32>) -> (r: Self)
        ensures
            r@ == (ColorHashView { lightness: lightness@, ..self@ }),
    {
        let l = lightness.clone();
        assert(l@ =~= lightness@);
        ColorHash { s: self.s, l, hue_ranges: self.hue_ranges }
    }

    /// Replaces the saturation candidates with the single value `saturation`.
    pub fn saturation(self, saturation: u32) -> (r: Self)
        ensures
            r@ == (ColorHashView { saturation: seq![saturation], ..self@ }),
    {
        let mut s: Vec<u32> = Vec::new();
        s.push(saturation);
        let r = ColorHash { s, l: self.l, hue_ranges: self.hue_ranges };
        assert(r@.saturation =~= seq![saturation]);
        r
    }

    /// Replaces the saturation candidates with `saturation`, in order.
    ///
    /// A list whose length is a prime spreads the colors best.
    pub fn saturation_vec(self, saturation: &Vec<u32>) -> (r: Self)
        ensures
            r@ == (ColorHashView { saturation: saturation@, ..self@ }),
    {
        let s = saturation.clone();
        assert(s@ =~= saturation@);
        ColorHash { s, l: self.l, hue_ranges: self.hue_ranges }
    }

    /// Replaces the hue ranges with the single range `hue_range`, in degrees.
    pub fn hue_range(self, hue_range: Range<i32>) -> (r: Self)
        ensures
            r@ == (ColorHashView { hue_ranges: seq![hue_range], ..self@ }),
    {
        let mut hue_ranges: Vec<Range<i32>> = Vec::new();
        hue_ranges.push(hue_range);
        let r = ColorHash { s: self.s, l: self.l, hue_ranges };
        assert(r@.hue_ranges =~= seq![hue_range]);
        r
    }

    /// Replaces the hue ranges with `hue_ranges`, in order, each in degrees.
    ///
    /// Ranges may overlap: the hash alone decides which one is picked.
    pub fn hue_ranges(self, hue_ranges: &Vec<Range<i32>>) -> (r: Self)
        ensures
            r@ == (ColorHashView { hue_ranges: hue_ranges@, ..self@ }),
    {
        let mut copy: Vec<Range<i32>> = Vec::new();
        let mut i: usize = 0;
        while i < hue_ranges.len()
            invariant
                i <= hue_ranges@.len(),
                copy@ == hue_ranges@.subrange(0, i as int),
            decreases hue_ranges@.len() - i,
        {
            let range = &hue_ranges[i];
            copy.push(range.start..range.end);
            proof {
                assert(copy@ =~= hue_ranges@.subrange(0, i + 1));
            }
            i = i + 1;
        }
        assert(copy@ =~= hue_ranges@);
        ColorHash { s: self.s, l: self.l, hue_ranges: copy }
    }

    /// The color that the hash `hash` picks under this configuration.
    ///
    /// Fails only where a candidate list is empty, naming the saturation
    /// list first.
    pub fn hsl_from_hash(&self, hash: u32) -> (r: Result<Hsl, ConfigError>)
        ensures
            r == color_of(self@, hash),
            r is Ok <==> self@.saturation.len() > 0 && self@.lightness.len() > 0,
    {
        let sn = self.s.len();
        let ln = self.l.len();
        if sn == 0 {
            return Err(ConfigError::EmptySaturation);
        }
        if ln == 0 {
            return Err(ConfigError::EmptyLightness);
        }
        let h = hash as u64;
        let hue_steps = self.hue_steps(hash);
        let t = h / (TONE_DIVISOR as u64);
        let s = self.s[(t % (sn as u64)) as usize];
        let l = self.l[((t / (sn as u64)) % (ln as u64)) as usize];
        Ok(Hsl { hue_steps, saturation: s, lightness: l })
    }

    /// The hue, in steps of 1/727 degree, that the hash `hash` picks.
    fn hue_steps(&self, hash: u32) -> (r: i64)
        ensures
            r as int == hue_steps_of(self@.hue_ranges, hash),
    {
        let n = self.hue_ranges.len();
        let h = hash as u64;
        if n > 0 {
            let range = &self.hue_ranges[(h % (n as u64)) as usize];
            let pos = ((h / (n as u64)) % (HUE_RESOLUTION as u64)) as i64;
            let start = range.start as i64;
            let width = range.end as i64 - start;
            assert(-0x80000000 * 727 <= start * 727 <= 0x7fffffff * 727) by (nonlinear_arith)
                requires
                    -0x80000000 <= start <= 0x7fffffff,
            ;
            assert(-0xffffffff * 727 <= pos * width <= 0xffffffff * 727) by (nonlinear_arith)
                requires
                    0 <= pos < 727,
                    -0xffffffff <= width <= 0xffffffff,
            ;
            start * (HUE_RESOLUTION as i64) + pos * width
        } else {
            ((h % (HUE_MODULUS as u64)) * (HUE_RESOLUTION as u64)) as i64
        }
    }

    /// The color of `input`, derived from the SHA-256 digest of its bytes.
    pub fn hsl(&self, input: &str) -> (r: Result<Hsl, ConfigError>)
        ensures
            r == color_of(self@, key_hash(input.spec_bytes())),
            r is Ok <==> self@.saturation.len() > 0 && self@.lightness.len() > 0,
    {
        self.hsl_from_hash(rgb_hash(input))
    }
}

} // verus!
