//! Properties of the colors derived from keys, stated over every key.
use std::ops::Range;
use vstd::prelude::*;
use crate::color::{color_of, ColorHashView, HUE_MODULUS, HUE_RESOLUTION};
use crate::digest::key_hash;

verus! {

/// A configuration whose saturation and lightness lists are both non-empty.
pub open spec fn usable(cfg: ColorHashView) -> bool {
    cfg.saturation.len() > 0 && cfg.lightness.len() > 0
}

/// The color of a key depends on the configuration and on the key's bytes
/// alone: equal keys get equal colors, every time.
pub proof fn lemma_color_deterministic(cfg: ColorHashView, a: Seq<u8>, b: Seq<u8>)
    requires
        a == b,
    ensures
        color_of(cfg, key_hash(a)) == color_of(cfg, key_hash(b)),
{
}

/// Without hue ranges every hue is a whole number of degrees in `[0, 359)`.
pub proof fn lemma_hue_below_modulus(cfg: ColorHashView, key: Seq<u8>)
    requires
        usable(cfg),
        cfg.hue_ranges.len() == 0,
    ensures
        color_of(cfg, key_hash(key)) is Ok,
        0 <= color_of(cfg, key_hash(key))->Ok_0.hue_steps,
        color_of(cfg, key_hash(key))->Ok_0.hue_steps < HUE_MODULUS * HUE_RESOLUTION,
        color_of(cfg, key_hash(key))->Ok_0.hue_steps % HUE_RESOLUTION as i64 == 0,
{
    let h = key_hash(key);
    let k = h as int % HUE_MODULUS as int;
    assert(0 <= k * 727 < 359 * 727) by (nonlinear_arith)
        requires
            0 <= k < 359,
    ;
    assert((k * 727) % 727 == 0) by (nonlinear_arith);
}

/// A single hue range of width zero, `[a, a)`, makes every hue exactly `a` degrees.
pub proof fn lemma_point_hue_range(cfg: ColorHashView, a: i32, key: Seq<u8>)
    requires
        usable(cfg),
        cfg.hue_ranges == seq![a..a],
    ensures
        color_of(cfg, key_hash(key)) is Ok,
        color_of(cfg, key_hash(key))->Ok_0.hue_steps == a as int * HUE_RESOLUTION as int,
{
    let h = key_hash(key);
    let pos = (h as int / 1) % 727;
    assert(h as int % 1 == 0);
    assert(cfg.hue_ranges[0] == (a..a));
    assert(pos * (a as int - a as int) == 0);
    assert(-0x80000000 * 727 <= a as int * 727 <= 0x7fffffff * 727) by (nonlinear_arith)
        requires
            -0x80000000 <= a <= 0x7fffffff,
    ;
}

/// A hue, in steps of 1/727 degree, lies in the half-open range `r` of degrees.
pub open spec fn hue_within(r: Range<i32>, hue_steps: i64) -> bool {
    r.start as int * HUE_RESOLUTION as int <= hue_steps < r.end as int * HUE_RESOLUTION as int
}

/// With hue ranges that each run upwards, `start < end`, every hue lies in
/// one of them: `start <= hue < end` for some configured range.
pub proof fn lemma_hue_in_some_range(cfg: ColorHashView, key: Seq<u8>)
    requires
        usable(cfg),
        cfg.hue_ranges.len() > 0,
        forall|i: int| 0 <= i < cfg.hue_ranges.len() ==> #[trigger] cfg.hue_ranges[i].start < cfg.hue_ranges[i].end,
    ensures
        color_of(cfg, key_hash(key)) is Ok,
        exists|i: int|
            0 <= i < cfg.hue_ranges.len() && #[trigger] hue_within(
                cfg.hue_ranges[i],
                color_of(cfg, key_hash(key))->Ok_0.hue_steps,
            ),
{
    let h = key_hash(key);
    let n = cfg.hue_ranges.len() as int;
    let i = h as int % n;
    let r = cfg.hue_ranges[i];
    let pos = (h as int / n) % 727;
    let w = r.end as int - r.start as int;
    assert(0 <= pos * w < 727 * w) by (nonlinear_arith)
        requires
            0 <= pos < 727,
            w > 0,
    ;
    assert(r.start as int * 727 + 727 * w == r.end as int * 727) by (nonlinear_arith)
        requires
            w == r.end as int - r.start as int,
    ;
    assert(hue_within(cfg.hue_ranges[i], color_of(cfg, h)->Ok_0.hue_steps));
}

/// A single saturation and a single lightness are given to every color.
pub proof fn lemma_fixed_tones(cfg: ColorHashView, s: u32, l: u32, key: Seq<u8>)
    requires
        cfg.saturation == seq![s],
        cfg.lightness == seq![l],
    ensures
        color_of(cfg, key_hash(key)) is Ok,
        color_of(cfg, key_hash(key))->Ok_0.saturation == s,
        color_of(cfg, key_hash(key))->Ok_0.lightness == l,
{
    let t = key_hash(key) as int / 360;
    assert(t % 1 == 0 && (t / 1) % 1 == 0);
}

/// Saturation and lightness are always candidates of the configuration,
/// never values between them.
pub proof fn lemma_tones_are_candidates(cfg: ColorHashView, key: Seq<u8>)
    requires
        usable(cfg),
    ensures
        color_of(cfg, key_hash(key)) is Ok,
        cfg.saturation.contains(color_of(cfg, key_hash(key))->Ok_0.saturation),
        cfg.lightness.contains(color_of(cfg, key_hash(key))->Ok_0.lightness),
{
    let t = key_hash(key) as int / 360;
    let sn = cfg.saturation.len() as int;
    let ln = cfg.lightness.len() as int;
    assert(cfg.saturation[t % sn] == color_of(cfg, key_hash(key))->Ok_0.saturation);
    assert(cfg.lightness[(t / sn) % ln] == color_of(cfg, key_hash(key))->Ok_0.lightness);
}

} // verus!
