//! Colour correction ahead of the wire: gamma, then brightness.
//!
//! Both steps are those of the `smart_leds` crate and are called here as
//! they are. They work on the colour bytes, before any bit is split off.

use vstd::prelude::*;
use crate::color::RgbColor;

verus! {

/// The channel value that `smart_leds::gamma` puts in the place of `v`:
/// the entry of that crate's gamma table at index `v`.
pub uninterp spec fn gamma_value(v: u8) -> u8;

/// The colour that `smart_leds::hsv::hsv2rgb` gives for a hue, a
/// saturation and a value, as red, green, blue.
pub uninterp spec fn hsv_value(hue: u8, sat: u8, val: u8) -> (u8, u8, u8);

/// A channel value scaled to a brightness level: `level` 255 leaves it as
/// it is, `level` 0 leaves nothing of it.
pub open spec fn scaled(v: u8, level: u8) -> u8 {
    (v as int * (level as int + 1) / 256) as u8
}

/// A colour with each channel gamma-corrected.
pub open spec fn gamma_color(color: RgbColor) -> RgbColor {
    RgbColor { r: gamma_value(color.r), g: gamma_value(color.g), b: gamma_value(color.b) }
}

/// A colour with each channel scaled to a brightness level.
pub open spec fn scaled_color(color: RgbColor, level: u8) -> RgbColor {
    RgbColor { r: scaled(color.r, level), g: scaled(color.g, level), b: scaled(color.b, level) }
}

/// A colour as it goes to the encoder: gamma first, brightness second.
pub open spec fn corrected_color(color: RgbColor, level: u8) -> RgbColor {
    scaled_color(gamma_color(color), level)
}

/// A frame with every colour corrected.
pub open spec fn corrected_frame(colors: Seq<RgbColor>, level: u8) -> Seq<RgbColor> {
    Seq::new(colors.len(), |i: int| corrected_color(colors[i], level))
}

/// Runs `smart_leds::gamma` over `colors`. Believed of it: it hands out
/// one colour for each colour that goes in, in the same order, and
/// replaces each channel by that crate's table entry for it, which is
/// what `gamma_value` names.
#[verifier::external_body]
pub(crate) fn apply_gamma(colors: &[RgbColor]) -> (out: Vec<RgbColor>)
    ensures
        out@.len() == colors@.len(),
        forall|i: int|
            0 <= i < colors@.len() ==> {
                &&& (#[trigger] out@[i]).r == gamma_value(colors@[i].r)
                &&& out@[i].g == gamma_value(colors@[i].g)
                &&& out@[i].b == gamma_value(colors@[i].b)
            },
{
    smart_leds::gamma(colors.iter().map(|c| smart_leds::RGB8::new(c.r, c.g, c.b)))
        .map(|c| RgbColor { r: c.r, g: c.g, b: c.b })
        .collect()
}

/// Runs `smart_leds::brightness` over `colors`. Believed of it: it hands
/// out one colour for each colour that goes in, in the same order, each
/// channel multiplied by `level + 1` and divided by 256, rounded down.
#[verifier::external_body]
pub(crate) fn apply_brightness(colors: &[RgbColor], level: u8) -> (out: Vec<RgbColor>)
    ensures
        out@.len() == colors@.len(),
        forall|i: int|
            0 <= i < colors@.len() ==> {
                &&& (#[trigger] out@[i]).r as int == colors@[i].r as int * (level as int + 1) / 256
                &&& out@[i].g as int == colors@[i].g as int * (level as int + 1) / 256
                &&& out@[i].b as int == colors@[i].b as int * (level as int + 1) / 256
            },
{
    smart_leds::brightness(colors.iter().map(|c| smart_leds::RGB8::new(c.r, c.g, c.b)), level)
        .map(|c| RgbColor { r: c.r, g: c.g, b: c.b })
        .collect()
}

/// Calls `smart_leds::hsv::hsv2rgb`. Believed of it: it returns for all
/// inputs, and its result depends on the three inputs alone, which is
/// what `hsv_value` names.
#[verifier::external_body]
pub(crate) fn hsv_to_rgb(hue: u8, sat: u8, val: u8) -> (color: RgbColor)
    ensures
        (color.r, color.g, color.b) == hsv_value(hue, sat, val),
{
    let c = smart_leds::hsv::hsv2rgb(smart_leds::hsv::Hsv { hue, sat, val });
    RgbColor { r: c.r, g: c.g, b: c.b }
}

/// A scaled channel fits a byte, so the scaling loses nothing to the
/// conversion.
pub proof fn lemma_scaled_fits(v: u8, level: u8)
    ensures
        scaled(v, level) as int == v as int * (level as int + 1) / 256,
        scaled(v, level) <= v,
        level == 255 ==> scaled(v, level) == v,
        level == 0 ==> scaled(v, level) == 0,
{
    let product = v as int * (level as int + 1);
    assert(0 <= product <= v as int * 256) by (nonlinear_arith)
        requires
            product == v as int * (level as int + 1),
            0 <= v,
            0 <= level <= 255,
    ;
    if level == 0 {
        assert(product == v as int) by (nonlinear_arith)
            requires
                product == v as int * (level as int + 1),
                level == 0,
        ;
    }
    if level == 255 {
        assert(product == v as int * 256);
    }
}

/// Corrects a frame for the wire: every channel of every colour is
/// gamma-corrected and then scaled to `level`.
pub fn correct(colors: &[RgbColor], level: u8) -> (out: Vec<RgbColor>)
    ensures
        out@ == corrected_frame(colors@, level),
{
    let bent = apply_gamma(colors);
    let out = apply_brightness(bent.as_slice(), level);
    assert forall|i: int| 0 <= i < colors@.len() implies out@[i] == corrected_color(
        colors@[i],
        level,
    ) by {
        let mid = bent@[i];
        lemma_scaled_fits(mid.r, level);
        lemma_scaled_fits(mid.g, level);
        lemma_scaled_fits(mid.b, level);
    }
    assert(out@ =~= corrected_frame(colors@, level));
    out
}

} // verus!
