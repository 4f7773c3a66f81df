//! Colour effects: alpha blending and brightness on 15-bit colours.

use vstd::prelude::*;

use crate::bits;

verus! {

broadcast use bits::group_and_bounds;

/// The effect that BLDCNT selects.
#[derive(Debug, Clone, Copy, PartialEq, Eq, Structural)]
pub enum BlendMode {
    Off,
    Alpha,
    BrightnessIncrease,
    BrightnessDecrease,
}

impl BlendMode {
    #[verifier::allow_in_spec]
    pub fn from_bldcnt(bldcnt: u16) -> BlendMode
        returns
            (if (bldcnt >> 6) & 3 == 0 {
                BlendMode::Off
            } else if (bldcnt >> 6) & 3 == 1 {
                BlendMode::Alpha
            } else if (bldcnt >> 6) & 3 == 2 {
                BlendMode::BrightnessIncrease
            } else {
                BlendMode::BrightnessDecrease
            }),
    {
        match (bldcnt >> 6) & 3 {
            0 => BlendMode::Off,
            1 => BlendMode::Alpha,
            2 => BlendMode::BrightnessIncrease,
            _ => BlendMode::BrightnessDecrease,
        }
    }
}

/// Whether a layer (0 to 3 the backgrounds, 4 sprites, 5 the backdrop) is a
/// first target of the effect.
#[verifier::allow_in_spec]
pub fn is_first_target(bldcnt: u16, layer: u8) -> bool
    returns
        layer <= 5 && bldcnt & (1u16 << layer) != 0,
{
    if layer > 5 {
        return false;
    }
    bldcnt & (1u16 << layer) != 0
}

/// Whether a layer is a second target of the effect.
#[verifier::allow_in_spec]
pub fn is_second_target(bldcnt: u16, layer: u8) -> bool
    returns
        layer <= 5 && bldcnt & (1u16 << ((8 + layer) as u8)) != 0,
{
    if layer > 5 {
        return false;
    }
    bldcnt & (1u16 << (8 + layer)) != 0
}

/// The smaller of two numbers.
pub open spec fn least(a: int, b: int) -> int {
    if a <= b {
        a
    } else {
        b
    }
}

fn min_u32(a: u32, b: u32) -> (m: u32)
    ensures
        m == least(a as int, b as int),
{
    if a <= b {
        a
    } else {
        b
    }
}

pub open spec fn red(color: u16) -> int {
    (color & 0x1F) as int
}

pub open spec fn green(color: u16) -> int {
    ((color >> 5) & 0x1F) as int
}

pub open spec fn blue(color: u16) -> int {
    ((color >> 10) & 0x1F) as int
}

/// A colour from its components.
pub open spec fn rgb(r: int, g: int, b: int) -> u16 {
    (r as u16) | ((g as u16) << 5) | ((b as u16) << 10)
}

/// One component of a blend: both parts weighted in sixteenths, saturating.
pub open spec fn blended(a: int, b: int, eva: u16, evb: u16) -> int {
    least((a * least(eva as int, 16) + b * least(evb as int, 16)) / 16, 31)
}

pub open spec fn brightened(a: int, evy: u16) -> int {
    a + ((31 - a) * least(evy as int, 16)) / 16
}

pub open spec fn darkened(a: int, evy: u16) -> int {
    a - (a * least(evy as int, 16)) / 16
}

fn blend_component(a: u32, b: u32, eva: u32, evb: u32) -> (c: u32)
    requires
        a <= 31,
        b <= 31,
        eva <= 16,
        evb <= 16,
    ensures
        c == least((a * eva + b * evb) / 16, 31),
{
    assert(0 <= a * eva <= 496 && 0 <= b * evb <= 496) by (nonlinear_arith)
        requires
            a <= 31,
            b <= 31,
            eva <= 16,
            evb <= 16,
    ;
    min_u32((a * eva + b * evb) / 16, 31)
}

/// Blends two colours with weights in sixteenths; weights above 16 count as
/// 16.
pub fn alpha_blend(color1: u16, color2: u16, eva: u16, evb: u16) -> (color: u16)
    ensures
        color == rgb(
            blended(red(color1), red(color2), eva, evb),
            blended(green(color1), green(color2), eva, evb),
            blended(blue(color1), blue(color2), eva, evb),
        ),
{
    let eva: u32 = min_u32(eva as u32, 16);
    let evb: u32 = min_u32(evb as u32, 16);
    let r: u32 = blend_component((color1 & 0x1F) as u32, (color2 & 0x1F) as u32, eva, evb);
    let g: u32 = blend_component(
        ((color1 >> 5) & 0x1F) as u32,
        ((color2 >> 5) & 0x1F) as u32,
        eva,
        evb,
    );
    let b: u32 = blend_component(
        ((color1 >> 10) & 0x1F) as u32,
        ((color2 >> 10) & 0x1F) as u32,
        eva,
        evb,
    );
    (r as u16) | ((g as u16) << 5) | ((b as u16) << 10)
}

fn brighten_component(a: u32, evy: u32) -> (c: u32)
    requires
        a <= 31,
        evy <= 16,
    ensures
        c == a + ((31 - a) * evy) / 16,
        c <= 31,
{
    let rest: u32 = 31 - a;
    assert(0 <= rest * evy <= rest * 16) by (nonlinear_arith)
        requires
            evy <= 16,
            rest >= 0,
    ;
    a + (rest * evy) / 16
}

/// Moves a colour toward white by `evy` sixteenths.
pub fn brightness_increase(color: u16, evy: u16) -> (out: u16)
    ensures
        out == rgb(
            brightened(red(color), evy),
            brightened(green(color), evy),
            brightened(blue(color), evy),
        ),
{
    let evy: u32 = min_u32(evy as u32, 16);
    let r: u32 = brighten_component((color & 0x1F) as u32, evy);
    let g: u32 = brighten_component(((color >> 5) & 0x1F) as u32, evy);
    let b: u32 = brighten_component(((color >> 10) & 0x1F) as u32, evy);
    (r as u16) | ((g as u16) << 5) | ((b as u16) << 10)
}

fn darken_component(a: u32, evy: u32) -> (c: u32)
    requires
        a <= 31,
        evy <= 16,
    ensures
        c == a - (a * evy) / 16,
        c <= 31,
{
    assert(0 <= a * evy <= a * 16) by (nonlinear_arith)
        requires
            evy <= 16,
            a >= 0,
    ;
    a - (a * evy) / 16
}

/// Moves a colour toward black by `evy` sixteenths.
pub fn brightness_decrease(color: u16, evy: u16) -> (out: u16)
    ensures
        out == rgb(
            darkened(red(color), evy),
            darkened(green(color), evy),
            darkened(blue(color), evy),
        ),
{
    let evy: u32 = min_u32(evy as u32, 16);
    let r: u32 = darken_component((color & 0x1F) as u32, evy);
    let g: u32 = darken_component(((color >> 5) & 0x1F) as u32, evy);
    let b: u32 = darken_component(((color >> 10) & 0x1F) as u32, evy);
    (r as u16) | ((g as u16) << 5) | ((b as u16) << 10)
}

proof fn rgb_bits(r: u16, g: u16, b: u16, c: u16)
    by (bit_vector)
    ensures
        r <= 31 && g <= 31 && b <= 31 ==> (r | (g << 5) | (b << 10)) <= 0x7FFF && (r | (g << 5) | (
        b << 10)) & 0x1F == r && ((r | (g << 5) | (b << 10)) >> 5) & 0x1F == g && ((r | (g << 5) | (
        b << 10)) >> 10) & 0x1F == b,
        31u16 | (31u16 << 5) | (31u16 << 10) == 0x7FFF,
        0u16 | (0u16 << 5) | (0u16 << 10) == 0,
        c <= 0x7FFF ==> (c & 0x1F) | (((c >> 5) & 0x1F) << 5) | (((c >> 10) & 0x1F) << 10) == c,
{
}

/// Colours and their components are the same thing: composing and splitting
/// undo each other on 15-bit colours.
pub proof fn colour_components(r: int, g: int, b: int, color: u16)
    requires
        0 <= r <= 31,
        0 <= g <= 31,
        0 <= b <= 31,
        color <= 0x7FFF,
    ensures
        rgb(r, g, b) <= 0x7FFF,
        red(rgb(r, g, b)) == r,
        green(rgb(r, g, b)) == g,
        blue(rgb(r, g, b)) == b,
        rgb(red(color), green(color), blue(color)) == color,
{
    rgb_bits(r as u16, g as u16, b as u16, color);
}

proof fn component_range(a: int, b: int, eva: u16, evb: u16)
    requires
        0 <= a <= 31,
        0 <= b <= 31,
    ensures
        0 <= blended(a, b, eva, evb) <= 31,
        0 <= brightened(a, eva) <= 31,
        0 <= darkened(a, eva) <= 31,
        eva >= 16 && evb == 0 ==> blended(a, b, eva, evb) == a,
        eva == 0 ==> brightened(a, eva) == a && darkened(a, eva) == a,
        eva >= 16 ==> brightened(a, eva) == 31 && darkened(a, eva) == 0,
{
    let x = least(eva as int, 16);
    let y = least(evb as int, 16);
    assert(0 <= a * x <= a * 16 && 0 <= b * y && 0 <= (31 - a) * x <= (31 - a) * 16)
        by (nonlinear_arith)
        requires
            0 <= a <= 31,
            0 <= b,
            0 <= x <= 16,
            0 <= y,
    ;
    assert(b * 0 == 0);
    assert(x == 16 ==> a * x == 16 * a && (31 - a) * x == 16 * (31 - a)) by (nonlinear_arith);
    assert(x == 0 ==> a * x == 0 && (31 - a) * x == 0) by (nonlinear_arith);
    assert(y == 0 ==> b * y == 0) by (nonlinear_arith);
}

/// Effects give 15-bit colours; with full weight on the first colour and none
/// on the second a blend is the first colour, with weight zero brightness
/// changes nothing, and with full weight it gives white or black.
pub proof fn effect_extremes(c1: u16, c2: u16, w: u16, v: u16)
    requires
        c1 <= 0x7FFF,
        c2 <= 0x7FFF,
    ensures
        ({
            let blend = rgb(
                blended(red(c1), red(c2), w, v),
                blended(green(c1), green(c2), w, v),
                blended(blue(c1), blue(c2), w, v),
            );
            let up = rgb(
                brightened(red(c1), w),
                brightened(green(c1), w),
                brightened(blue(c1), w),
            );
            let down = rgb(darkened(red(c1), w), darkened(green(c1), w), darkened(blue(c1), w));
            &&& blend <= 0x7FFF && up <= 0x7FFF && down <= 0x7FFF
            &&& w >= 16 && v == 0 ==> blend == c1
            &&& w == 0 ==> up == c1 && down == c1
            &&& w >= 16 ==> up == 0x7FFF && down == 0
        }),
{
    component_range(red(c1), red(c2), w, v);
    component_range(green(c1), green(c2), w, v);
    component_range(blue(c1), blue(c2), w, v);
    rgb_bits(
        blended(red(c1), red(c2), w, v) as u16,
        blended(green(c1), green(c2), w, v) as u16,
        blended(blue(c1), blue(c2), w, v) as u16,
        c1,
    );
    rgb_bits(
        brightened(red(c1), w) as u16,
        brightened(green(c1), w) as u16,
        brightened(blue(c1), w) as u16,
        0x7FFF,
    );
    rgb_bits(
        darkened(red(c1), w) as u16,
        darkened(green(c1), w) as u16,
        darkened(blue(c1), w) as u16,
        0,
    );
    white_and_black();
}

proof fn white_and_black()
    ensures
        31u16 | (31u16 << 5) | (31u16 << 10) == 0x7FFF,
        0u16 | (0u16 << 5) | (0u16 << 10) == 0,
{
    rgb_bits(0, 0, 0, 0);
}

} // verus!
