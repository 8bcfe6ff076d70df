use vstd::prelude::*;

verus! {

/// A blend weight of one whole: weights are counted in thousandths.
pub const WEIGHT_ONE: u32 = 1000;

/// An opaque 8-bit-per-channel colour.
#[derive(Clone, Copy, Debug, PartialEq, Eq, Structural)]
pub struct Rgb {
    pub r: u8,
    pub g: u8,
    pub b: u8,
}

impl Rgb {
    pub fn new(r: u8, g: u8, b: u8) -> (c: Rgb)
        ensures
            c == (Rgb { r, g, b }),
    {
        Rgb { r, g, b }
    }
}

pub open spec fn black_spec() -> Rgb {
    Rgb { r: 0, g: 0, b: 0 }
}

/// The colour of a point in shadow.
pub fn black() -> (c: Rgb)
    ensures
        c == black_spec(),
{
    Rgb { r: 0, g: 0, b: 0 }
}

/// One channel of `mix`: `a * w + b * (1 - w)` with `w` in thousandths,
/// truncated toward zero.
pub open spec fn mix_channel_spec(a: int, b: int, w: int) -> int {
    (a * w + b * (WEIGHT_ONE - w)) / (WEIGHT_ONE as int)
}

pub open spec fn mix_spec(c1: Rgb, c2: Rgb, w: u32) -> Rgb {
    Rgb {
        r: mix_channel_spec(c1.r as int, c2.r as int, w as int) as u8,
        g: mix_channel_spec(c1.g as int, c2.g as int, w as int) as u8,
        b: mix_channel_spec(c1.b as int, c2.b as int, w as int) as u8,
    }
}

proof fn lemma_mix_channel_bounds(a: int, b: int, w: int)
    requires
        0 <= a <= 255,
        0 <= b <= 255,
        0 <= w <= WEIGHT_ONE,
    ensures
        0 <= a * w + b * (WEIGHT_ONE - w) <= 255 * WEIGHT_ONE,
        0 <= mix_channel_spec(a, b, w) <= 255,
{
    assert(0 <= a * w <= 255 * w) by (nonlinear_arith)
        requires
            0 <= a <= 255,
            0 <= w,
    ;
    assert(0 <= b * (WEIGHT_ONE - w) <= 255 * (WEIGHT_ONE - w)) by (nonlinear_arith)
        requires
            0 <= b <= 255,
            0 <= WEIGHT_ONE - w,
    ;
}

fn mix_channel(a: u8, b: u8, w: u32) -> (r: u8)
    requires
        w <= WEIGHT_ONE,
    ensures
        r as int == mix_channel_spec(a as int, b as int, w as int),
{
    proof {
        lemma_mix_channel_bounds(a as int, b as int, w as int);
    }
    let sum: u32 = (a as u32) * w + (b as u32) * (WEIGHT_ONE - w);
    (sum / WEIGHT_ONE) as u8
}

/// Blends `color1` over `color2`: each channel is
/// `color1 * weight + color2 * (1 - weight)`, with `weight` in thousandths,
/// truncated to a whole channel value.
pub fn mix(color1: Rgb, color2: Rgb, weight: u32) -> (c: Rgb)
    requires
        weight <= WEIGHT_ONE,
    ensures
        c == mix_spec(color1, color2, weight),
{
    Rgb {
        r: mix_channel(color1.r, color2.r, weight),
        g: mix_channel(color1.g, color2.g, weight),
        b: mix_channel(color1.b, color2.b, weight),
    }
}

/// A full weight gives the first colour back, a zero weight the second, and
/// every channel of a blend lies between zero and 255 without wrapping.
pub proof fn lemma_mix_endpoints(c1: Rgb, c2: Rgb, w: u32)
    requires
        w <= WEIGHT_ONE,
    ensures
        mix_spec(c1, c2, WEIGHT_ONE) == c1,
        mix_spec(c1, c2, 0) == c2,
        0 <= mix_channel_spec(c1.r as int, c2.r as int, w as int) <= 255,
        0 <= mix_channel_spec(c1.g as int, c2.g as int, w as int) <= 255,
        0 <= mix_channel_spec(c1.b as int, c2.b as int, w as int) <= 255,
{
    lemma_mix_channel_bounds(c1.r as int, c2.r as int, w as int);
    lemma_mix_channel_bounds(c1.g as int, c2.g as int, w as int);
    lemma_mix_channel_bounds(c1.b as int, c2.b as int, w as int);
    assert(mix_channel_spec(c1.r as int, c2.r as int, 1000) == c1.r as int);
    assert(mix_channel_spec(c1.g as int, c2.g as int, 1000) == c1.g as int);
    assert(mix_channel_spec(c1.b as int, c2.b as int, 1000) == c1.b as int);
    assert(mix_channel_spec(c1.r as int, c2.r as int, 0) == c2.r as int);
    assert(mix_channel_spec(c1.g as int, c2.g as int, 0) == c2.g as int);
    assert(mix_channel_spec(c1.b as int, c2.b as int, 0) == c2.b as int);
}

} // verus!
