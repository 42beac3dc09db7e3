//! Integer HSV to RGB conversion.
use vstd::prelude::*;

verus! {

/// Width of one of the six hue regions of the colour wheel.
pub const REGION_WIDTH: u16 = 60;

/// Position of `hue` inside its region, rescaled from `0..60` to `0..=255`.
pub open spec fn hue_remainder(hue: int) -> int {
    (hue % 60) * 255 / 60
}

/// The colour model: the conventional hexagonal HSV mapping computed with
/// floor division at every step. A region index above 5 (a hue of 360 or
/// more) falls into the last region.
pub open spec fn hsv_model(hue: int, sat: int, val: int) -> (int, int, int) {
    if sat == 0 {
        (val, val, val)
    } else {
        let region = hue / 60;
        let rem = hue_remainder(hue);
        let p = val * (255 - sat) / 255;
        let q = val * (255 - (sat * rem) / 255) / 255;
        let t = val * (255 - (sat * (255 - rem)) / 255) / 255;
        if region == 0 {
            (val, t, p)
        } else if region == 1 {
            (q, val, p)
        } else if region == 2 {
            (p, val, t)
        } else if region == 3 {
            (p, q, val)
        } else if region == 4 {
            (t, p, val)
        } else {
            (val, p, q)
        }
    }
}

/// The model's result as a triple of channel levels.
pub open spec fn rgb_of(hue: int, sat: int, val: int) -> (u8, u8, u8) {
    let m = hsv_model(hue, sat, val);
    (m.0 as u8, m.1 as u8, m.2 as u8)
}

proof fn lemma_scaled_fits(a: int, b: int)
    requires
        0 <= a <= 255,
        0 <= b <= 255,
    ensures
        0 <= a * b / 255 <= 255,
        0 <= a * b <= 65025,
{
    assert(0 <= a * b <= 255 * 255) by (nonlinear_arith)
        requires
            0 <= a <= 255,
            0 <= b <= 255,
    ;
}

/// The model's intermediate values all lie in `0..=255`, so its channels
/// fit in a byte.
pub proof fn lemma_model_in_range(hue: int, sat: int, val: int)
    requires
        0 <= hue,
        0 <= sat <= 255,
        0 <= val <= 255,
    ensures
        0 <= hsv_model(hue, sat, val).0 <= 255,
        0 <= hsv_model(hue, sat, val).1 <= 255,
        0 <= hsv_model(hue, sat, val).2 <= 255,
        rgb_of(hue, sat, val).0 as int == hsv_model(hue, sat, val).0,
        rgb_of(hue, sat, val).1 as int == hsv_model(hue, sat, val).1,
        rgb_of(hue, sat, val).2 as int == hsv_model(hue, sat, val).2,
{
    let rem = hue_remainder(hue);
    assert(0 <= rem <= 255);
    lemma_scaled_fits(val, 255 - sat);
    lemma_scaled_fits(sat, rem);
    lemma_scaled_fits(sat, 255 - rem);
    lemma_scaled_fits(val, 255 - (sat * rem) / 255);
    lemma_scaled_fits(val, 255 - (sat * (255 - rem)) / 255);
}

/// Converts a hue in degrees, a saturation and a value into red, green and
/// blue levels. Total over every input: a hue of 360 or more lands in the
/// last region.
pub fn hsv_to_rgb(hue: u16, sat: u8, val: u8) -> (r: (u8, u8, u8))
    ensures
        r == rgb_of(hue as int, sat as int, val as int),
        r.0 as int == hsv_model(hue as int, sat as int, val as int).0,
        r.1 as int == hsv_model(hue as int, sat as int, val as int).1,
        r.2 as int == hsv_model(hue as int, sat as int, val as int).2,
        sat == 0 ==> r == (val, val, val),
{
    proof {
        lemma_model_in_range(hue as int, sat as int, val as int);
    }
    if sat == 0 {
        return (val, val, val);
    }
    let region: u16 = hue / REGION_WIDTH;
    let remainder: u16 = (hue % REGION_WIDTH) * 255 / REGION_WIDTH;
    let s: u16 = sat as u16;
    let v: u16 = val as u16;
    proof {
        lemma_scaled_fits(v as int, 255 - s as int);
        lemma_scaled_fits(s as int, remainder as int);
        lemma_scaled_fits(s as int, 255 - remainder as int);
        lemma_scaled_fits(v as int, 255 - (s * remainder) as int / 255);
        lemma_scaled_fits(v as int, 255 - (s * (255 - remainder)) as int / 255);
    }
    let p = (v * (255 - s) / 255) as u8;
    let q = (v * (255 - s * remainder / 255) / 255) as u8;
    let t = (v * (255 - s * (255 - remainder) / 255) / 255) as u8;
    match region {
        0 => (val, t, p),
        1 => (q, val, p),
        2 => (p, val, t),
        3 => (p, q, val),
        4 => (t, p, val),
        _ => (val, p, q),
    }
}

/// At full saturation and value the model needs no rounding beyond the
/// remainder: the falling channel is `255 - rem`, the rising one `rem`, and
/// the remaining one 0.
pub proof fn lemma_full_model(hue: int)
    requires
        0 <= hue,
    ensures
        ({
            let rem = hue_remainder(hue);
            let region = hue / 60;
            let c = hsv_model(hue, 255, 255);
            &&& 0 <= rem <= 250
            &&& rem == 0 <==> hue % 60 == 0
            &&& region == 0 ==> c == (255int, rem, 0int)
            &&& region == 1 ==> c == (255 - rem, 255int, 0int)
            &&& region == 2 ==> c == (0int, 255int, rem)
            &&& region == 3 ==> c == (0int, 255 - rem, 255int)
            &&& region == 4 ==> c == (rem, 0int, 255int)
            &&& region >= 5 ==> c == (255int, 0int, 255 - rem)
        }),
{
    let rem = hue_remainder(hue);
    assert(0 <= rem <= 250);
    vstd::arithmetic::div_mod::lemma_div_multiples_vanish(rem, 255);
    vstd::arithmetic::div_mod::lemma_div_multiples_vanish(255 - rem, 255);
    vstd::arithmetic::div_mod::lemma_div_multiples_vanish(0, 255);
    assert(255 * (255 - 255) / 255 == 0);
}

/// At full saturation and value exactly one channel is at 255 and the other
/// two lie below it, for every hue of the wheel except 60, 180 and 300: there
/// the falling channel has not yet left 255 when the next region starts.
pub proof fn lemma_full_color_has_one_full_channel(hue: int)
    requires
        0 <= hue < 360,
        hue != 60,
        hue != 180,
        hue != 300,
    ensures
        ({
            let c = rgb_of(hue, 255, 255);
            ||| (c.0 == 255 && c.1 < 255 && c.2 < 255)
            ||| (c.1 == 255 && c.0 < 255 && c.2 < 255)
            ||| (c.2 == 255 && c.0 < 255 && c.1 < 255)
        }),
{
    lemma_full_model(hue);
    lemma_model_in_range(hue, 255, 255);
}

/// At full saturation and value, stepping the hue by one (wrapping at 360)
/// moves each channel by at most 5, the rounding step of 255/60 rounded up:
/// there is no jump at the region boundaries nor where the wheel wraps.
pub proof fn lemma_adjacent_hues_close(hue: int)
    requires
        0 <= hue < 360,
    ensures
        ({
            let a = rgb_of(hue, 255, 255);
            let b = rgb_of((hue + 1) % 360, 255, 255);
            &&& -5 <= a.0 - b.0 <= 5
            &&& -5 <= a.1 - b.1 <= 5
            &&& -5 <= a.2 - b.2 <= 5
        }),
{
    let next = (hue + 1) % 360;
    lemma_full_model(hue);
    lemma_full_model(next);
    lemma_model_in_range(hue, 255, 255);
    lemma_model_in_range(next, 255, 255);
    if hue % 60 == 59 {
        assert(hue_remainder(hue) == 250);
        assert(hue_remainder(next) == 0);
    } else {
        assert(next / 60 == hue / 60);
        assert(0 <= hue_remainder(next) - hue_remainder(hue) <= 5);
    }
}

} // verus!
