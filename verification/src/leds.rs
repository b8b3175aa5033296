//! The colours of the Presto's front LEDs and their brightness scaling.

use vstd::prelude::*;

verus! {

/// The number of LEDs on the board.
pub const NUM_LEDS: usize = 7;

/// An 8-bit-per-channel RGB colour.
#[derive(Debug, Clone, Copy, PartialEq, Eq, Structural)]
pub struct Rgb8 {
    pub r: u8,
    pub g: u8,
    pub b: u8,
}

impl Default for Rgb8 {
    /// Black: every channel at 0.
    fn default() -> (c: Rgb8)
        ensures
            c == (Rgb8 { r: 0, g: 0, b: 0 }),
    {
        Rgb8 { r: 0, g: 0, b: 0 }
    }
}

/// A channel value scaled by a brightness level: `brightness + 1` 256ths of it,
/// rounded down.
pub open spec fn scale_channel(value: u8, brightness: u8) -> u8 {
    ((value as int * (brightness as int + 1)) / 256) as u8
}

/// A colour with each channel scaled by a brightness level.
pub open spec fn spec_dim(color: Rgb8, brightness: u8) -> Rgb8 {
    Rgb8 {
        r: scale_channel(color.r, brightness),
        g: scale_channel(color.g, brightness),
        b: scale_channel(color.b, brightness),
    }
}

/// Full brightness keeps a colour, zero brightness turns it black, and no
/// level makes any channel brighter than it was.
pub proof fn lemma_brightness_bounds(color: Rgb8, brightness: u8)
    ensures
        spec_dim(color, 255) == color,
        spec_dim(color, 0) == (Rgb8 { r: 0, g: 0, b: 0 }),
        spec_dim(color, brightness).r <= color.r,
        spec_dim(color, brightness).g <= color.g,
        spec_dim(color, brightness).b <= color.b,
{
    assert forall|v: u8, b: u8| #[trigger] scale_channel(v, b) <= v by {
        assert((v as int * (b as int + 1)) / 256 <= v) by (nonlinear_arith)
            requires
                0 <= v <= 255,
                0 <= b <= 255,
        ;
    }
    assert forall|v: u8| #[trigger] scale_channel(v, 255) == v by {
        assert((v as int * 256) / 256 == v) by (nonlinear_arith);
    }
    assert forall|v: u8| #[trigger] scale_channel(v, 0) == 0 by {
        assert((v as int * 1) / 256 == 0) by (nonlinear_arith)
            requires
                0 <= v <= 255,
        ;
    }
}

/// A higher brightness level never gives a darker channel.
pub proof fn lemma_brightness_monotonic(value: u8, lower: u8, higher: u8)
    requires
        lower <= higher,
    ensures
        scale_channel(value, lower) <= scale_channel(value, higher),
{
    let lo = (value as int * (lower as int + 1)) / 256;
    let hi = (value as int * (higher as int + 1)) / 256;
    assert(0 <= lo <= hi <= 255) by (nonlinear_arith)
        requires
            lo == (value as int * (lower as int + 1)) / 256,
            hi == (value as int * (higher as int + 1)) / 256,
            0 <= value <= 255,
            0 <= lower <= higher <= 255,
    ;
}

/// A scaled channel is the largest value whose 256-fold stays within the
/// channel times `brightness + 1`.
pub proof fn lemma_scale_rounds_down(value: u8, brightness: u8)
    ensures
        scale_channel(value, brightness) * 256 <= value * (brightness + 1),
        value * (brightness + 1) < (scale_channel(value, brightness) + 1) * 256,
{
    let p = value as int * (brightness as int + 1);
    let q = p / 256;
    assert(0 <= q <= 255 && q * 256 <= p && p < (q + 1) * 256) by (nonlinear_arith)
        requires
            p == value as int * (brightness as int + 1),
            q == p / 256,
            0 <= value <= 255,
            0 <= brightness <= 255,
    ;
}

/// One channel scaled by a brightness level.
fn scale(value: u8, brightness: u8) -> (s: u8)
    ensures
        s == scale_channel(value, brightness),
{
    let v = value as u16;
    let factor = brightness as u16 + 1;
    assert(v * factor <= 65_280) by (nonlinear_arith)
        requires
            v <= 255,
            1 <= factor <= 256,
    ;
    let product = v * factor;
    assert(product / 256 < 256) by (nonlinear_arith)
        requires
            product == value as int * (brightness as int + 1),
            value <= 255,
            brightness <= 255,
    ;
    (product / 256) as u8
}

/// The colour that each LED shows.
pub struct Leds {
    pub lights: [Rgb8; NUM_LEDS],
}

impl Leds {
    /// All LEDs off.
    pub fn new() -> (l: Leds)
        ensures
            forall|i: int| 0 <= i < NUM_LEDS ==> l.lights@[i] == (Rgb8 { r: 0, g: 0, b: 0 }),
    {
        Leds { lights: [Rgb8 { r: 0, g: 0, b: 0 }; NUM_LEDS] }
    }

    /// Sets LED `index` to `color`.
    pub fn set_light(&mut self, index: usize, color: Rgb8)
        requires
            index < NUM_LEDS,
        ensures
            final(self).lights@ == old(self).lights@.update(index as int, color),
    {
        self.lights[index] = color;
    }

    /// Scales the colour LED `index` shows by `brightness`.
    pub fn set_light_brightness(&mut self, index: usize, brightness: u8)
        requires
            index < NUM_LEDS,
        ensures
            final(self).lights@ == old(self).lights@.update(
                index as int,
                spec_dim(old(self).lights@[index as int], brightness),
            ),
    {
        let color = self.get_color_brightness(self.lights[index], brightness);
        self.set_light(index, color);
    }

    /// Sets LED `index` to `color` scaled by `brightness`.
    pub fn set_light_with_brightness(&mut self, index: usize, color: Rgb8, brightness: u8)
        requires
            index < NUM_LEDS,
        ensures
            final(self).lights@ == old(self).lights@.update(
                index as int,
                spec_dim(color, brightness),
            ),
    {
        let dimmed = self.get_color_brightness(color, brightness);
        self.set_light(index, dimmed);
    }

    /// Turns LED `index` off.
    pub fn off(&mut self, index: usize)
        requires
            index < NUM_LEDS,
        ensures
            final(self).lights@ == old(self).lights@.update(
                index as int,
                Rgb8 { r: 0, g: 0, b: 0 },
            ),
    {
        self.set_light(index, Rgb8::default());
    }

    /// `color` with each channel scaled by `brightness`: level 255 keeps it,
    /// level 0 leaves only what rounds down to black.
    pub fn get_color_brightness(&self, color: Rgb8, brightness: u8) -> (c: Rgb8)
        ensures
            c == spec_dim(color, brightness),
    {
        Rgb8 {
            r: scale(color.r, brightness),
            g: scale(color.g, brightness),
            b: scale(color.b, brightness),
        }
    }
}

} // verus!
