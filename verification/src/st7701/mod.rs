//! The ST7701 display controller of the Presto board: its command set, the
//! framing of commands on its SPI bus, its start-up script, and the clock
//! settings of the parallel pixel interface and of the backlight.

use vstd::prelude::*;

use fixed::traits::ToFixed;

pub mod commands;
pub mod frames;
pub mod init;

verus! {

/// Horizontal resolution the parallel interface drives.
#[derive(Debug, Clone, Copy, PartialEq, Eq, Structural)]
pub enum Width {
    W240,
    W480,
}

/// The number of pixels per line of a width.
pub open spec fn spec_width_pixels(width: Width) -> u16 {
    match width {
        Width::W240 => 240,
        Width::W480 => 480,
    }
}

impl Width {
    /// The number of pixels per line.
    pub fn number(&self) -> (n: u16)
        ensures
            n == spec_width_pixels(*self),
    {
        match self {
            Width::W240 => 240,
            Width::W480 => 480,
        }
    }
}

/// The fastest clock, in Hz, at which the parallel interface state machine runs.
pub const MAX_PIO_CLOCK_HZ: u32 = 34_000_000;

/// The integer clock divider of the parallel interface: the least divider that
/// keeps the state machine at or under [`MAX_PIO_CLOCK_HZ`], halved at full
/// width so that the 480-pixel line is clocked twice as fast.
pub open spec fn spec_pio_clock_divider(sys_clock_hz: u32, width: Width) -> int {
    let divider = (sys_clock_hz + MAX_PIO_CLOCK_HZ - 1) / (MAX_PIO_CLOCK_HZ as int);
    if width == Width::W480 {
        divider / 2
    } else {
        divider
    }
}

/// At full width the divider is half the one at 240 pixels, rounded down, so
/// the 480-pixel line is clocked at least twice as fast.
pub proof fn lemma_full_width_halves_divider(sys_clock_hz: u32)
    ensures
        2 * spec_pio_clock_divider(sys_clock_hz, Width::W480) <= spec_pio_clock_divider(
            sys_clock_hz,
            Width::W240,
        ) <= 2 * spec_pio_clock_divider(sys_clock_hz, Width::W480) + 1,
{
}

/// Pixels per line of each width, and the loop count the parallel program
/// starts each line with.
pub proof fn lemma_width_table()
    ensures
        spec_width_pixels(Width::W240) == 240,
        spec_width_pixels(Width::W480) == 480,
        spec_width_pixels(Width::W240) / 2 - 1 == 119,
        spec_width_pixels(Width::W480) / 2 - 1 == 239,
{
}

/// The raw bits of `value` as an unsigned fixed-point number with 8
/// fractional bits, from `fixed`'s `ToFixed::to_fixed` into `U24F8`.
///
/// An integer that fits in the 24 integer bits converts exactly, so its bits
/// are the integer shifted left by 8; a larger one panics when debug
/// assertions are on, so it is not admitted.
#[verifier::external_body]
fn u24f8_bits(value: u32) -> (bits: u32)
    requires
        value < 0x100_0000,
    ensures
        bits == value * 256,
{
    value.to_fixed::<fixed::types::U24F8>().to_bits()
}

/// The raw bits of `value` as an unsigned 16-bit fixed-point number with 4
/// fractional bits, from `fixed`'s lossless `From<u8>` for `FixedU16<U4>`:
/// the byte shifted left by 4.
#[verifier::external_body]
fn u12f4_bits(value: u8) -> (bits: u16)
    ensures
        bits == value * 16,
{
    fixed::FixedU16::<fixed::types::extra::U4>::from(value).to_bits()
}

/// The clock divider of the parallel interface state machine for a system
/// clock of `sys_clock_hz`, as the bits of the `U24F8` value the state
/// machine is configured with.
pub fn parallel_clock_divider(sys_clock_hz: u32, width: Width) -> (bits: u32)
    requires
        sys_clock_hz as int + MAX_PIO_CLOCK_HZ <= u32::MAX,
    ensures
        bits == spec_pio_clock_divider(sys_clock_hz, width) * 256,
        width == Width::W240 ==> spec_pio_clock_divider(sys_clock_hz, width) * MAX_PIO_CLOCK_HZ
            >= sys_clock_hz,
        width == Width::W240 ==> (spec_pio_clock_divider(sys_clock_hz, width) - 1)
            * MAX_PIO_CLOCK_HZ < sys_clock_hz,
{
    let max_pio_clk: u32 = MAX_PIO_CLOCK_HZ;
    let clock_divider = (sys_clock_hz + max_pio_clk - 1) / max_pio_clk;
    proof {
        let s = sys_clock_hz as int;
        let m = max_pio_clk as int;
        let d = clock_divider as int;
        assert(d == (s + m - 1) / m);
        vstd::arithmetic::div_mod::lemma_fundamental_div_mod(s + m - 1, m);
        assert(d * m >= s && (d - 1) * m < s) by (nonlinear_arith)
            requires
                m > 0,
                s + m - 1 == m * d + (s + m - 1) % m,
                0 <= (s + m - 1) % m < m,
        ;
        assert(d <= 127);
    }
    if width == Width::W480 {
        let half = clock_divider >> 1;
        assert(half == clock_divider / 2) by (bit_vector)
            requires
                half == clock_divider >> 1,
        ;
        u24f8_bits(half)
    } else {
        u24f8_bits(clock_divider)
    }
}

/// The value the parallel program's Y register starts each line with: the
/// number of pixel pairs per line, less one.
pub fn line_loop_count(width: Width) -> (count: u32)
    ensures
        count == spec_width_pixels(width) / 2 - 1,
{
    let pixels = width.number() as u32;
    let pairs = pixels >> 1;
    assert(pairs == pixels / 2) by (bit_vector)
        requires
            pairs == pixels >> 1,
    ;
    pairs - 1
}

/// The counter wrap value of the backlight PWM.
pub const BACKLIGHT_PWM_TOP: u16 = 6_200;

/// The integer clock divider of the backlight PWM.
pub const BACKLIGHT_PWM_DIVIDER: u8 = 16;

/// Counter settings of the backlight PWM slice.
#[derive(Debug, Clone, Copy, PartialEq, Eq, Structural)]
pub struct BacklightPwm {
    /// Counter wrap value.
    pub top: u16,
    /// Clock divider, as the bits of its `FixedU16<U4>` value.
    pub divider_bits: u16,
}

/// The backlight PWM settings: wrap at [`BACKLIGHT_PWM_TOP`], divide the
/// clock by [`BACKLIGHT_PWM_DIVIDER`].
pub fn backlight_pwm_config() -> (c: BacklightPwm)
    ensures
        c.top == BACKLIGHT_PWM_TOP,
        c.divider_bits == BACKLIGHT_PWM_DIVIDER * 16,
{
    BacklightPwm { top: BACKLIGHT_PWM_TOP, divider_bits: u12f4_bits(BACKLIGHT_PWM_DIVIDER) }
}

} // verus!
