//! The buzzer's notes and the PWM period that sounds each of them.

use vstd::prelude::*;

verus! {

/// A note the buzzer can play, or a rest.
#[derive(Debug, Clone, Copy, PartialEq, Eq, Structural)]
pub enum Notes {
    C4,
    D4,
    E4,
    F4,
    G4,
    A4,
    B4,
    Space,
}

/// The pitch of a note in hundredths of a hertz; a rest has none.
pub open spec fn note_centihertz(note: Notes) -> u32 {
    match note {
        Notes::C4 => 26_163,
        Notes::D4 => 29_366,
        Notes::E4 => 32_963,
        Notes::F4 => 34_923,
        Notes::G4 => 39_200,
        Notes::A4 => 44_000,
        Notes::B4 => 49_388,
        Notes::Space => 0,
    }
}

/// The rate, in Hz, at which the buzzer's PWM counter ticks.
pub const PWM_TICK_HZ: u32 = 12_000_000;

/// The counter wrap value whose period is one cycle of a pitch given in
/// hundredths of a hertz: the ticks per cycle, rounded down.
pub open spec fn spec_period_ticks(centihertz: u32) -> int {
    (PWM_TICK_HZ as int * 100) / (centihertz as int)
}

/// The counter wrap value that sounds a note; a rest gives 0.
pub open spec fn spec_note_top(note: Notes) -> int {
    if note == Notes::Space {
        0
    } else {
        spec_period_ticks(note_centihertz(note))
    }
}

/// The wrap value of each note: 12 MHz divided by its pitch, rounded down.
pub proof fn lemma_note_top_table()
    ensures
        spec_note_top(Notes::C4) == 45_866,
        spec_note_top(Notes::D4) == 40_863,
        spec_note_top(Notes::E4) == 36_404,
        spec_note_top(Notes::F4) == 34_361,
        spec_note_top(Notes::G4) == 30_612,
        spec_note_top(Notes::A4) == 27_272,
        spec_note_top(Notes::B4) == 24_297,
        spec_note_top(Notes::Space) == 0,
{
    assert(1_200_000_000int / 26_163 == 45_866) by (nonlinear_arith);
    assert(1_200_000_000int / 29_366 == 40_863) by (nonlinear_arith);
    assert(1_200_000_000int / 32_963 == 36_404) by (nonlinear_arith);
    assert(1_200_000_000int / 34_923 == 34_361) by (nonlinear_arith);
    assert(1_200_000_000int / 39_200 == 30_612) by (nonlinear_arith);
    assert(1_200_000_000int / 44_000 == 27_272) by (nonlinear_arith);
    assert(1_200_000_000int / 49_388 == 24_297) by (nonlinear_arith);
}

/// One period of a note's wrap value lasts one cycle of its pitch: the wrap
/// value is the largest tick count that fits in one cycle.
pub proof fn lemma_note_top_is_one_cycle(note: Notes)
    requires
        note != Notes::Space,
    ensures
        spec_note_top(note) * note_centihertz(note) <= 1_200_000_000,
        1_200_000_000 < (spec_note_top(note) + 1) * note_centihertz(note),
{
    let c = note_centihertz(note) as int;
    let t = spec_note_top(note);
    assert(c > 0);
    assert(t == 1_200_000_000int / c);
    assert(t * c <= 1_200_000_000 && 1_200_000_000 < (t + 1) * c) by (nonlinear_arith)
        requires
            c > 0,
            t == 1_200_000_000int / c,
    ;
}

/// A higher note gets a strictly shorter PWM period, and every note that is
/// not a rest gets a non-zero one.
pub proof fn lemma_higher_pitch_shorter_period(low: Notes, high: Notes)
    requires
        low != Notes::Space,
        high != Notes::Space,
        note_centihertz(low) < note_centihertz(high),
    ensures
        spec_note_top(high) < spec_note_top(low),
        0 < spec_note_top(high),
{
    let x = note_centihertz(low) as int;
    let y = note_centihertz(high) as int;
    assert(26_163 <= x && y <= 49_388 && x + 1_960 <= y);
    assert(1_200_000_000int / y < 1_200_000_000int / x && 0 < 1_200_000_000int / y)
        by (nonlinear_arith)
        requires
            26_163 <= x,
            x + 1_960 <= y,
            y <= 49_388,
    ;
}

/// The PWM wrap value for a pitch of `centihertz` hundredths of a hertz.
fn calc_note(centihertz: u32) -> (top: u16)
    requires
        centihertz >= 18_312,
    ensures
        top == spec_period_ticks(centihertz),
{
    let ticks: u32 = 1_200_000_000 / centihertz;
    assert(ticks <= 65_535) by (nonlinear_arith)
        requires
            ticks == 1_200_000_000int / (centihertz as int),
            centihertz >= 18_312,
    ;
    ticks as u16
}

impl Notes {
    /// The pitch of the note in hundredths of a hertz; 0 for a rest.
    pub fn centihertz(&self) -> (c: u32)
        ensures
            c == note_centihertz(*self),
    {
        match self {
            Notes::C4 => 26_163,
            Notes::D4 => 29_366,
            Notes::E4 => 32_963,
            Notes::F4 => 34_923,
            Notes::G4 => 39_200,
            Notes::A4 => 44_000,
            Notes::B4 => 49_388,
            Notes::Space => 0,
        }
    }

    /// The PWM counter wrap value that sounds the note; 0 for a rest.
    pub fn note(&self) -> (top: u16)
        ensures
            top == spec_note_top(*self),
    {
        match self {
            Notes::Space => 0,
            _ => calc_note(self.centihertz()),
        }
    }
}

} // verus!
