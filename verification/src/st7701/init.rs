use vstd::prelude::*;

use super::commands::LcdCommand;
use super::frames::MAX_DATA_FRAMES;

verus! {

/// One step of the display start-up script.
pub enum InitStep {
    /// Send a command, then its parameter bytes if it has any.
    Command { command: LcdCommand, data: Option<Vec<u8>> },
    /// Wait this many milliseconds.
    Delay { millis: u64 },
    /// Set the backlight to this percentage of full brightness.
    Backlight { percent: u8 },
}

/// What an [`InitStep`] asks for, with parameter bytes as a sequence.
pub enum InitAction {
    Command(LcdCommand, Option<Seq<u8>>),
    Delay(u64),
    Backlight(u8),
}

impl View for InitStep {
    type V = InitAction;

    open spec fn view(&self) -> InitAction {
        match self {
            InitStep::Command { command, data } => InitAction::Command(
                *command,
                match data {
                    Some(d) => Some(d@),
                    None => None,
                },
            ),
            InitStep::Delay { millis } => InitAction::Delay(*millis),
            InitStep::Backlight { percent } => InitAction::Backlight(*percent),
        }
    }
}

/// A parameter list of one byte.
fn single(byte: u8) -> (v: Vec<u8>)
    ensures
        v@ == seq![byte],
{
    let mut v = Vec::new();
    v.push(byte);
    v
}

/// Software reset, then the bank 0 display settings.
pub open spec fn reset_script() -> Seq<InitAction> {
    seq![
        InitAction::Command(LcdCommand::SWRESET, None),
        InitAction::Delay(150),
        InitAction::Command(LcdCommand::CND2BKxSEL, Some(seq![0x77u8, 0x01, 0x00, 0x00, 0x10])),
        InitAction::Command(LcdCommand::MADCTL, Some(seq![0x00u8])),
        InitAction::Command(LcdCommand::LNESET, Some(seq![0x3Bu8, 0x00])),
        InitAction::Command(LcdCommand::PORCTRL, Some(seq![0x0Du8, 0x05])),
        InitAction::Command(LcdCommand::INVSET, Some(seq![0x32u8, 0x05])),
        InitAction::Command(LcdCommand::COLCTRL, Some(seq![0x08u8])),
        InitAction::Command(LcdCommand::PVGAMCTRL, Some(seq![0x00u8, 0x11, 0x18, 0x0E, 0x11, 0x06, 0x07, 0x08, 0x07, 0x22, 0x04, 0x12, 0x0F, 0xAA, 0x31, 0x18])),
        InitAction::Command(LcdCommand::NVGAMCTRL, Some(seq![0x00u8, 0x11, 0x19, 0x0E, 0x12, 0x07, 0x08, 0x08, 0x08, 0x22, 0x04, 0x11, 0x11, 0xA9, 0x32, 0x18])),
    ]
}

fn reset_steps() -> (steps: Vec<InitStep>)
    ensures
        steps@.map_values(|s: InitStep| s@) == reset_script(),
{
    let mut steps: Vec<InitStep> = Vec::new();
    steps.push(InitStep::Command { command: LcdCommand::SWRESET, data: None });
    steps.push(InitStep::Delay { millis: 150 });
    steps.push(InitStep::Command { command: LcdCommand::CND2BKxSEL, data: Some(vec![0x77, 0x01, 0x00, 0x00, 0x10]) });
    steps.push(InitStep::Command { command: LcdCommand::MADCTL, data: Some(single(0x00)) });
    steps.push(InitStep::Command { command: LcdCommand::LNESET, data: Some(vec![0x3B, 0x00]) });
    steps.push(InitStep::Command { command: LcdCommand::PORCTRL, data: Some(vec![0x0D, 0x05]) });
    steps.push(InitStep::Command { command: LcdCommand::INVSET, data: Some(vec![0x32, 0x05]) });
    steps.push(InitStep::Command { command: LcdCommand::COLCTRL, data: Some(single(0x08)) });
    steps.push(InitStep::Command { command: LcdCommand::PVGAMCTRL, data: Some(vec![0x00, 0x11, 0x18, 0x0E, 0x11, 0x06, 0x07, 0x08, 0x07, 0x22, 0x04, 0x12, 0x0F, 0xAA, 0x31, 0x18]) });
    steps.push(InitStep::Command { command: LcdCommand::NVGAMCTRL, data: Some(vec![0x00, 0x11, 0x19, 0x0E, 0x12, 0x07, 0x08, 0x08, 0x08, 0x22, 0x04, 0x11, 0x11, 0xA9, 0x32, 0x18]) });
    assert(steps@.map_values(|s: InitStep| s@) =~= reset_script());
    steps
}

/// The bank 1 voltage and power settings.
pub open spec fn power_script() -> Seq<InitAction> {
    seq![
        InitAction::Command(LcdCommand::CND2BKxSEL, Some(seq![0x77u8, 0x01, 0x00, 0x00, 0x11])),
        InitAction::Command(LcdCommand::PVGAMCTRL, Some(seq![0x60u8])),
        InitAction::Command(LcdCommand::NVGAMCTRL, Some(seq![0x32u8])),
        InitAction::Command(LcdCommand::VGHSS, Some(seq![0x07u8])),
        InitAction::Command(LcdCommand::TESTCMD, Some(seq![0x80u8])),
        InitAction::Command(LcdCommand::VGLS, Some(seq![0x49u8])),
        InitAction::Command(LcdCommand::PWCTRL1, Some(seq![0x85u8])),
        InitAction::Command(LcdCommand::PWCTRL2, Some(seq![0x21u8])),
        InitAction::Command(LcdCommand::PORCTRL, Some(seq![0x78u8])),
        InitAction::Command(LcdCommand::INVSET, Some(seq![0x78u8])),
    ]
}

fn power_steps() -> (steps: Vec<InitStep>)
    ensures
        steps@.map_values(|s: InitStep| s@) == power_script(),
{
    let mut steps: Vec<InitStep> = Vec::new();
    steps.push(InitStep::Command { command: LcdCommand::CND2BKxSEL, data: Some(vec![0x77, 0x01, 0x00, 0x00, 0x11]) });
    steps.push(InitStep::Command { command: LcdCommand::PVGAMCTRL, data: Some(single(0x60)) });
    steps.push(InitStep::Command { command: LcdCommand::NVGAMCTRL, data: Some(single(0x32)) });
    steps.push(InitStep::Command { command: LcdCommand::VGHSS, data: Some(single(0x07)) });
    steps.push(InitStep::Command { command: LcdCommand::TESTCMD, data: Some(single(0x80)) });
    steps.push(InitStep::Command { command: LcdCommand::VGLS, data: Some(single(0x49)) });
    steps.push(InitStep::Command { command: LcdCommand::PWCTRL1, data: Some(single(0x85)) });
    steps.push(InitStep::Command { command: LcdCommand::PWCTRL2, data: Some(single(0x21)) });
    steps.push(InitStep::Command { command: LcdCommand::PORCTRL, data: Some(single(0x78)) });
    steps.push(InitStep::Command { command: LcdCommand::INVSET, data: Some(single(0x78)) });
    assert(steps@.map_values(|s: InitStep| s@) =~= power_script());
    steps
}

/// The panel timing tables that the controller datasheet leaves undocumented.
pub open spec fn timing_script() -> Seq<InitAction> {
    seq![
        InitAction::Command(LcdCommand::SRECTRL, Some(seq![0x00u8, 0x1B, 0x02])),
        InitAction::Command(LcdCommand::NRCTRL, Some(seq![0x08u8, 0xA0, 0x00, 0x00, 0x07, 0xA0, 0x00, 0x00, 0x00, 0x44, 0x44])),
        InitAction::Command(LcdCommand::SECTRL, Some(seq![0x11u8, 0x11, 0x44, 0x44, 0xED, 0xA0, 0x00, 0x00, 0xEC, 0xA0, 0x00, 0x00])),
        InitAction::Command(LcdCommand::SECTRL, Some(seq![0x00u8, 0x00, 0x11, 0x11])),
        InitAction::Command(LcdCommand::SKCTRL, Some(seq![0x44u8, 0x44])),
        InitAction::Command(LcdCommand::FORBIDDEN6, Some(seq![0x0Au8, 0xE9, 0xD8, 0xA0, 0x0C, 0xEB, 0xD8, 0xA0, 0x0E, 0xED, 0xD8, 0xA0, 0x10, 0xEF, 0xD8, 0xA0])),
        InitAction::Command(LcdCommand::FORBIDDEN7, Some(seq![0x00u8, 0x00, 0x11, 0x11])),
        InitAction::Command(LcdCommand::FORBIDDEN8, Some(seq![0x44u8, 0x44])),
        InitAction::Command(LcdCommand::FORBIDDEN9, Some(seq![0x09u8, 0xE8, 0xD8, 0xA0, 0x0B, 0xEA, 0xD8, 0xA0, 0x0D, 0xEC, 0xD8, 0xA0, 0x0F, 0xEE, 0xD8, 0xA0])),
        InitAction::Command(LcdCommand::FORBIDDEN10, Some(seq![0x02u8, 0x00, 0xE4, 0xE4, 0x88, 0x00, 0x40])),
        InitAction::Command(LcdCommand::FORBIDDEN11, Some(seq![0x3Cu8, 0x00])),
        InitAction::Command(LcdCommand::FORBIDDEN12, Some(seq![0xABu8, 0x89, 0x76, 0x54, 0x02, 0xFF, 0xFF, 0xFF, 0xFF, 0xFF, 0xFF, 0x20, 0x45, 0x67, 0x98, 0xBA])),
    ]
}

fn timing_steps() -> (steps: Vec<InitStep>)
    ensures
        steps@.map_values(|s: InitStep| s@) == timing_script(),
{
    let mut steps: Vec<InitStep> = Vec::new();
    steps.push(InitStep::Command { command: LcdCommand::SRECTRL, data: Some(vec![0x00, 0x1B, 0x02]) });
    steps.push(InitStep::Command { command: LcdCommand::NRCTRL, data: Some(vec![0x08, 0xA0, 0x00, 0x00, 0x07, 0xA0, 0x00, 0x00, 0x00, 0x44, 0x44]) });
    steps.push(InitStep::Command { command: LcdCommand::SECTRL, data: Some(vec![0x11, 0x11, 0x44, 0x44, 0xED, 0xA0, 0x00, 0x00, 0xEC, 0xA0, 0x00, 0x00]) });
    steps.push(InitStep::Command { command: LcdCommand::SECTRL, data: Some(vec![0x00, 0x00, 0x11, 0x11]) });
    steps.push(InitStep::Command { command: LcdCommand::SKCTRL, data: Some(vec![0x44, 0x44]) });
    steps.push(InitStep::Command { command: LcdCommand::FORBIDDEN6, data: Some(vec![0x0A, 0xE9, 0xD8, 0xA0, 0x0C, 0xEB, 0xD8, 0xA0, 0x0E, 0xED, 0xD8, 0xA0, 0x10, 0xEF, 0xD8, 0xA0]) });
    steps.push(InitStep::Command { command: LcdCommand::FORBIDDEN7, data: Some(vec![0x00, 0x00, 0x11, 0x11]) });
    steps.push(InitStep::Command { command: LcdCommand::FORBIDDEN8, data: Some(vec![0x44, 0x44]) });
    steps.push(InitStep::Command { command: LcdCommand::FORBIDDEN9, data: Some(vec![0x09, 0xE8, 0xD8, 0xA0, 0x0B, 0xEA, 0xD8, 0xA0, 0x0D, 0xEC, 0xD8, 0xA0, 0x0F, 0xEE, 0xD8, 0xA0]) });
    steps.push(InitStep::Command { command: LcdCommand::FORBIDDEN10, data: Some(vec![0x02, 0x00, 0xE4, 0xE4, 0x88, 0x00, 0x40]) });
    steps.push(InitStep::Command { command: LcdCommand::FORBIDDEN11, data: Some(vec![0x3C, 0x00]) });
    steps.push(InitStep::Command { command: LcdCommand::FORBIDDEN12, data: Some(vec![0xAB, 0x89, 0x76, 0x54, 0x02, 0xFF, 0xFF, 0xFF, 0xFF, 0xFF, 0xFF, 0x20, 0x45, 0x67, 0x98, 0xBA]) });
    assert(steps@.map_values(|s: InitStep| s@) =~= timing_script());
    steps
}

/// The bank 3 pixel format, inversion on, sleep out, display on and full backlight.
pub open spec fn start_script() -> Seq<InitAction> {
    seq![
        InitAction::Command(LcdCommand::MADCTL, Some(seq![0x00u8])),
        InitAction::Command(LcdCommand::CND2BKxSEL, Some(seq![0x77u8, 0x01, 0x00, 0x00, 0x13])),
        InitAction::Command(LcdCommand::COLMOD, Some(seq![0x66u8])),
        InitAction::Command(LcdCommand::INVON, None),
        InitAction::Delay(1),
        InitAction::Command(LcdCommand::SLPOUT, None),
        InitAction::Delay(120),
        InitAction::Command(LcdCommand::DISPON, None),
        InitAction::Delay(50),
        InitAction::Backlight(100),
    ]
}

fn start_steps() -> (steps: Vec<InitStep>)
    ensures
        steps@.map_values(|s: InitStep| s@) == start_script(),
{
    let mut steps: Vec<InitStep> = Vec::new();
    steps.push(InitStep::Command { command: LcdCommand::MADCTL, data: Some(single(0x00)) });
    steps.push(InitStep::Command { command: LcdCommand::CND2BKxSEL, data: Some(vec![0x77, 0x01, 0x00, 0x00, 0x13]) });
    steps.push(InitStep::Command { command: LcdCommand::COLMOD, data: Some(single(0x66)) });
    steps.push(InitStep::Command { command: LcdCommand::INVON, data: None });
    steps.push(InitStep::Delay { millis: 1 });
    steps.push(InitStep::Command { command: LcdCommand::SLPOUT, data: None });
    steps.push(InitStep::Delay { millis: 120 });
    steps.push(InitStep::Command { command: LcdCommand::DISPON, data: None });
    steps.push(InitStep::Delay { millis: 50 });
    steps.push(InitStep::Backlight { percent: 100 });
    assert(steps@.map_values(|s: InitStep| s@) =~= start_script());
    steps
}

/// The start-up script of the ST7701 on the TL040WVS03 panel, in order.
pub open spec fn init_script() -> Seq<InitAction> {
    reset_script() + power_script() + timing_script() + start_script()
}

/// The start-up script written out step by step, as the panel needs it:
///  0- 9: software reset and its wait, bank 0 select (0x10), scan direction,
///        480 lines, porches, inversion, colour control, gamma tables;
/// 10-19: bank 1 select (0x11), then the voltage and power settings;
/// 20-31: the panel's timing tables, sent while bank 1 is selected;
/// 32-41: scan direction, bank 3 select (0x13), 18-bit pixels (0x66),
///        inversion on, sleep out, display on with their waits, and the
///        backlight at full brightness.
pub open spec fn init_listing() -> Seq<InitAction> {
    seq![
        /*  0 */ InitAction::Command(LcdCommand::SWRESET, None),
        /*  1 */ InitAction::Delay(150),
        /*  2 */ InitAction::Command(LcdCommand::CND2BKxSEL, Some(seq![0x77u8, 0x01, 0x00, 0x00, 0x10])),
        /*  3 */ InitAction::Command(LcdCommand::MADCTL, Some(seq![0x00u8])),
        /*  4 */ InitAction::Command(LcdCommand::LNESET, Some(seq![0x3Bu8, 0x00])),
        /*  5 */ InitAction::Command(LcdCommand::PORCTRL, Some(seq![0x0Du8, 0x05])),
        /*  6 */ InitAction::Command(LcdCommand::INVSET, Some(seq![0x32u8, 0x05])),
        /*  7 */ InitAction::Command(LcdCommand::COLCTRL, Some(seq![0x08u8])),
        /*  8 */ InitAction::Command(LcdCommand::PVGAMCTRL, Some(seq![0x00u8, 0x11, 0x18, 0x0E, 0x11, 0x06, 0x07, 0x08, 0x07, 0x22, 0x04, 0x12, 0x0F, 0xAA, 0x31, 0x18])),
        /*  9 */ InitAction::Command(LcdCommand::NVGAMCTRL, Some(seq![0x00u8, 0x11, 0x19, 0x0E, 0x12, 0x07, 0x08, 0x08, 0x08, 0x22, 0x04, 0x11, 0x11, 0xA9, 0x32, 0x18])),
        /* 10 */ InitAction::Command(LcdCommand::CND2BKxSEL, Some(seq![0x77u8, 0x01, 0x00, 0x00, 0x11])),
        /* 11 */ InitAction::Command(LcdCommand::PVGAMCTRL, Some(seq![0x60u8])),
        /* 12 */ InitAction::Command(LcdCommand::NVGAMCTRL, Some(seq![0x32u8])),
        /* 13 */ InitAction::Command(LcdCommand::VGHSS, Some(seq![0x07u8])),
        /* 14 */ InitAction::Command(LcdCommand::TESTCMD, Some(seq![0x80u8])),
        /* 15 */ InitAction::Command(LcdCommand::VGLS, Some(seq![0x49u8])),
        /* 16 */ InitAction::Command(LcdCommand::PWCTRL1, Some(seq![0x85u8])),
        /* 17 */ InitAction::Command(LcdCommand::PWCTRL2, Some(seq![0x21u8])),
        /* 18 */ InitAction::Command(LcdCommand::PORCTRL, Some(seq![0x78u8])),
        /* 19 */ InitAction::Command(LcdCommand::INVSET, Some(seq![0x78u8])),
        /* 20 */ InitAction::Command(LcdCommand::SRECTRL, Some(seq![0x00u8, 0x1B, 0x02])),
        /* 21 */ InitAction::Command(LcdCommand::NRCTRL, Some(seq![0x08u8, 0xA0, 0x00, 0x00, 0x07, 0xA0, 0x00, 0x00, 0x00, 0x44, 0x44])),
        /* 22 */ InitAction::Command(LcdCommand::SECTRL, Some(seq![0x11u8, 0x11, 0x44, 0x44, 0xED, 0xA0, 0x00, 0x00, 0xEC, 0xA0, 0x00, 0x00])),
        /* 23 */ InitAction::Command(LcdCommand::SECTRL, Some(seq![0x00u8, 0x00, 0x11, 0x11])),
        /* 24 */ InitAction::Command(LcdCommand::SKCTRL, Some(seq![0x44u8, 0x44])),
        /* 25 */ InitAction::Command(LcdCommand::FORBIDDEN6, Some(seq![0x0Au8, 0xE9, 0xD8, 0xA0, 0x0C, 0xEB, 0xD8, 0xA0, 0x0E, 0xED, 0xD8, 0xA0, 0x10, 0xEF, 0xD8, 0xA0])),
        /* 26 */ InitAction::Command(LcdCommand::FORBIDDEN7, Some(seq![0x00u8, 0x00, 0x11, 0x11])),
        /* 27 */ InitAction::Command(LcdCommand::FORBIDDEN8, Some(seq![0x44u8, 0x44])),
        /* 28 */ InitAction::Command(LcdCommand::FORBIDDEN9, Some(seq![0x09u8, 0xE8, 0xD8, 0xA0, 0x0B, 0xEA, 0xD8, 0xA0, 0x0D, 0xEC, 0xD8, 0xA0, 0x0F, 0xEE, 0xD8, 0xA0])),
        /* 29 */ InitAction::Command(LcdCommand::FORBIDDEN10, Some(seq![0x02u8, 0x00, 0xE4, 0xE4, 0x88, 0x00, 0x40])),
        /* 30 */ InitAction::Command(LcdCommand::FORBIDDEN11, Some(seq![0x3Cu8, 0x00])),
        /* 31 */ InitAction::Command(LcdCommand::FORBIDDEN12, Some(seq![0xABu8, 0x89, 0x76, 0x54, 0x02, 0xFF, 0xFF, 0xFF, 0xFF, 0xFF, 0xFF, 0x20, 0x45, 0x67, 0x98, 0xBA])),
        /* 32 */ InitAction::Command(LcdCommand::MADCTL, Some(seq![0x00u8])),
        /* 33 */ InitAction::Command(LcdCommand::CND2BKxSEL, Some(seq![0x77u8, 0x01, 0x00, 0x00, 0x13])),
        /* 34 */ InitAction::Command(LcdCommand::COLMOD, Some(seq![0x66u8])),
        /* 35 */ InitAction::Command(LcdCommand::INVON, None),
        /* 36 */ InitAction::Delay(1),
        /* 37 */ InitAction::Command(LcdCommand::SLPOUT, None),
        /* 38 */ InitAction::Delay(120),
        /* 39 */ InitAction::Command(LcdCommand::DISPON, None),
        /* 40 */ InitAction::Delay(50),
        /* 41 */ InitAction::Backlight(100),
    ]
}

/// The script that `init_sequence` builds is the listing above, step for step.
pub proof fn lemma_init_script_listing()
    ensures
        init_script() == init_listing(),
{
    assert(init_script() =~= init_listing());
}

/// Commands of the panel's undocumented timing tables.
pub open spec fn is_timing_table(command: LcdCommand) -> bool {
    match command {
        LcdCommand::SRECTRL | LcdCommand::NRCTRL | LcdCommand::SECTRL | LcdCommand::SKCTRL
        | LcdCommand::FORBIDDEN6 | LcdCommand::FORBIDDEN7 | LcdCommand::FORBIDDEN8
        | LcdCommand::FORBIDDEN9 | LcdCommand::FORBIDDEN10 | LcdCommand::FORBIDDEN11
        | LcdCommand::FORBIDDEN12 => true,
        _ => false,
    }
}

/// The command-2 bank select with the given bank byte.
pub open spec fn bank_select(bank: u8) -> InitAction {
    InitAction::Command(LcdCommand::CND2BKxSEL, Some(seq![0x77u8, 0x01, 0x00, 0x00, bank]))
}

/// The script selects bank 0, then bank 1, then bank 3, and nothing else
/// selects a bank; the timing tables go out only while bank 1 is selected;
/// the pixel format is set only in bank 3, to 18 bits per pixel.
pub proof fn lemma_init_script_banks()
    ensures
        init_script()[2] == bank_select(0x10),
        init_script()[10] == bank_select(0x11),
        init_script()[33] == bank_select(0x13),
        forall|i: int|
            0 <= i < init_script().len() ==> (#[trigger] init_script()[i] matches InitAction::Command(
                LcdCommand::CND2BKxSEL,
                _,
            ) ==> (i == 2 || i == 10 || i == 33)),
        forall|i: int|
            0 <= i < init_script().len() ==> (#[trigger] init_script()[i] matches InitAction::Command(
                c,
                _,
            ) ==> (is_timing_table(c) ==> 10 < i < 33)),
        forall|i: int|
            0 <= i < init_script().len() ==> (#[trigger] init_script()[i] matches InitAction::Command(
                LcdCommand::COLMOD,
                d,
            ) ==> (33 < i && d == Some(seq![0x66u8]))),
{
    lemma_init_script_listing();
    assert(init_listing().len() == 42);
}

/// Every command of the start-up script carries few enough parameter bytes
/// to be framed in one transfer.
pub proof fn lemma_init_script_payloads_fit()
    ensures
        forall|i: int|
            0 <= i < init_script().len() ==> (#[trigger] init_script()[i] matches InitAction::Command(
                _,
                Some(data),
            ) ==> data.len() <= MAX_DATA_FRAMES),
{
    assert(init_script().len() == 42);
}

/// The steps that bring the display from power-on to showing pixels.
pub fn init_sequence() -> (steps: Vec<InitStep>)
    ensures
        steps@.map_values(|s: InitStep| s@) == init_script(),
{
    let mut steps: Vec<InitStep> = Vec::new();
    let mut part = reset_steps();
    steps.append(&mut part);
    let mut part = power_steps();
    steps.append(&mut part);
    let mut part = timing_steps();
    steps.append(&mut part);
    let mut part = start_steps();
    steps.append(&mut part);
    assert(steps@.map_values(|s: InitStep| s@) =~= init_script());
    steps
}

} // verus!
