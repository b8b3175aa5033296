use vstd::prelude::*;

verus! {

/// Commands of the ST7701 display controller.
///
/// Each command is sent to the controller as its one-byte code, given by
/// [`LcdCommand::code`]. Codes that the controller reuses in another command
/// bank appear once, under the name of the bank they were first listed for.
#[derive(Debug, Copy, Clone, PartialEq, Eq, Structural)]
#[allow(non_camel_case_types)]
pub enum LcdCommand {
    /// Software Reset
    SWRESET,
    /// Sleep Out
    SLPOUT,
    /// Partial Display Mode On
    PTLON,
    /// Normal Display Mode On
    NORON,
    /// Display Inversion Off
    INVOFF,
    /// Display Inversion On
    INVON,
    /// All Pixels Off
    ALLPOFF,
    /// All Pixels On
    ALLPON,
    /// Gamma Set
    GAMSET,
    /// Display Off
    DISPOFF,
    /// Display On
    DISPON,
    /// Tearing Effect Line Off (kinda vsync)
    TEOFF,
    /// Tearing Effect Line On (kinda vsync)
    TEON,
    /// Display data access control
    MADCTL,
    /// Idle Mode Off
    IDMOFF,
    /// Idle Mode On
    IDMON,
    /// Interface Pixel Format
    COLMOD,
    /// Get Scan Line
    GSL,
    /// Positive Voltage Gamma Control
    PVGAMCTRL,
    /// Negative Voltage Gamma Control
    NVGAMCTRL,
    /// Digital Gamma LUT for Red
    DGMLUTR,
    /// Digital Gamma LUT for Blue
    DGMLUTB,
    /// Display Line Setting
    LNESET,
    /// Porch Control
    PORCTRL,
    /// Inversion Selection & Frame Rate Control
    INVSET,
    /// RGB Control
    RGBCTRL,
    /// Partial Mode Control
    PARCTRL,
    /// X-direction Control
    SDIR,
    /// Colour Control
    COLCTRL,
    /// Sunlight Readable Enhancement
    SRECTRL,
    /// Noise Reduce Control
    NRCTRL,
    /// Sharpness Control
    SECTRL,
    /// Color Calibration Control
    CCCTRL,
    /// Skin Tone Preservation Control
    SKCTRL,
    /// VGH voltage
    VGHSS,
    /// TEST command
    TESTCMD,
    /// VGL voltage
    VGLS,
    /// VRH_DV voltage
    VRHDV,
    /// Power Control 1
    PWCTRL1,
    /// Power Control 2
    PWCTRL2,
    /// Power pumping clock selection 2
    PCLKS2,
    /// NVM enable
    NVMEN,
    /// NVM manual control
    NVMSET,
    /// NVM program active
    PROMACT,
    /// Command2 BKx Select
    CND2BKxSEL,
    FORBIDDEN6,
    FORBIDDEN7,
    FORBIDDEN8,
    FORBIDDEN9,
    FORBIDDEN10,
    FORBIDDEN11,
    FORBIDDEN12,
}

/// The one-byte code the controller knows a command by.
pub open spec fn command_code(command: LcdCommand) -> u8 {
    match command {
        LcdCommand::SWRESET => 0x01u8,
        LcdCommand::SLPOUT => 0x11u8,
        LcdCommand::PTLON => 0x12u8,
        LcdCommand::NORON => 0x13u8,
        LcdCommand::INVOFF => 0x20u8,
        LcdCommand::INVON => 0x21u8,
        LcdCommand::ALLPOFF => 0x22u8,
        LcdCommand::ALLPON => 0x23u8,
        LcdCommand::GAMSET => 0x26u8,
        LcdCommand::DISPOFF => 0x28u8,
        LcdCommand::DISPON => 0x29u8,
        LcdCommand::TEOFF => 0x34u8,
        LcdCommand::TEON => 0x35u8,
        LcdCommand::MADCTL => 0x36u8,
        LcdCommand::IDMOFF => 0x38u8,
        LcdCommand::IDMON => 0x39u8,
        LcdCommand::COLMOD => 0x3Au8,
        LcdCommand::GSL => 0x45u8,
        LcdCommand::PVGAMCTRL => 0xB0u8,
        LcdCommand::NVGAMCTRL => 0xB1u8,
        LcdCommand::DGMLUTR => 0xB9u8,
        LcdCommand::DGMLUTB => 0xBAu8,
        LcdCommand::LNESET => 0xC0u8,
        LcdCommand::PORCTRL => 0xC1u8,
        LcdCommand::INVSET => 0xC2u8,
        LcdCommand::RGBCTRL => 0xC3u8,
        LcdCommand::PARCTRL => 0xC5u8,
        LcdCommand::SDIR => 0xC7u8,
        LcdCommand::COLCTRL => 0xCDu8,
        LcdCommand::SRECTRL => 0xE0u8,
        LcdCommand::NRCTRL => 0xE1u8,
        LcdCommand::SECTRL => 0xE2u8,
        LcdCommand::CCCTRL => 0xE3u8,
        LcdCommand::SKCTRL => 0xE4u8,
        LcdCommand::VGHSS => 0xB2u8,
        LcdCommand::TESTCMD => 0xB3u8,
        LcdCommand::VGLS => 0xB5u8,
        LcdCommand::VRHDV => 0xB6u8,
        LcdCommand::PWCTRL1 => 0xB7u8,
        LcdCommand::PWCTRL2 => 0xB8u8,
        LcdCommand::PCLKS2 => 0xBCu8,
        LcdCommand::NVMEN => 0xC8u8,
        LcdCommand::NVMSET => 0xCAu8,
        LcdCommand::PROMACT => 0xCCu8,
        LcdCommand::CND2BKxSEL => 0xFFu8,
        LcdCommand::FORBIDDEN6 => 0xE5u8,
        LcdCommand::FORBIDDEN7 => 0xE6u8,
        LcdCommand::FORBIDDEN8 => 0xE7u8,
        LcdCommand::FORBIDDEN9 => 0xE8u8,
        LcdCommand::FORBIDDEN10 => 0xEBu8,
        LcdCommand::FORBIDDEN11 => 0xECu8,
        LcdCommand::FORBIDDEN12 => 0xEDu8,
    }
}

/// Each command's code is the value the ST7701 datasheet (and, for the
/// unnamed ones, the panel's start-up tables) gives it.
pub proof fn lemma_command_code_table()
    ensures
        command_code(LcdCommand::SWRESET) == 0x01,
        command_code(LcdCommand::SLPOUT) == 0x11,
        command_code(LcdCommand::PTLON) == 0x12,
        command_code(LcdCommand::NORON) == 0x13,
        command_code(LcdCommand::INVOFF) == 0x20,
        command_code(LcdCommand::INVON) == 0x21,
        command_code(LcdCommand::ALLPOFF) == 0x22,
        command_code(LcdCommand::ALLPON) == 0x23,
        command_code(LcdCommand::GAMSET) == 0x26,
        command_code(LcdCommand::DISPOFF) == 0x28,
        command_code(LcdCommand::DISPON) == 0x29,
        command_code(LcdCommand::TEOFF) == 0x34,
        command_code(LcdCommand::TEON) == 0x35,
        command_code(LcdCommand::MADCTL) == 0x36,
        command_code(LcdCommand::IDMOFF) == 0x38,
        command_code(LcdCommand::IDMON) == 0x39,
        command_code(LcdCommand::COLMOD) == 0x3A,
        command_code(LcdCommand::GSL) == 0x45,
        command_code(LcdCommand::PVGAMCTRL) == 0xB0,
        command_code(LcdCommand::NVGAMCTRL) == 0xB1,
        command_code(LcdCommand::DGMLUTR) == 0xB9,
        command_code(LcdCommand::DGMLUTB) == 0xBA,
        command_code(LcdCommand::LNESET) == 0xC0,
        command_code(LcdCommand::PORCTRL) == 0xC1,
        command_code(LcdCommand::INVSET) == 0xC2,
        command_code(LcdCommand::RGBCTRL) == 0xC3,
        command_code(LcdCommand::PARCTRL) == 0xC5,
        command_code(LcdCommand::SDIR) == 0xC7,
        command_code(LcdCommand::COLCTRL) == 0xCD,
        command_code(LcdCommand::SRECTRL) == 0xE0,
        command_code(LcdCommand::NRCTRL) == 0xE1,
        command_code(LcdCommand::SECTRL) == 0xE2,
        command_code(LcdCommand::CCCTRL) == 0xE3,
        command_code(LcdCommand::SKCTRL) == 0xE4,
        command_code(LcdCommand::VGHSS) == 0xB2,
        command_code(LcdCommand::TESTCMD) == 0xB3,
        command_code(LcdCommand::VGLS) == 0xB5,
        command_code(LcdCommand::VRHDV) == 0xB6,
        command_code(LcdCommand::PWCTRL1) == 0xB7,
        command_code(LcdCommand::PWCTRL2) == 0xB8,
        command_code(LcdCommand::PCLKS2) == 0xBC,
        command_code(LcdCommand::NVMEN) == 0xC8,
        command_code(LcdCommand::NVMSET) == 0xCA,
        command_code(LcdCommand::PROMACT) == 0xCC,
        command_code(LcdCommand::CND2BKxSEL) == 0xFF,
        command_code(LcdCommand::FORBIDDEN6) == 0xE5,
        command_code(LcdCommand::FORBIDDEN7) == 0xE6,
        command_code(LcdCommand::FORBIDDEN8) == 0xE7,
        command_code(LcdCommand::FORBIDDEN9) == 0xE8,
        command_code(LcdCommand::FORBIDDEN10) == 0xEB,
        command_code(LcdCommand::FORBIDDEN11) == 0xEC,
        command_code(LcdCommand::FORBIDDEN12) == 0xED,
{
}

/// The command a code stands for, if any.
pub open spec fn command_of_code(code: u8) -> Option<LcdCommand> {
    match code {
        0x01u8 => Some(LcdCommand::SWRESET),
        0x11u8 => Some(LcdCommand::SLPOUT),
        0x12u8 => Some(LcdCommand::PTLON),
        0x13u8 => Some(LcdCommand::NORON),
        0x20u8 => Some(LcdCommand::INVOFF),
        0x21u8 => Some(LcdCommand::INVON),
        0x22u8 => Some(LcdCommand::ALLPOFF),
        0x23u8 => Some(LcdCommand::ALLPON),
        0x26u8 => Some(LcdCommand::GAMSET),
        0x28u8 => Some(LcdCommand::DISPOFF),
        0x29u8 => Some(LcdCommand::DISPON),
        0x34u8 => Some(LcdCommand::TEOFF),
        0x35u8 => Some(LcdCommand::TEON),
        0x36u8 => Some(LcdCommand::MADCTL),
        0x38u8 => Some(LcdCommand::IDMOFF),
        0x39u8 => Some(LcdCommand::IDMON),
        0x3Au8 => Some(LcdCommand::COLMOD),
        0x45u8 => Some(LcdCommand::GSL),
        0xB0u8 => Some(LcdCommand::PVGAMCTRL),
        0xB1u8 => Some(LcdCommand::NVGAMCTRL),
        0xB9u8 => Some(LcdCommand::DGMLUTR),
        0xBAu8 => Some(LcdCommand::DGMLUTB),
        0xC0u8 => Some(LcdCommand::LNESET),
        0xC1u8 => Some(LcdCommand::PORCTRL),
        0xC2u8 => Some(LcdCommand::INVSET),
        0xC3u8 => Some(LcdCommand::RGBCTRL),
        0xC5u8 => Some(LcdCommand::PARCTRL),
        0xC7u8 => Some(LcdCommand::SDIR),
        0xCDu8 => Some(LcdCommand::COLCTRL),
        0xE0u8 => Some(LcdCommand::SRECTRL),
        0xE1u8 => Some(LcdCommand::NRCTRL),
        0xE2u8 => Some(LcdCommand::SECTRL),
        0xE3u8 => Some(LcdCommand::CCCTRL),
        0xE4u8 => Some(LcdCommand::SKCTRL),
        0xB2u8 => Some(LcdCommand::VGHSS),
        0xB3u8 => Some(LcdCommand::TESTCMD),
        0xB5u8 => Some(LcdCommand::VGLS),
        0xB6u8 => Some(LcdCommand::VRHDV),
        0xB7u8 => Some(LcdCommand::PWCTRL1),
        0xB8u8 => Some(LcdCommand::PWCTRL2),
        0xBCu8 => Some(LcdCommand::PCLKS2),
        0xC8u8 => Some(LcdCommand::NVMEN),
        0xCAu8 => Some(LcdCommand::NVMSET),
        0xCCu8 => Some(LcdCommand::PROMACT),
        0xFFu8 => Some(LcdCommand::CND2BKxSEL),
        0xE5u8 => Some(LcdCommand::FORBIDDEN6),
        0xE6u8 => Some(LcdCommand::FORBIDDEN7),
        0xE7u8 => Some(LcdCommand::FORBIDDEN8),
        0xE8u8 => Some(LcdCommand::FORBIDDEN9),
        0xEBu8 => Some(LcdCommand::FORBIDDEN10),
        0xECu8 => Some(LcdCommand::FORBIDDEN11),
        0xEDu8 => Some(LcdCommand::FORBIDDEN12),
        _ => None,
    }
}

/// A code names exactly one command: reading a command's code back gives the
/// command, so no two commands share a code.
pub proof fn lemma_code_identifies_command(a: LcdCommand, b: LcdCommand)
    ensures
        command_of_code(command_code(a)) == Some(a),
        command_code(a) == command_code(b) ==> a == b,
{
    assert(command_of_code(command_code(a)) == Some(a));
    assert(command_of_code(command_code(b)) == Some(b));
}

impl LcdCommand {
    /// The one-byte code of this command.
    pub fn code(&self) -> (c: u8)
        ensures
            c == command_code(*self),
    {
        match self {
            LcdCommand::SWRESET => 0x01,
            LcdCommand::SLPOUT => 0x11,
            LcdCommand::PTLON => 0x12,
            LcdCommand::NORON => 0x13,
            LcdCommand::INVOFF => 0x20,
            LcdCommand::INVON => 0x21,
            LcdCommand::ALLPOFF => 0x22,
            LcdCommand::ALLPON => 0x23,
            LcdCommand::GAMSET => 0x26,
            LcdCommand::DISPOFF => 0x28,
            LcdCommand::DISPON => 0x29,
            LcdCommand::TEOFF => 0x34,
            LcdCommand::TEON => 0x35,
            LcdCommand::MADCTL => 0x36,
            LcdCommand::IDMOFF => 0x38,
            LcdCommand::IDMON => 0x39,
            LcdCommand::COLMOD => 0x3A,
            LcdCommand::GSL => 0x45,
            LcdCommand::PVGAMCTRL => 0xB0,
            LcdCommand::NVGAMCTRL => 0xB1,
            LcdCommand::DGMLUTR => 0xB9,
            LcdCommand::DGMLUTB => 0xBA,
            LcdCommand::LNESET => 0xC0,
            LcdCommand::PORCTRL => 0xC1,
            LcdCommand::INVSET => 0xC2,
            LcdCommand::RGBCTRL => 0xC3,
            LcdCommand::PARCTRL => 0xC5,
            LcdCommand::SDIR => 0xC7,
            LcdCommand::COLCTRL => 0xCD,
            LcdCommand::SRECTRL => 0xE0,
            LcdCommand::NRCTRL => 0xE1,
            LcdCommand::SECTRL => 0xE2,
            LcdCommand::CCCTRL => 0xE3,
            LcdCommand::SKCTRL => 0xE4,
            LcdCommand::VGHSS => 0xB2,
            LcdCommand::TESTCMD => 0xB3,
            LcdCommand::VGLS => 0xB5,
            LcdCommand::VRHDV => 0xB6,
            LcdCommand::PWCTRL1 => 0xB7,
            LcdCommand::PWCTRL2 => 0xB8,
            LcdCommand::PCLKS2 => 0xBC,
            LcdCommand::NVMEN => 0xC8,
            LcdCommand::NVMSET => 0xCA,
            LcdCommand::PROMACT => 0xCC,
            LcdCommand::CND2BKxSEL => 0xFF,
            LcdCommand::FORBIDDEN6 => 0xE5,
            LcdCommand::FORBIDDEN7 => 0xE6,
            LcdCommand::FORBIDDEN8 => 0xE7,
            LcdCommand::FORBIDDEN9 => 0xE8,
            LcdCommand::FORBIDDEN10 => 0xEB,
            LcdCommand::FORBIDDEN11 => 0xEC,
            LcdCommand::FORBIDDEN12 => 0xED,
        }
    }
}

} // verus!
