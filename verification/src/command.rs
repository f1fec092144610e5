//! The controller's documented one-byte command codes.

use vstd::prelude::*;

verus! {

/// A command the display controller understands, one byte on the wire.
#[derive(Clone, Copy, Debug, PartialEq, Eq, Structural)]
pub enum DisplayCommand {
    /// Do nothing
    NOP,
    /// Software reset
    SWRESET,
    /// Read display ID
    RDDID,
    /// Read display status
    RDDST,
    /// Read display power mode
    RDDPM,
    /// Read display MADCTL
    RDDMADCTL,
    /// Read display pixel format
    RDDCOLMOD,
    /// Read display image format
    RDDIM,
    /// Read display signal mode
    RDDSM,
    /// Read display self-diagnostic result
    RDDSDR,
    /// Sleep in
    SLPIN,
    /// Sleep out
    SLPOUT,
    /// Partial display mode on
    PTLON,
    /// Normal display mode on
    NORON,
    /// Display inversion off
    INVOFF,
    /// Display inversion on
    INVON,
    /// Gamma set
    GAMSET,
    /// Display off
    DISPOFF,
    /// Display on
    DISPON,
    /// Column address set
    CASET,
    /// Row address set
    RASET,
    /// Memory write
    RAMWR,
    /// Memory read
    RAMRD,
    /// Partial area
    PTLAR,
    /// Vertical scrolling definition
    VSCRDEF,
    /// Tearing effect line off
    TEOFF,
    /// Tearing effect line on
    TEON,
    /// Memory data access control
    MADCTL,
    /// Vertical scroll start address of RAM
    VSCSAD,
    /// Idle mode off
    IDMOFF,
    /// Idle mode on
    IDMON,
    /// Interface pixel format
    COLMOD,
    /// Write memory continue
    WRMEMC,
    /// Read memory continue
    RDMEMC,
    /// Set tear scanline
    STE,
    /// Get scanline
    GSCAN,
    /// Write display brightness
    WRDISBV,
    /// Read display brightness value
    RDDISBV,
    /// Write CTRL display
    WRCTRLD,
    /// Read CTRL value display
    RDCTRLD,
    /// Write content adaptive brightness control and color enhancement
    WRCACE,
    /// Read content adaptive brightness control
    RDCABC,
    /// Write CACB minimum brightness
    WRCABCMB,
    /// Read CACB minimum brightness
    RDCABCMB,
    /// Read automatic brightness control self-diagnostic result
    RDABCSDR,
    /// RAM control
    RAMCTRL,
    /// RGB interface control
    RGBCTRL,
    /// Porch setting
    PORCTRL,
    /// Frame rate control 1 (in partial mode/idle colors)
    FRCTRL1,
    /// Partial control
    PARCTRL,
    /// Gate control
    GCTRL,
    /// Gate on timing adjustment
    GTADJ,
    /// Digital gamma enable
    DGMEN,
    /// VCOM setting
    VCOMS,
    /// Power saving mode
    POWSAVE,
    /// Display off power save
    DLPOFFSAVE,
    /// LCM control
    LCMCTRL,
    /// ID code setting
    IDSET,
    /// VDV and VRH command enable
    VDVVRHEN,
    /// VRH set
    VRHS,
    /// VDV set
    VDVS,
    /// VCOM offset set
    VCMOFSET,
    /// Frame rate control in normal mode
    FRCTRL2,
    /// CABC control
    CABCCTRL,
    /// Register value selection 1
    REGSEL1,
    /// Register value selection 2
    REGSEL2,
    /// PWM frequency selection
    PWMFRSEL,
    /// Power control 1
    PWCTRL1,
    /// Enable VAP/VAN signal output
    VAPVANEN,
    /// Read ID1
    RDID1,
    /// Read ID2
    RDID2,
    /// Read ID3
    RDID3,
    /// Command 2 enable
    CMD2EN,
    /// Positive voltage gamma control
    PVGAMCTRL,
    /// Negative voltage gamma control
    NVGAMCTRL,
    /// Digital gamma look-up table for red
    DGMLUTR,
    /// Digital gamma look-up table for blue
    DGMLUTB,
    /// Gate control
    GATECTRL,
    /// SPI2 enable
    SPI2EN,
    /// Power control 2
    PWCTRL2,
    /// Equalize time control
    EQCTRL,
    /// Program mode control
    PROMCTRL,
    /// Program mode enable
    PROMEN,
    /// NVM setting
    NVMSET,
    /// Program action
    PROMACT,
}

impl DisplayCommand {
    /// The one-byte code of this command on the wire.
    pub open spec fn spec_code(self) -> u8 {
        match self {
                DisplayCommand::NOP => 0x00,
                DisplayCommand::SWRESET => 0x01,
                DisplayCommand::RDDID => 0x04,
                DisplayCommand::RDDST => 0x09,
                DisplayCommand::RDDPM => 0x0A,
                DisplayCommand::RDDMADCTL => 0x0B,
                DisplayCommand::RDDCOLMOD => 0x0C,
                DisplayCommand::RDDIM => 0x0D,
                DisplayCommand::RDDSM => 0x0E,
                DisplayCommand::RDDSDR => 0x0F,
                DisplayCommand::SLPIN => 0x10,
                DisplayCommand::SLPOUT => 0x11,
                DisplayCommand::PTLON => 0x12,
                DisplayCommand::NORON => 0x13,
                DisplayCommand::INVOFF => 0x20,
                DisplayCommand::INVON => 0x21,
                DisplayCommand::GAMSET => 0x26,
                DisplayCommand::DISPOFF => 0x28,
                DisplayCommand::DISPON => 0x29,
                DisplayCommand::CASET => 0x2A,
                DisplayCommand::RASET => 0x2B,
                DisplayCommand::RAMWR => 0x2C,
                DisplayCommand::RAMRD => 0x2E,
                DisplayCommand::PTLAR => 0x30,
                DisplayCommand::VSCRDEF => 0x33,
                DisplayCommand::TEOFF => 0x34,
                DisplayCommand::TEON => 0x35,
                DisplayCommand::MADCTL => 0x36,
                DisplayCommand::VSCSAD => 0x37,
                DisplayCommand::IDMOFF => 0x38,
                DisplayCommand::IDMON => 0x39,
                DisplayCommand::COLMOD => 0x3A,
                DisplayCommand::WRMEMC => 0x3C,
                DisplayCommand::RDMEMC => 0x3E,
                DisplayCommand::STE => 0x44,
                DisplayCommand::GSCAN => 0x45,
                DisplayCommand::WRDISBV => 0x51,
                DisplayCommand::RDDISBV => 0x52,
                DisplayCommand::WRCTRLD => 0x53,
                DisplayCommand::RDCTRLD => 0x54,
                DisplayCommand::WRCACE => 0x55,
                DisplayCommand::RDCABC => 0x56,
                DisplayCommand::WRCABCMB => 0x5E,
                DisplayCommand::RDCABCMB => 0x5F,
                DisplayCommand::RDABCSDR => 0x68,
                DisplayCommand::RAMCTRL => 0xB0,
                DisplayCommand::RGBCTRL => 0xB1,
                DisplayCommand::PORCTRL => 0xB2,
                DisplayCommand::FRCTRL1 => 0xB3,
                DisplayCommand::PARCTRL => 0xB5,
                DisplayCommand::GCTRL => 0xB7,
                DisplayCommand::GTADJ => 0xB8,
                DisplayCommand::DGMEN => 0xBA,
                DisplayCommand::VCOMS => 0xBB,
                DisplayCommand::POWSAVE => 0xBC,
                DisplayCommand::DLPOFFSAVE => 0xBD,
                DisplayCommand::LCMCTRL => 0xC0,
                DisplayCommand::IDSET => 0xC1,
                DisplayCommand::VDVVRHEN => 0xC2,
                DisplayCommand::VRHS => 0xC3,
                DisplayCommand::VDVS => 0xC4,
                DisplayCommand::VCMOFSET => 0xC5,
                DisplayCommand::FRCTRL2 => 0xC6,
                DisplayCommand::CABCCTRL => 0xC7,
                DisplayCommand::REGSEL1 => 0xC8,
                DisplayCommand::REGSEL2 => 0xCA,
                DisplayCommand::PWMFRSEL => 0xCC,
                DisplayCommand::PWCTRL1 => 0xD0,
                DisplayCommand::VAPVANEN => 0xD2,
                DisplayCommand::RDID1 => 0xDA,
                DisplayCommand::RDID2 => 0xDB,
                DisplayCommand::RDID3 => 0xDC,
                DisplayCommand::CMD2EN => 0xDF,
                DisplayCommand::PVGAMCTRL => 0xE0,
                DisplayCommand::NVGAMCTRL => 0xE1,
                DisplayCommand::DGMLUTR => 0xE2,
                DisplayCommand::DGMLUTB => 0xE3,
                DisplayCommand::GATECTRL => 0xE4,
                DisplayCommand::SPI2EN => 0xE7,
                DisplayCommand::PWCTRL2 => 0xE8,
                DisplayCommand::EQCTRL => 0xE9,
                DisplayCommand::PROMCTRL => 0xEC,
                DisplayCommand::PROMEN => 0xFA,
                DisplayCommand::NVMSET => 0xFC,
                DisplayCommand::PROMACT => 0xFE,
        }
    }

    /// The one-byte code of this command on the wire.
    #[verifier::when_used_as_spec(spec_code)]
    pub fn code(self) -> (r: u8)
        ensures
            r == self.spec_code(),
    {
        match self {
                DisplayCommand::NOP => 0x00,
                DisplayCommand::SWRESET => 0x01,
                DisplayCommand::RDDID => 0x04,
                DisplayCommand::RDDST => 0x09,
                DisplayCommand::RDDPM => 0x0A,
                DisplayCommand::RDDMADCTL => 0x0B,
                DisplayCommand::RDDCOLMOD => 0x0C,
                DisplayCommand::RDDIM => 0x0D,
                DisplayCommand::RDDSM => 0x0E,
                DisplayCommand::RDDSDR => 0x0F,
                DisplayCommand::SLPIN => 0x10,
                DisplayCommand::SLPOUT => 0x11,
                DisplayCommand::PTLON => 0x12,
                DisplayCommand::NORON => 0x13,
                DisplayCommand::INVOFF => 0x20,
                DisplayCommand::INVON => 0x21,
                DisplayCommand::GAMSET => 0x26,
                DisplayCommand::DISPOFF => 0x28,
                DisplayCommand::DISPON => 0x29,
                DisplayCommand::CASET => 0x2A,
                DisplayCommand::RASET => 0x2B,
                DisplayCommand::RAMWR => 0x2C,
                DisplayCommand::RAMRD => 0x2E,
                DisplayCommand::PTLAR => 0x30,
                DisplayCommand::VSCRDEF => 0x33,
                DisplayCommand::TEOFF => 0x34,
                DisplayCommand::TEON => 0x35,
                DisplayCommand::MADCTL => 0x36,
                DisplayCommand::VSCSAD => 0x37,
                DisplayCommand::IDMOFF => 0x38,
                DisplayCommand::IDMON => 0x39,
                DisplayCommand::COLMOD => 0x3A,
                DisplayCommand::WRMEMC => 0x3C,
                DisplayCommand::RDMEMC => 0x3E,
                DisplayCommand::STE => 0x44,
                DisplayCommand::GSCAN => 0x45,
                DisplayCommand::WRDISBV => 0x51,
                DisplayCommand::RDDISBV => 0x52,
                DisplayCommand::WRCTRLD => 0x53,
                DisplayCommand::RDCTRLD => 0x54,
                DisplayCommand::WRCACE => 0x55,
                DisplayCommand::RDCABC => 0x56,
                DisplayCommand::WRCABCMB => 0x5E,
                DisplayCommand::RDCABCMB => 0x5F,
                DisplayCommand::RDABCSDR => 0x68,
                DisplayCommand::RAMCTRL => 0xB0,
                DisplayCommand::RGBCTRL => 0xB1,
                DisplayCommand::PORCTRL => 0xB2,
                DisplayCommand::FRCTRL1 => 0xB3,
                DisplayCommand::PARCTRL => 0xB5,
                DisplayCommand::GCTRL => 0xB7,
                DisplayCommand::GTADJ => 0xB8,
                DisplayCommand::DGMEN => 0xBA,
                DisplayCommand::VCOMS => 0xBB,
                DisplayCommand::POWSAVE => 0xBC,
                DisplayCommand::DLPOFFSAVE => 0xBD,
                DisplayCommand::LCMCTRL => 0xC0,
                DisplayCommand::IDSET => 0xC1,
                DisplayCommand::VDVVRHEN => 0xC2,
                DisplayCommand::VRHS => 0xC3,
                DisplayCommand::VDVS => 0xC4,
                DisplayCommand::VCMOFSET => 0xC5,
                DisplayCommand::FRCTRL2 => 0xC6,
                DisplayCommand::CABCCTRL => 0xC7,
                DisplayCommand::REGSEL1 => 0xC8,
                DisplayCommand::REGSEL2 => 0xCA,
                DisplayCommand::PWMFRSEL => 0xCC,
                DisplayCommand::PWCTRL1 => 0xD0,
                DisplayCommand::VAPVANEN => 0xD2,
                DisplayCommand::RDID1 => 0xDA,
                DisplayCommand::RDID2 => 0xDB,
                DisplayCommand::RDID3 => 0xDC,
                DisplayCommand::CMD2EN => 0xDF,
                DisplayCommand::PVGAMCTRL => 0xE0,
                DisplayCommand::NVGAMCTRL => 0xE1,
                DisplayCommand::DGMLUTR => 0xE2,
                DisplayCommand::DGMLUTB => 0xE3,
                DisplayCommand::GATECTRL => 0xE4,
                DisplayCommand::SPI2EN => 0xE7,
                DisplayCommand::PWCTRL2 => 0xE8,
                DisplayCommand::EQCTRL => 0xE9,
                DisplayCommand::PROMCTRL => 0xEC,
                DisplayCommand::PROMEN => 0xFA,
                DisplayCommand::NVMSET => 0xFC,
                DisplayCommand::PROMACT => 0xFE,
        }
    }
}

} // verus!
