//! Pixel-format selection and per-pixel byte packing, plus the controller's
//! memory-access-order (rotation) byte values.

use vstd::prelude::*;

verus! {

/// Bit fields of the controller's interface-pixel-format parameter byte:
/// an RGB-interface selector and a bit-depth selector, combined by OR.
#[derive(Clone, Copy, Debug, PartialEq, Eq, Structural)]
pub enum DisplayColorMode {
    /// 12 bits/pixel
    BPP12,
    /// 16 bits/pixel -> 0bRRRRRGGG_GGGBBBBB
    BPP16,
    /// 18 bits/pixel -> 0bRRRRRR00_GGGGGG00_BBBBBB00
    BPP18,
    /// 16M truncated -> 0bRRRRR000_GGGGGG00_BBBBB000
    BPP16M,
    /// 65K-color RGB interface
    RGB65K,
    /// 262K-color RGB interface
    RGB262K,
}

impl DisplayColorMode {
    /// The bits this selector contributes to the pixel-format byte.
    pub open spec fn spec_bits(self) -> u8 {
        match self {
            DisplayColorMode::BPP12 => 0b00000011,
            DisplayColorMode::BPP16 => 0b00000101,
            DisplayColorMode::BPP18 => 0b00000110,
            DisplayColorMode::BPP16M => 0b00000111,
            DisplayColorMode::RGB65K => 0b01010000,
            DisplayColorMode::RGB262K => 0b01100000,
        }
    }

    /// The bits this selector contributes to the pixel-format byte.
    #[verifier::when_used_as_spec(spec_bits)]
    pub fn bits(self) -> (r: u8)
        ensures
            r == self.spec_bits(),
    {
        match self {
            DisplayColorMode::BPP12 => 0b00000011,
            DisplayColorMode::BPP16 => 0b00000101,
            DisplayColorMode::BPP18 => 0b00000110,
            DisplayColorMode::BPP16M => 0b00000111,
            DisplayColorMode::RGB65K => 0b01010000,
            DisplayColorMode::RGB262K => 0b01100000,
        }
    }
}

/// The bit-depth variant the driver is set to, or the unset sentinel
/// `UNKNOWN` under which every draw operation is a no-op.
#[derive(Clone, Copy, Debug, PartialEq, Eq, Structural)]
pub enum DisplayColorModeBPP {
    BPP12,
    /// 16 bits/pixel -> 0bRRRRRGGG_GGGBBBBB
    BPP16,
    /// 18 bits/pixel -> 0bRRRRRR00_GGGGGG00_BBBBBB00
    BPP18,
    /// 16M truncated -> 0bRRRRR000_GGGGGG00_BBBBB000
    BPP16M,
    UNKNOWN,
}

/// The pixel-format parameter byte sent for each bit-depth variant.
///
/// The 18-bit variant deliberately reuses the 12-bit depth bits together
/// with the 262K interface bits, as the original table has it; the sentinel
/// falls back to the 65K interface with 16-bit depth.
pub open spec fn colmod_byte(bpp: DisplayColorModeBPP) -> u8 {
    match bpp {
        DisplayColorModeBPP::BPP12 => DisplayColorMode::RGB65K.spec_bits()
            | DisplayColorMode::BPP12.spec_bits(),
        DisplayColorModeBPP::BPP16 => DisplayColorMode::RGB65K.spec_bits()
            | DisplayColorMode::BPP16.spec_bits(),
        DisplayColorModeBPP::BPP16M => DisplayColorMode::RGB65K.spec_bits()
            | DisplayColorMode::BPP16M.spec_bits(),
        DisplayColorModeBPP::BPP18 => DisplayColorMode::RGB262K.spec_bits()
            | DisplayColorMode::BPP12.spec_bits(),
        DisplayColorModeBPP::UNKNOWN => DisplayColorMode::RGB65K.spec_bits()
            | DisplayColorMode::BPP16.spec_bits(),
    }
}

/// How many bytes one pixel occupies on the wire under `bpp`.
///
/// The 12-bit variant packs nothing at all (a gap the original leaves open),
/// and under the sentinel no pixel is ever streamed.
pub open spec fn bytes_per_pixel(bpp: DisplayColorModeBPP) -> nat {
    match bpp {
        DisplayColorModeBPP::BPP16 => 2,
        DisplayColorModeBPP::BPP18 => 3,
        DisplayColorModeBPP::BPP16M => 3,
        DisplayColorModeBPP::BPP12 => 0,
        DisplayColorModeBPP::UNKNOWN => 0,
    }
}

/// The wire bytes of one pixel of logical color `color` under `bpp`:
/// a direct truncation of the color's low-order bytes, high byte first,
/// not a color-space conversion.
pub open spec fn packed_pixel(bpp: DisplayColorModeBPP, color: u32) -> Seq<u8> {
    match bpp {
        DisplayColorModeBPP::BPP16 => seq![
            ((color >> 8) & 0xFF) as u8,
            (color & 0xFF) as u8,
        ],
        DisplayColorModeBPP::BPP18 => seq![
            ((color >> 16) & 0xFF) as u8,
            ((color >> 8) & 0xFF) as u8,
            (color & 0xFF) as u8,
        ],
        DisplayColorModeBPP::BPP16M => seq![
            ((color >> 16) & 0xFF) as u8,
            ((color >> 8) & 0xFF) as u8,
            (color & 0xFF) as u8,
        ],
        DisplayColorModeBPP::BPP12 => seq![],
        DisplayColorModeBPP::UNKNOWN => seq![],
    }
}

/// A packed pixel occupies exactly `bytes_per_pixel(bpp)` wire bytes.
pub proof fn lemma_packed_pixel_len(bpp: DisplayColorModeBPP, color: u32)
    ensures
        packed_pixel(bpp, color).len() == bytes_per_pixel(bpp),
{
}

/// In the 16-bit mode the two wire bytes are bits 15..8 and bits 7..0 of
/// the logical color: packing truncates the low 16 bits of the 32-bit input
/// and ignores everything above them.
pub proof fn lemma_packed_pixel_bpp16_truncates(color: u32)
    ensures
        packed_pixel(DisplayColorModeBPP::BPP16, color) == seq![
            ((color >> 8) & 0xFF) as u8,
            (color & 0xFF) as u8,
        ],
        packed_pixel(DisplayColorModeBPP::BPP16, color) == packed_pixel(
            DisplayColorModeBPP::BPP16,
            color & 0xFFFF,
        ),
{
    assert(((color >> 8) & 0xFF) as u8 == (((color & 0xFFFF) >> 8) & 0xFF) as u8) by (bit_vector);
    assert((color & 0xFF) as u8 == ((color & 0xFFFF) & 0xFF) as u8) by (bit_vector);
    assert(packed_pixel(DisplayColorModeBPP::BPP16, color) =~= packed_pixel(
        DisplayColorModeBPP::BPP16,
        color & 0xFFFF,
    ));
}

/// Bit flags of the controller's memory-data-access-control parameter byte.
#[derive(Clone, Copy, Debug, PartialEq, Eq, Structural)]
pub enum DisplayMADCTL {
    /// Display data latch order
    MH,
    /// RGB/BGR order
    RGB,
    /// Line address order
    ML,
    /// Page/column order
    MV,
    /// Column address order
    MX,
    /// Page address order
    MY,
}

impl DisplayMADCTL {
    /// The single bit this flag sets in the memory-access-control byte.
    pub open spec fn spec_bits(self) -> u8 {
        match self {
            DisplayMADCTL::MH => 0b00000100,
            DisplayMADCTL::RGB => 0b00001000,
            DisplayMADCTL::ML => 0b00010000,
            DisplayMADCTL::MV => 0b00100000,
            DisplayMADCTL::MX => 0b01000000,
            DisplayMADCTL::MY => 0b10000000,
        }
    }

    /// The single bit this flag sets in the memory-access-control byte.
    #[verifier::when_used_as_spec(spec_bits)]
    pub fn bits(self) -> (r: u8)
        ensures
            r == self.spec_bits(),
    {
        match self {
            DisplayMADCTL::MH => 0b00000100,
            DisplayMADCTL::RGB => 0b00001000,
            DisplayMADCTL::ML => 0b00010000,
            DisplayMADCTL::MV => 0b00100000,
            DisplayMADCTL::MX => 0b01000000,
            DisplayMADCTL::MY => 0b10000000,
        }
    }
}

/// The four supported display orientations.
#[derive(Clone, Copy, Debug, PartialEq, Eq, Structural)]
pub enum DisplayRotation {
    Portrait,
    /// `DisplayMADCTL::MV | DisplayMADCTL::MX`
    Landscape,
    /// `DisplayMADCTL::MV | DisplayMADCTL::MY`
    InvertedLandscape,
    /// `DisplayMADCTL::MX | DisplayMADCTL::MY`
    InvertedPortrait,
}

impl DisplayRotation {
    /// The memory-access-control byte programming this orientation.
    pub open spec fn spec_byte(self) -> u8 {
        match self {
            DisplayRotation::Portrait => 0b00000000,
            DisplayRotation::Landscape => 0b01100000,
            DisplayRotation::InvertedLandscape => 0b10100000,
            DisplayRotation::InvertedPortrait => 0b11000000,
        }
    }

    /// The memory-access-control byte programming this orientation.
    #[verifier::when_used_as_spec(spec_byte)]
    pub fn byte(self) -> (r: u8)
        ensures
            r == self.spec_byte(),
    {
        match self {
            DisplayRotation::Portrait => 0b00000000,
            DisplayRotation::Landscape => 0b01100000,
            DisplayRotation::InvertedLandscape => 0b10100000,
            DisplayRotation::InvertedPortrait => 0b11000000,
        }
    }
}

/// Each orientation byte is the union of the documented memory-access
/// flags: no flag for portrait, swap-and-mirror combinations for the
/// other three.
pub proof fn lemma_rotation_bytes_combine_madctl_flags()
    ensures
        DisplayRotation::Portrait.spec_byte() == 0u8,
        DisplayRotation::Landscape.spec_byte() == (DisplayMADCTL::MV.spec_bits()
            | DisplayMADCTL::MX.spec_bits()),
        DisplayRotation::InvertedLandscape.spec_byte() == (DisplayMADCTL::MV.spec_bits()
            | DisplayMADCTL::MY.spec_bits()),
        DisplayRotation::InvertedPortrait.spec_byte() == (DisplayMADCTL::MX.spec_bits()
            | DisplayMADCTL::MY.spec_bits()),
{
    assert(0b00100000u8 | 0b01000000u8 == 0b01100000u8) by (bit_vector);
    assert(0b00100000u8 | 0b10000000u8 == 0b10100000u8) by (bit_vector);
    assert(0b01000000u8 | 0b10000000u8 == 0b11000000u8) by (bit_vector);
}

} // verus!
