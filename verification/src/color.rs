use vstd::prelude::*;

verus! {

/// Four-color pixel type for the WeAct 1.54" e-paper display.
///
/// Each pixel uses two bits: black `0b00`, white `0b01`, yellow `0b10`,
/// red `0b11`. The packed framebuffer stores four pixels per byte in
/// big-endian order (MSB first).
#[derive(Copy, Clone, Eq, PartialEq, Ord, PartialOrd, Hash, Debug, Structural)]
pub enum WBRYColor {
    /// Black (0b00).
    BLACK,
    /// White (0b01).
    WHITE,
    /// Yellow (0b10).
    YELLOW,
    /// Red (0b11).
    RED,
}

/// The two-bit code of a color.
pub open spec fn spec_bits(color: WBRYColor) -> u8 {
    match color {
        WBRYColor::BLACK => 0u8,
        WBRYColor::WHITE => 1u8,
        WBRYColor::YELLOW => 2u8,
        WBRYColor::RED => 3u8,
    }
}

/// The color of a raw value: the two-bit codes map to their colors, and any
/// value above `0b11` is clamped to red.
pub open spec fn spec_from_bits(bits: u8) -> WBRYColor {
    if bits == 0 {
        WBRYColor::BLACK
    } else if bits == 1 {
        WBRYColor::WHITE
    } else if bits == 2 {
        WBRYColor::YELLOW
    } else {
        WBRYColor::RED
    }
}

impl WBRYColor {
    /// Reconstructs a color from its raw two-bit value.
    ///
    /// Any value above `0b11` is clamped to `RED`.
    pub fn from_bits(bits: u8) -> (color: Self)
        ensures
            color == spec_from_bits(bits),
    {
        match bits {
            0 => WBRYColor::BLACK,
            1 => WBRYColor::WHITE,
            2 => WBRYColor::YELLOW,
            _ => WBRYColor::RED,
        }
    }

    /// Returns the raw two-bit value of this color.
    pub fn bits(self) -> (bits: u8)
        ensures
            bits == spec_bits(self),
            bits <= 3,
    {
        match self {
            WBRYColor::BLACK => 0,
            WBRYColor::WHITE => 1,
            WBRYColor::YELLOW => 2,
            WBRYColor::RED => 3,
        }
    }
}

impl Default for WBRYColor {
    /// The default color is white, the color of a blank panel.
    fn default() -> (color: Self)
        ensures
            color == WBRYColor::WHITE,
    {
        WBRYColor::WHITE
    }
}

/// Converting a color to its two-bit value and back gives the same color.
pub proof fn lemma_bits_round_trip(color: WBRYColor)
    ensures
        spec_from_bits(spec_bits(color)) == color,
        spec_bits(color) <= 3,
{
}

/// Every raw value is either one of the four codes, read back unchanged, or
/// above `0b11` and read as red; distinct colors have distinct codes.
pub proof fn lemma_from_bits_codes(bits: u8, a: WBRYColor, b: WBRYColor)
    ensures
        bits <= 3 ==> spec_bits(spec_from_bits(bits)) == bits,
        bits > 3 ==> spec_from_bits(bits) == WBRYColor::RED,
        spec_bits(a) == spec_bits(b) ==> a == b,
{
}

/// The codes of the colors: black `0b00`, white `0b01`, yellow `0b10`, red
/// `0b11`; reading a raw value gives the color of that code, and red for
/// anything above `0b11`.
pub proof fn lemma_color_codes(bits: u8)
    ensures
        spec_bits(WBRYColor::BLACK) == 0,
        spec_bits(WBRYColor::WHITE) == 1,
        spec_bits(WBRYColor::YELLOW) == 2,
        spec_bits(WBRYColor::RED) == 3,
        spec_from_bits(0) == WBRYColor::BLACK,
        spec_from_bits(1) == WBRYColor::WHITE,
        spec_from_bits(2) == WBRYColor::YELLOW,
        spec_from_bits(3) == WBRYColor::RED,
        bits > 3 ==> spec_from_bits(bits) == WBRYColor::RED,
{
}

} // verus!
