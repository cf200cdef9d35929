use vstd::prelude::*;

use crate::color::{spec_bits, spec_from_bits, WBRYColor};

verus! {

/// Bit offset, within its byte, of the two-bit code of pixel `p`: the first
/// pixel of a byte sits in the two most significant bits.
pub open spec fn slot_shift(p: int) -> u8 {
    (6 - 2 * (p % 4)) as u8
}

/// The two-bit code of pixel `p` in a packed frame.
pub open spec fn code_at(frame: Seq<u8>, p: int) -> u8 {
    (frame[p / 4] >> slot_shift(p)) & 3u8
}

/// The color of pixel `p` in a packed frame.
pub open spec fn pixel_at(frame: Seq<u8>, p: int) -> WBRYColor {
    spec_from_bits(code_at(frame, p))
}

/// The pixels that a packed frame holds, four per byte, in order.
pub open spec fn pixels_of(frame: Seq<u8>) -> Seq<WBRYColor> {
    Seq::new(frame.len() * 4, |p: int| pixel_at(frame, p))
}

/// `byte` with the two bits at `shift` replaced by `code`.
pub open spec fn with_code(byte: u8, shift: u8, code: u8) -> u8 {
    (byte & !(3u8 << shift)) | (code << shift)
}

/// The byte whose four pixels all have the given color.
pub open spec fn color_pattern(color: WBRYColor) -> u8 {
    match color {
        WBRYColor::BLACK => 0x00u8,
        WBRYColor::WHITE => 0x55u8,
        WBRYColor::YELLOW => 0xAAu8,
        WBRYColor::RED => 0xFFu8,
    }
}

/// A valid slot offset.
pub open spec fn is_slot_shift(s: u8) -> bool {
    s == 0 || s == 2 || s == 4 || s == 6
}

/// Replacing the code in one slot of a byte gives that slot the new code and
/// leaves the other three slots as they were.
pub proof fn lemma_with_code(byte: u8, shift: u8, code: u8, other: u8)
    requires
        is_slot_shift(shift),
        is_slot_shift(other),
        code <= 3,
    ensures
        (with_code(byte, shift, code) >> shift) & 3u8 == code,
        other != shift ==> (with_code(byte, shift, code) >> other) & 3u8 == (byte >> other) & 3u8,
{
    assert((((byte & !(3u8 << shift)) | (code << shift)) >> shift) & 3u8 == code) by (bit_vector)
        requires
            shift == 0u8 || shift == 2u8 || shift == 4u8 || shift == 6u8,
            code <= 3u8,
    ;
    assert(other != shift ==> (((byte & !(3u8 << shift)) | (code << shift)) >> other) & 3u8 == (
    byte >> other) & 3u8) by (bit_vector)
        requires
            shift == 0u8 || shift == 2u8 || shift == 4u8 || shift == 6u8,
            other == 0u8 || other == 2u8 || other == 4u8 || other == 6u8,
            code <= 3u8,
    ;
}

/// A byte is determined by the codes in its four slots.
pub proof fn lemma_codes_determine_byte(a: u8, b: u8)
    requires
        (a >> 6u8) & 3u8 == (b >> 6u8) & 3u8,
        (a >> 4u8) & 3u8 == (b >> 4u8) & 3u8,
        (a >> 2u8) & 3u8 == (b >> 2u8) & 3u8,
        (a >> 0u8) & 3u8 == (b >> 0u8) & 3u8,
    ensures
        a == b,
{
    assert(a == b) by (bit_vector)
        requires
            (a >> 6u8) & 3u8 == (b >> 6u8) & 3u8,
            (a >> 4u8) & 3u8 == (b >> 4u8) & 3u8,
            (a >> 2u8) & 3u8 == (b >> 2u8) & 3u8,
            (a >> 0u8) & 3u8 == (b >> 0u8) & 3u8,
    ;
}

/// Every slot of a color's pattern byte holds that color's code.
pub proof fn lemma_color_pattern(color: WBRYColor, shift: u8)
    requires
        is_slot_shift(shift),
    ensures
        (color_pattern(color) >> shift) & 3u8 == spec_bits(color),
{
    assert((0x00u8 >> shift) & 3u8 == 0u8) by (bit_vector);
    assert(shift == 0u8 || shift == 2u8 || shift == 4u8 || shift == 6u8 ==> (0x55u8 >> shift) & 3u8
        == 1u8) by (bit_vector);
    assert(shift == 0u8 || shift == 2u8 || shift == 4u8 || shift == 6u8 ==> (0xAAu8 >> shift) & 3u8
        == 2u8) by (bit_vector);
    assert(shift == 0u8 || shift == 2u8 || shift == 4u8 || shift == 6u8 ==> (0xFFu8 >> shift) & 3u8
        == 3u8) by (bit_vector);
}

/// A two-bit code read from a byte is at most `0b11`.
pub proof fn lemma_code_range(byte: u8, shift: u8)
    ensures
        (byte >> shift) & 3u8 <= 3,
{
    assert((byte >> shift) & 3u8 <= 3u8) by (bit_vector);
}

/// The slot offset of every pixel is a valid one, and two pixels of the same
/// byte share an offset only when they are the same pixel.
pub proof fn lemma_slot_shift(p: int, q: int)
    requires
        0 <= p,
        0 <= q,
    ensures
        is_slot_shift(slot_shift(p)),
        p / 4 == q / 4 && p != q ==> slot_shift(p) != slot_shift(q),
{
}

/// Two frames that show the same color at pixel `p` hold the same code there.
proof fn lemma_same_code(a: Seq<u8>, b: Seq<u8>, p: int)
    requires
        0 <= p < a.len() * 4,
        a.len() == b.len(),
        pixels_of(a) == pixels_of(b),
    ensures
        code_at(a, p) == code_at(b, p),
{
    assert(pixels_of(a)[p] == pixels_of(b)[p]);
    assert(pixels_of(a)[p] == pixel_at(a, p));
    assert(pixels_of(b)[p] == pixel_at(b, p));
    assert(spec_from_bits(code_at(a, p)) == spec_from_bits(code_at(b, p)));
    lemma_code_range(a[p / 4], slot_shift(p));
    lemma_code_range(b[p / 4], slot_shift(p));
    assert(spec_bits(spec_from_bits(code_at(a, p))) == code_at(a, p));
    assert(spec_bits(spec_from_bits(code_at(b, p))) == code_at(b, p));
}

/// A packed frame is determined by its pixels: two frames of the same length
/// that show the same pixels hold the same bytes.
pub proof fn lemma_pixels_determine_frame(a: Seq<u8>, b: Seq<u8>)
    requires
        a.len() == b.len(),
        pixels_of(a) == pixels_of(b),
    ensures
        a == b,
{
    assert forall|i: int| 0 <= i < a.len() implies a[i] == b[i] by {
        lemma_same_code(a, b, 4 * i);
        lemma_same_code(a, b, 4 * i + 1);
        lemma_same_code(a, b, 4 * i + 2);
        lemma_same_code(a, b, 4 * i + 3);
        lemma_codes_determine_byte(a[i], b[i]);
    }
    assert(a =~= b);
}

/// A frame of pattern bytes shows a single color everywhere.
pub proof fn lemma_pattern_frame(n: nat, color: WBRYColor)
    ensures
        pixels_of(Seq::new(n, |i: int| color_pattern(color))) =~= Seq::new(n * 4, |p: int| color),
{
    let frame = Seq::new(n, |i: int| color_pattern(color));
    assert forall|p: int| 0 <= p < n * 4 implies pixels_of(frame)[p] == color by {
        lemma_slot_shift(p, p);
        lemma_color_pattern(color, slot_shift(p));
        assert(frame[p / 4] == color_pattern(color));
    }
}

/// Four pixels per byte, most significant bits first, in every byte: pixels
/// `4 * i` to `4 * i + 3` are the codes at bit offsets 6, 4, 2 and 0 of byte `i`.
pub proof fn lemma_msb_first(frame: Seq<u8>, i: int)
    requires
        0 <= i < frame.len(),
    ensures
        pixels_of(frame)[4 * i] == spec_from_bits((frame[i] >> 6u8) & 3u8),
        pixels_of(frame)[4 * i + 1] == spec_from_bits((frame[i] >> 4u8) & 3u8),
        pixels_of(frame)[4 * i + 2] == spec_from_bits((frame[i] >> 2u8) & 3u8),
        pixels_of(frame)[4 * i + 3] == spec_from_bits(frame[i] & 3u8),
{
    let b = frame[i];
    assert((b >> 0u8) & 3u8 == b & 3u8) by (bit_vector);
    assert((4 * i) / 4 == i && (4 * i + 1) / 4 == i && (4 * i + 2) / 4 == i && (4 * i + 3) / 4 == i);
}

} // verus!
