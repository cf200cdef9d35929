use vstd::prelude::*;

use crate::color::{spec_bits, WBRYColor};
use crate::driver::{pixel_count, WeAct154Display, HEIGHT, WIDTH};
use crate::packing::{
    code_at, lemma_code_range, lemma_slot_shift, lemma_with_code, pixel_at, pixels_of, slot_shift, with_code,
};

verus! {

/// Whether `(x, y)` lies on the panel.
pub open spec fn in_bounds(x: i32, y: i32) -> bool {
    0 <= x < WIDTH && 0 <= y < HEIGHT
}

/// The position of pixel `(x, y)` in row-major order.
pub open spec fn pixel_index(x: i32, y: i32) -> int {
    y * WIDTH + x
}

/// The color read at `(x, y)`, or `None` off the panel.
pub open spec fn pixel_read(pixels: Seq<WBRYColor>, x: i32, y: i32) -> Option<WBRYColor> {
    if in_bounds(x, y) {
        Some(pixels[pixel_index(x, y)])
    } else {
        None
    }
}

/// The pixels after drawing `color` at `(x, y)`; a position off the panel
/// changes nothing.
pub open spec fn pixels_after_set(
    pixels: Seq<WBRYColor>,
    x: i32,
    y: i32,
    color: WBRYColor,
) -> Seq<WBRYColor> {
    if in_bounds(x, y) {
        pixels.update(pixel_index(x, y), color)
    } else {
        pixels
    }
}

impl<SPI, DC, BUSY, DELAY, RESET> WeAct154Display<SPI, DC, BUSY, DELAY, RESET> {
    /// Sets a single pixel in the framebuffer.
    ///
    /// Coordinates outside the display bounds are silently ignored.
    pub fn set_pixel(&mut self, x: i32, y: i32, color: WBRYColor)
        ensures
            final(self).pixels() == pixels_after_set(old(self).pixels(), x, y, color),
            !in_bounds(x, y) ==> final(self)@ == old(self)@,
            final(self).parts() == old(self).parts(),
            // Every position of the 200x200 panel is drawn, row-major and most
            // significant bits first: byte (y * 200 + x) / 4 gets the color's
            // code at bit offset 6 - 2 * ((y * 200 + x) % 4); nothing else changes.
            0 <= x < 200 && 0 <= y < 200 ==> {
                let p = y * 200 + x;
                let s = (6 - 2 * (p % 4)) as u8;
                &&& final(self)@.len() == old(self)@.len()
                &&& forall|i: int|
                    0 <= i < old(self)@.len() && i != p / 4 ==> #[trigger] final(self)@[i]
                        == old(self)@[i]
                &&& (final(self)@[p / 4] >> s) & 3u8 == spec_bits(color)
                &&& forall|t: u8|
                    (t == 0 || t == 2 || t == 4 || t == 6) && t != s ==> #[trigger] ((final(self)@[p
                        / 4] >> t) & 3u8) == (old(self)@[p / 4] >> t) & 3u8
            },
            !(0 <= x < 200 && 0 <= y < 200) ==> final(self)@ == old(self)@,
    {
        proof {
            self.lemma_frame_len();
        }
        if x < 0 || y < 0 || x >= WIDTH as i32 || y >= HEIGHT as i32 {
            return;
        }
        let pixel: u32 = y as u32 * WIDTH + x as u32;
        let byte_index: u32 = pixel / 4;
        let pixel_in_byte: u32 = pixel % 4;
        let shift: u8 = (6 - pixel_in_byte * 2) as u8;
        let code: u8 = color.bits();

        let ghost before = self@;
        let buffer = self.frame_buffer_mut();
        let byte: u8 = buffer[byte_index as usize];
        let updated: u8 = (byte & !(0b11u8 << shift)) | (code << shift);
        buffer[byte_index as usize] = updated;

        proof {
            let q = pixel_index(x, y);
            assert(q == pixel as int);
            assert(shift == slot_shift(q));
            assert(updated == with_code(before[q / 4], shift, code));
            assert(self@ == before.update(q / 4, updated));
            let after = self@;
            assert forall|p: int| 0 <= p < pixel_count() implies pixel_at(after, p) == (
            if p == q {
                color
            } else {
                pixel_at(before, p)
            }) by {
                lemma_slot_shift(p, q);
                lemma_with_code(before[q / 4], shift, code, slot_shift(p));
                if p == q {
                    assert(code_at(after, p) == spec_bits(color));
                } else if p / 4 == q / 4 {
                    assert(code_at(after, p) == code_at(before, p));
                } else {
                    assert(after[p / 4] == before[p / 4]);
                }
            }
            assert(pixels_of(after) =~= pixels_of(before).update(q, color));
            lemma_with_code(before[q / 4], shift, code, shift);
            assert((after[q / 4] >> shift) & 3u8 == spec_bits(color));
            assert(after.len() == before.len());
            assert(forall|i: int| 0 <= i < before.len() && i != q / 4 ==> after[i] == before[i]);
            assert forall|t: u8|
                (t == 0 || t == 2 || t == 4 || t == 6) && t != shift implies (#[trigger] (after[q
                / 4] >> t) & 3u8) == (before[q / 4] >> t) & 3u8 by {
                lemma_with_code(before[q / 4], shift, code, t);
            }
        }
    }

    /// Reads the color of a pixel from the framebuffer.
    ///
    /// Returns `None` if coordinates are out of bounds.
    pub fn get_pixel(&self, x: i32, y: i32) -> (color: Option<WBRYColor>)
        ensures
            color == pixel_read(self.pixels(), x, y),
            // Every position of the 200x200 panel, and only those, reads a
            // color: the code at bit offset 6 - 2 * ((y * 200 + x) % 4) of byte
            // (y * 200 + x) / 4.
            color is Some <==> (0 <= x < 200 && 0 <= y < 200),
            0 <= x < 200 && 0 <= y < 200 ==> spec_bits(color->0) == (self@[(y * 200 + x) / 4] >> ((6
                - 2 * ((y * 200 + x) % 4)) as u8)) & 3u8,
    {
        proof {
            self.lemma_frame_len();
        }
        if x < 0 || y < 0 || x >= WIDTH as i32 || y >= HEIGHT as i32 {
            return None;
        }
        let pixel: u32 = y as u32 * WIDTH + x as u32;
        let byte_index: u32 = pixel / 4;
        let pixel_in_byte: u32 = pixel % 4;
        let shift: u8 = (6 - pixel_in_byte * 2) as u8;

        let byte: u8 = self.frame_buffer()[byte_index as usize];
        let bits: u8 = (byte >> shift) & 0b11;
        proof {
            let q = pixel_index(x, y);
            assert(q == pixel as int);
            assert(shift == slot_shift(q));
            assert(bits == code_at(self@, q));
            lemma_code_range(self@[q / 4], shift);
        }
        Some(WBRYColor::from_bits(bits))
    }
}

/// Reading a pixel after drawing it gives the color drawn.
pub proof fn lemma_read_after_set(pixels: Seq<WBRYColor>, x: i32, y: i32, color: WBRYColor)
    requires
        pixels.len() == pixel_count(),
        in_bounds(x, y),
    ensures
        pixel_read(pixels_after_set(pixels, x, y, color), x, y) == Some(color),
{
}

/// Drawing a pixel leaves every other pixel as it was.
pub proof fn lemma_set_leaves_others(
    pixels: Seq<WBRYColor>,
    x: i32,
    y: i32,
    color: WBRYColor,
    x2: i32,
    y2: i32,
)
    requires
        pixels.len() == pixel_count(),
        x != x2 || y != y2,
    ensures
        pixel_read(pixels_after_set(pixels, x, y, color), x2, y2) == pixel_read(pixels, x2, y2),
{
    if in_bounds(x, y) && in_bounds(x2, y2) {
        assert(pixel_index(x, y) != pixel_index(x2, y2));
    }
}

/// Of two draws at the same position, the later one wins.
pub proof fn lemma_last_set_wins(
    pixels: Seq<WBRYColor>,
    x: i32,
    y: i32,
    first: WBRYColor,
    second: WBRYColor,
)
    requires
        pixels.len() == pixel_count(),
    ensures
        pixels_after_set(pixels_after_set(pixels, x, y, first), x, y, second) == pixels_after_set(
            pixels,
            x,
            y,
            second,
        ),
{
    assert(pixels_after_set(pixels_after_set(pixels, x, y, first), x, y, second) =~= pixels_after_set(
        pixels,
        x,
        y,
        second,
    ));
}

/// Drawing the color a pixel already has changes nothing.
pub proof fn lemma_set_same_color(pixels: Seq<WBRYColor>, x: i32, y: i32, color: WBRYColor)
    requires
        pixels.len() == pixel_count(),
        pixel_read(pixels, x, y) == Some(color),
    ensures
        pixels_after_set(pixels, x, y, color) == pixels,
{
    assert(pixels_after_set(pixels, x, y, color) =~= pixels);
}

/// Positions off the panel read as `None`, and drawing there changes
/// nothing; every position on the panel has a pixel.
pub proof fn lemma_off_panel(pixels: Seq<WBRYColor>, x: i32, y: i32, color: WBRYColor)
    requires
        pixels.len() == pixel_count(),
    ensures
        !in_bounds(x, y) ==> pixel_read(pixels, x, y) is None,
        !in_bounds(x, y) ==> pixels_after_set(pixels, x, y, color) == pixels,
        in_bounds(x, y) ==> 0 <= pixel_index(x, y) < pixel_count(),
{
}

/// The panel's pixels are kept row by row: on the 200x200 panel, `(x, y)`
/// is pixel `y * 200 + x`, which a read returns and a draw replaces; every
/// other position reads as `None` and is never drawn.
pub proof fn lemma_row_major(pixels: Seq<WBRYColor>, x: i32, y: i32, color: WBRYColor)
    requires
        pixels.len() == 40000,
    ensures
        0 <= x < 200 && 0 <= y < 200 ==> pixel_read(pixels, x, y) == Some(pixels[y * 200 + x]),
        0 <= x < 200 && 0 <= y < 200 ==> pixels_after_set(pixels, x, y, color) == pixels.update(
            y * 200 + x,
            color,
        ),
        !(0 <= x < 200 && 0 <= y < 200) ==> pixel_read(pixels, x, y) is None,
        !(0 <= x < 200 && 0 <= y < 200) ==> pixels_after_set(pixels, x, y, color) == pixels,
{
}

} // verus!
