//! Glyphs of a 5x5 font.

use crate::pixeldisplay::Render;
use vstd::prelude::*;

verus! {

/// Brightness of a lit pixel of a glyph.
pub const GLYPH_BRIGHTNESS: u8 = 9;

/// True when a row of font data lights the pixel in column `col`. The five low bits of
/// the byte stand for the five columns, the lowest bit for the rightmost column.
pub open spec fn pixel_lit(byte: u8, col: int) -> bool {
    byte & (16u8 >> (col as u8)) != 0
}

/// The pixels that one byte of font data stands for.
fn row_bits(byte: u8) -> (row: [u8; 5])
    ensures
        forall|c: int|
            0 <= c < 5 ==> #[trigger] row[c] == if pixel_lit(byte, c) {
                GLYPH_BRIGHTNESS
            } else {
                0
            },
{
    assert(16u8 >> 0u8 == 1u8 << 4u8 && 16u8 >> 1u8 == 1u8 << 3u8 && 16u8 >> 2u8 == 1u8 << 2u8
        && 16u8 >> 3u8 == 1u8 << 1u8 && 16u8 >> 4u8 == 1u8 << 0u8) by (bit_vector);
    [
        if byte & (1u8 << 4) != 0 {
            GLYPH_BRIGHTNESS
        } else {
            0
        },
        if byte & (1u8 << 3) != 0 {
            GLYPH_BRIGHTNESS
        } else {
            0
        },
        if byte & (1u8 << 2) != 0 {
            GLYPH_BRIGHTNESS
        } else {
            0
        },
        if byte & (1u8 << 1) != 0 {
            GLYPH_BRIGHTNESS
        } else {
            0
        },
        if byte & (1u8 << 0) != 0 {
            GLYPH_BRIGHTNESS
        } else {
            0
        },
    ]
}

/// Returns the image that five bytes of font data stand for, one byte per row from
/// top to bottom.
pub fn font_entry(data: [u8; 5]) -> (render: Render)
    ensures
        render@.len() == 5,
        forall|r: int| 0 <= r < 5 ==> (#[trigger] render@[r]).len() == 5,
        forall|r: int, c: int|
            0 <= r < 5 && 0 <= c < 5 ==> #[trigger] render@[r][c] == if pixel_lit(data[r], c) {
                GLYPH_BRIGHTNESS
            } else {
                0
            },
{
    Render::new_from(
        &[
            row_bits(data[0]),
            row_bits(data[1]),
            row_bits(data[2]),
            row_bits(data[3]),
            row_bits(data[4]),
        ],
    )
}

/// The characters whose glyphs are five columns wide.
pub open spec fn spec_wide_char(c: char) -> bool {
    c == 'G' || c == 'g' || c == 'a' || c == 'M' || c == 'm' || c == 'V' || c == 'v' || c == 'N'
        || c == 'T'
}

/// Tells whether the glyph of a character is wide, that is, five columns wide.
#[verifier::when_used_as_spec(spec_wide_char)]
pub fn wide_char(c: char) -> (wide: bool)
    ensures
        wide == spec_wide_char(c),
{
    let wide_chars = ['G', 'g', 'a', 'M', 'm', 'V', 'v', 'N', 'T'];
    let mut i: usize = 0;
    while i < 9
        invariant
            i <= 9,
            wide_chars@ == seq!['G', 'g', 'a', 'M', 'm', 'V', 'v', 'N', 'T'],
            forall|j: int| 0 <= j < i ==> wide_chars[j] != c,
        decreases 9 - i,
    {
        if wide_chars[i] == c {
            return true;
        }
        i += 1;
    }
    false
}

} // verus!
