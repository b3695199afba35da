//! Brightness of a pixel and the glyph that stands for it.
use vstd::prelude::*;

verus! {

/// Number of glyphs in the ramp.
pub const RAMP_LEN: usize = 11;

/// The ramp, from the darkest glyph (index 0) to the lightest.
pub open spec fn ramp() -> Seq<char> {
    seq!['@', '#', '0', 'O', 'L', ';', ':', '.', ',', '\'', ' ']
}

/// Brightness of a pixel: the plain average of its red, green and blue
/// channels, rounded down; alpha plays no part.
pub open spec fn brightness_of(r: u8, g: u8, b: u8) -> int {
    (r + g + b) / 3
}

/// `round(b / 255 * 10)`, rounding halves up. `20 * b + 255` is never an odd
/// multiple of 255, so no value ever lies half way and the rounding
/// direction of halves does not matter.
pub open spec fn ramp_index_of(b: int) -> int {
    (20 * b + 255) / 510
}

/// The glyph that stands for brightness `b`.
pub open spec fn glyph_of(b: int) -> char {
    ramp()[ramp_index_of(b)]
}

/// Brightness of the pixel with channels `r`, `g`, `b`.
pub fn brightness(r: u8, g: u8, b: u8) -> (res: u8)
    ensures
        res as int == brightness_of(r, g, b),
{
    let sum: u16 = r as u16 + g as u16 + b as u16;
    (sum / 3) as u8
}

/// Position in the ramp of the glyph for `brightness`.
pub fn ramp_index(brightness: u8) -> (i: usize)
    ensures
        i as int == ramp_index_of(brightness as int),
        i < RAMP_LEN,
        brightness == 0 ==> i == 0,
        brightness == 255 ==> i == RAMP_LEN - 1,
{
    let scaled: u32 = 20 * (brightness as u32) + 255;
    (scaled / 510) as usize
}

/// The glyph for `brightness`, as a one-character string.
pub fn glyph(brightness: u8) -> (s: &'static str)
    ensures
        s@ == seq![glyph_of(brightness as int)],
        brightness == 0 ==> s@ == seq![ramp()[0]],
        brightness == 255 ==> s@ == seq![ramp()[RAMP_LEN - 1]],
{
    let i: usize = ramp_index(brightness);
    if i == 0 {
        proof { reveal_strlit("@"); }
        "@"
    } else if i == 1 {
        proof { reveal_strlit("#"); }
        "#"
    } else if i == 2 {
        proof { reveal_strlit("0"); }
        "0"
    } else if i == 3 {
        proof { reveal_strlit("O"); }
        "O"
    } else if i == 4 {
        proof { reveal_strlit("L"); }
        "L"
    } else if i == 5 {
        proof { reveal_strlit(";"); }
        ";"
    } else if i == 6 {
        proof { reveal_strlit(":"); }
        ":"
    } else if i == 7 {
        proof { reveal_strlit("."); }
        "."
    } else if i == 8 {
        proof { reveal_strlit(","); }
        ","
    } else if i == 9 {
        proof { reveal_strlit("'"); }
        "'"
    } else {
        proof { reveal_strlit(" "); }
        " "
    }
}

} // verus!
