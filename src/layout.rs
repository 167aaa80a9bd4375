//! The fixed layout of the generated image: a square gray canvas with two
//! lines of black text, one in each half-height band.
use vstd::prelude::*;

verus! {

/// The side of the square canvas, in pixels.
pub const CANVAS_SIZE: u32 = 256;

/// The height of one band; each band holds one line of text.
pub const BAND_HEIGHT: u32 = 128;

/// An 8-bit RGBA colour.
#[derive(Clone, Copy, Debug, PartialEq, Eq, Structural)]
pub struct Color {
    pub r: u8,
    pub g: u8,
    pub b: u8,
    pub a: u8,
}

/// One line of text, drawn from `(x, y)` and scaled to fill a band of
/// `band_height` pixels across the whole canvas width.
#[derive(Debug)]
pub struct TextLine {
    pub text: String,
    pub x: i32,
    pub y: i32,
    pub band_height: u32,
}

/// What to draw: the canvas size, its background, the text colour and the
/// lines of text, top to bottom.
#[derive(Debug)]
pub struct Layout {
    pub width: u32,
    pub height: u32,
    pub background: Color,
    pub ink: Color,
    pub lines: Vec<TextLine>,
}

/// The background colour: opaque gray.
pub open spec fn background_gray() -> Color {
    Color { r: 192, g: 192, b: 192, a: 255 }
}

/// The text colour: opaque black.
pub open spec fn ink_black() -> Color {
    Color { r: 0, g: 0, b: 0, a: 255 }
}

/// The texts of the top and bottom lines for a label: the two halves of the
/// shop's name when the label is empty, else the label over the full name.
pub open spec fn line_texts(label: Seq<char>) -> (Seq<char>, Seq<char>) {
    if label.len() == 0 {
        ("おわ"@, "りや"@)
    } else {
        (label, "おわりや"@)
    }
}

/// Whether `line` holds `text`, starts at the left edge at height `y` and
/// fills one band.
pub open spec fn line_at(line: TextLine, text: Seq<char>, y: int) -> bool {
    &&& line.text@ == text
    &&& line.x == 0
    &&& line.y == y
    &&& line.band_height == BAND_HEIGHT
}

/// The layout of the image for a label: a 256 by 256 gray canvas, the first
/// line of `line_texts` in the top band and the second in the bottom band,
/// in black.
pub fn owariya_layout(label: String) -> (r: Layout)
    ensures
        r.width == CANVAS_SIZE,
        r.height == CANVAS_SIZE,
        r.background == background_gray(),
        r.ink == ink_black(),
        r.lines@.len() == 2,
        line_at(r.lines@[0], line_texts(label@).0, 0),
        line_at(r.lines@[1], line_texts(label@).1, BAND_HEIGHT as int),
{
    let (top, bottom) = if label.as_str().unicode_len() == 0 {
        (String::from_str("おわ"), String::from_str("りや"))
    } else {
        (label, String::from_str("おわりや"))
    };
    let lines = vec![
        TextLine { text: top, x: 0, y: 0, band_height: BAND_HEIGHT },
        TextLine { text: bottom, x: 0, y: BAND_HEIGHT as i32, band_height: BAND_HEIGHT },
    ];
    Layout {
        width: CANVAS_SIZE,
        height: CANVAS_SIZE,
        background: Color { r: 192, g: 192, b: 192, a: 255 },
        ink: Color { r: 0, g: 0, b: 0, a: 255 },
        lines,
    }
}

} // verus!
