use vstd::prelude::*;

use crate::color::TerminalColor;
use crate::grid::rows_view;
use crate::screen::TerminalCell;

verus! {

/// An 8-bit RGBA color as the renderer draws it.
#[derive(Debug, Clone, Copy, PartialEq, Eq, Structural)]
pub struct Color {
    pub r: u8,
    pub g: u8,
    pub b: u8,
    pub a: u8,
}

impl Color {
    pub fn new(r: u8, g: u8, b: u8, a: u8) -> (c: Self)
        ensures
            c == (Color { r, g, b, a }),
    {
        Self { r, g, b, a }
    }
}

/// The opaque RGBA value that a terminal color is drawn with: pure
/// primaries for the normal colors, lightened ones for the bright colors,
/// and the value itself for a direct color.
pub open spec fn rgba_of(c: TerminalColor) -> Color {
    let (r, g, b) = match c {
        TerminalColor::Black => (0u8, 0u8, 0u8),
        TerminalColor::Red => (255, 0, 0),
        TerminalColor::Green => (0, 255, 0),
        TerminalColor::Yellow => (255, 255, 0),
        TerminalColor::Blue => (0, 0, 255),
        TerminalColor::Magenta => (255, 0, 255),
        TerminalColor::Cyan => (0, 255, 255),
        TerminalColor::White => (255, 255, 255),
        TerminalColor::BrightBlack => (100, 100, 100),
        TerminalColor::BrightRed => (255, 100, 100),
        TerminalColor::BrightGreen => (100, 255, 100),
        TerminalColor::BrightYellow => (255, 255, 100),
        TerminalColor::BrightBlue => (100, 100, 255),
        TerminalColor::BrightMagenta => (255, 100, 255),
        TerminalColor::BrightCyan => (100, 255, 255),
        TerminalColor::BrightWhite => (255, 255, 255),
        TerminalColor::Rgb(r, g, b) => (r, g, b),
    };
    Color { r, g, b, a: 255 }
}

/// The RGBA value that `c` is drawn with.
pub fn color_of(c: TerminalColor) -> (r: Color)
    ensures
        r == rgba_of(c),
{
    match c {
        TerminalColor::Black => Color::new(0, 0, 0, 255),
        TerminalColor::Red => Color::new(255, 0, 0, 255),
        TerminalColor::Green => Color::new(0, 255, 0, 255),
        TerminalColor::Yellow => Color::new(255, 255, 0, 255),
        TerminalColor::Blue => Color::new(0, 0, 255, 255),
        TerminalColor::Magenta => Color::new(255, 0, 255, 255),
        TerminalColor::Cyan => Color::new(0, 255, 255, 255),
        TerminalColor::White => Color::new(255, 255, 255, 255),
        TerminalColor::BrightBlack => Color::new(100, 100, 100, 255),
        TerminalColor::BrightRed => Color::new(255, 100, 100, 255),
        TerminalColor::BrightGreen => Color::new(100, 255, 100, 255),
        TerminalColor::BrightYellow => Color::new(255, 255, 100, 255),
        TerminalColor::BrightBlue => Color::new(100, 100, 255, 255),
        TerminalColor::BrightMagenta => Color::new(255, 100, 255, 255),
        TerminalColor::BrightCyan => Color::new(100, 255, 255, 255),
        TerminalColor::BrightWhite => Color::new(255, 255, 255, 255),
        TerminalColor::Rgb(r, g, b) => Color::new(r, g, b, 255),
    }
}

/// How a glyph's image is stored in the atlas.
#[derive(Debug, Clone, Copy, PartialEq, Eq, Structural)]
pub enum GlyphImageFormat {
    Color,
    GrayScale,
}

/// Where a glyph's image lies in the atlas, in pixels.
#[derive(Debug, Clone, Copy, PartialEq, Eq, Structural)]
pub struct Glyph {
    pub x: u32,
    pub y: u32,
    pub width: u32,
    pub height: u32,
    pub format: GlyphImageFormat,
}

impl Glyph {
    pub fn new(x: u32, y: u32, width: u32, height: u32, format: GlyphImageFormat) -> (g: Self)
        ensures
            g == (Glyph { x, y, width, height, format }),
    {
        Self { x, y, width, height, format }
    }
}

/// Text to draw with one color.
pub struct StyledCharacter {
    character: String,
    color: Color,
}

impl StyledCharacter {
    pub closed spec fn text(&self) -> Seq<char> {
        self.character@
    }

    pub closed spec fn color_spec(&self) -> Color {
        self.color
    }

    pub fn new(character: String, color: Color) -> (s: Self)
        ensures
            s.text() == character@,
            s.color_spec() == color,
    {
        Self { character, color }
    }

    pub fn character(&self) -> (r: &String)
        ensures
            r@ == self.text(),
    {
        &self.character
    }

    pub fn color(&self) -> (r: Color)
        ensures
            r == self.color_spec(),
    {
        self.color
    }
}

/// Relies on char's `to_string`: the string of that one character.
#[verifier::external_body]
fn char_string(c: char) -> (s: String)
    ensures
        s@ == seq![c],
{
    c.to_string()
}

/// `s` draws the cell `cell`: its character in its foreground color.
pub open spec fn draws(s: StyledCharacter, cell: TerminalCell) -> bool {
    &&& s.text() == seq![cell.content]
    &&& s.color_spec() == rgba_of(cell.style.foreground)
}

/// The cells of a grid, row after row, as text to draw: one entry per
/// cell, in order.
pub fn styled_characters(content: &Vec<Vec<TerminalCell>>) -> (r: Vec<StyledCharacter>)
    ensures
        r@.len() == rows_view(content@).flatten().len(),
        forall|k: int| 0 <= k < r@.len() ==> draws(#[trigger] r@[k], rows_view(content@).flatten()[k]),
{
    let ghost rows = rows_view(content@);
    let mut out: Vec<StyledCharacter> = Vec::new();
    let mut i: usize = 0;
    while i < content.len()
        invariant
            rows == rows_view(content@),
            i <= content@.len(),
            out@.len() == rows.take(i as int).flatten().len(),
            forall|k: int| 0 <= k < out@.len() ==> draws(#[trigger] out@[k], rows.take(i as int).flatten()[k]),
        decreases content.len() - i,
    {
        let line = &content[i];
        let ghost before = rows.take(i as int).flatten();
        let mut j: usize = 0;
        while j < line.len()
            invariant
                rows == rows_view(content@),
                i < content@.len(),
                *line == content@[i as int],
                j <= line@.len(),
                out@.len() == before.len() + j,
                forall|k: int| 0 <= k < out@.len() ==> draws(#[trigger] out@[k], (before + line@.take(j as int))[k]),
            decreases line.len() - j,
        {
            let cell = line[j];
            out.push(StyledCharacter::new(char_string(cell.content), color_of(cell.style.foreground)));
            j = j + 1;
            assert(before + line@.take(j as int) =~= (before + line@.take(j - 1)).push(cell));
        }
        proof {
            assert(rows.take(i + 1) =~= rows.take(i as int).push(line@));
            rows.take(i as int).lemma_flatten_push(line@);
            assert(line@.take(j as int) =~= line@);
        }
        i = i + 1;
    }
    assert(rows.take(i as int) =~= rows);
    out
}

/// The capacity, in elements, of a GPU buffer that must take `required`
/// elements: unchanged while they fit, else grown by one and a half times
/// what is required (saturating at the largest size).
pub open spec fn grown_capacity_spec(capacity: nat, required: nat) -> nat {
    if required <= capacity {
        capacity
    } else if capacity + required * 3 / 2 <= usize::MAX {
        capacity + required * 3 / 2
    } else {
        usize::MAX as nat
    }
}

pub fn grown_capacity(capacity: usize, required: usize) -> (r: usize)
    ensures
        r == grown_capacity_spec(capacity as nat, required as nat),
        r >= required,
{
    if required <= capacity {
        capacity
    } else {
        let extra: u128 = required as u128 * 3 / 2;
        let total: u128 = capacity as u128 + extra;
        if total <= usize::MAX as u128 {
            total as usize
        } else {
            usize::MAX
        }
    }
}

} // verus!
