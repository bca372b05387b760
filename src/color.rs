use vstd::prelude::*;

verus! {

/// Foreground color of a cell: one of the sixteen named ANSI colors or a
/// direct 24-bit value.
#[derive(Debug, Clone, Copy, PartialEq, Eq, Structural)]
pub enum TerminalColor {
    Black,
    Red,
    Green,
    Blue,
    Yellow,
    Cyan,
    Magenta,
    White,
    BrightBlack,
    BrightRed,
    BrightGreen,
    BrightBlue,
    BrightYellow,
    BrightCyan,
    BrightMagenta,
    BrightWhite,
    Rgb(u8, u8, u8),
}

/// The named color with ANSI number `n`: 0 to 7 are the normal colors
/// (black, red, green, yellow, blue, magenta, cyan, white), 8 to 15 their
/// bright variants, in the same order.
pub open spec fn named_color(n: int) -> TerminalColor {
    if n == 0 {
        TerminalColor::Black
    } else if n == 1 {
        TerminalColor::Red
    } else if n == 2 {
        TerminalColor::Green
    } else if n == 3 {
        TerminalColor::Yellow
    } else if n == 4 {
        TerminalColor::Blue
    } else if n == 5 {
        TerminalColor::Magenta
    } else if n == 6 {
        TerminalColor::Cyan
    } else if n == 7 {
        TerminalColor::White
    } else if n == 8 {
        TerminalColor::BrightBlack
    } else if n == 9 {
        TerminalColor::BrightRed
    } else if n == 10 {
        TerminalColor::BrightGreen
    } else if n == 11 {
        TerminalColor::BrightYellow
    } else if n == 12 {
        TerminalColor::BrightBlue
    } else if n == 13 {
        TerminalColor::BrightMagenta
    } else if n == 14 {
        TerminalColor::BrightCyan
    } else {
        TerminalColor::BrightWhite
    }
}

/// Intensity of one component of the 6x6x6 color cube.
pub open spec fn cube_level(i: int) -> int {
    if i == 0 {
        0
    } else {
        55 + 40 * i
    }
}

/// The color at cube position (`r`, `g`, `b`), each in `0..6`.
pub open spec fn cube_color(r: int, g: int, b: int) -> TerminalColor {
    TerminalColor::Rgb(cube_level(r) as u8, cube_level(g) as u8, cube_level(b) as u8)
}

/// The 256-color palette: 16 named colors, the color cube, then a
/// grayscale ramp.
pub open spec fn indexed_color(n: u8) -> TerminalColor {
    if n < 16 {
        named_color(n as int)
    } else if n < 232 {
        let k = n - 16;
        cube_color(k / 36, (k / 6) % 6, k % 6)
    } else {
        let gray = 8 + 10 * (n - 232);
        TerminalColor::Rgb(gray as u8, gray as u8, gray as u8)
    }
}

/// The named color with ANSI number `n`.
pub fn named_color_of(n: u8) -> (c: TerminalColor)
    requires
        n < 16,
    ensures
        c == named_color(n as int),
{
    match n {
        0 => TerminalColor::Black,
        1 => TerminalColor::Red,
        2 => TerminalColor::Green,
        3 => TerminalColor::Yellow,
        4 => TerminalColor::Blue,
        5 => TerminalColor::Magenta,
        6 => TerminalColor::Cyan,
        7 => TerminalColor::White,
        8 => TerminalColor::BrightBlack,
        9 => TerminalColor::BrightRed,
        10 => TerminalColor::BrightGreen,
        11 => TerminalColor::BrightYellow,
        12 => TerminalColor::BrightBlue,
        13 => TerminalColor::BrightMagenta,
        14 => TerminalColor::BrightCyan,
        _ => TerminalColor::BrightWhite,
    }
}

fn cube_level_of(i: u8) -> (v: u8)
    requires
        i < 6,
    ensures
        v as int == cube_level(i as int),
{
    if i == 0 {
        0
    } else {
        55 + 40 * i
    }
}

/// Resolves an entry of the 256-color palette.
pub fn color_from_index(n: u8) -> (c: TerminalColor)
    ensures
        c == indexed_color(n),
{
    if n < 16 {
        named_color_of(n)
    } else if n < 232 {
        let k: u8 = n - 16;
        TerminalColor::Rgb(cube_level_of(k / 36), cube_level_of((k / 6) % 6), cube_level_of(k % 6))
    } else {
        let gray: u8 = 8 + 10 * (n - 232);
        TerminalColor::Rgb(gray, gray, gray)
    }
}

/// The color cube as a table: entry `i` holds palette color `16 + i`.
pub fn fill_color_table() -> (table: Vec<TerminalColor>)
    ensures
        table@.len() == 216,
        forall|i: int| 0 <= i < 216 ==> #[trigger] table@[i] == indexed_color((16 + i) as u8),
{
    let mut table: Vec<TerminalColor> = Vec::new();
    let mut red: u8 = 0;
    while red < 6
        invariant
            red <= 6,
            table@.len() == 36 * red,
            forall|i: int| 0 <= i < table@.len() ==> #[trigger] table@[i] == indexed_color((16 + i) as u8),
        decreases 6 - red,
    {
        let mut green: u8 = 0;
        while green < 6
            invariant
                red < 6,
                green <= 6,
                table@.len() == 36 * red + 6 * green,
                forall|i: int| 0 <= i < table@.len() ==> #[trigger] table@[i] == indexed_color((16 + i) as u8),
            decreases 6 - green,
        {
            let mut blue: u8 = 0;
            while blue < 6
                invariant
                    red < 6,
                    green < 6,
                    blue <= 6,
                    table@.len() == 36 * red + 6 * green + blue,
                    forall|i: int| 0 <= i < table@.len() ==> #[trigger] table@[i] == indexed_color((16 + i) as u8),
                decreases 6 - blue,
            {
                let code: u8 = 16 + red * 36 + green * 6 + blue;
                let color = TerminalColor::Rgb(cube_level_of(red), cube_level_of(green), cube_level_of(blue));
                proof {
                    let k = code - 16;
                    assert(k == 36 * red + 6 * green + blue);
                    assert(k / 36 == red && (k / 6) % 6 == green && k % 6 == blue) by (nonlinear_arith)
                        requires
                            k == 36 * red + 6 * green + blue,
                            red < 6,
                            green < 6,
                            blue < 6,
                    ;
                }
                table.push(color);
                blue = blue + 1;
            }
            green = green + 1;
        }
        red = red + 1;
    }
    table
}

/// What a sequence of select-graphic-rendition parameters does to the
/// foreground color `fg`, read from position `i` on.
pub open spec fn sgr_from(params: Seq<u16>, i: int, fg: TerminalColor) -> TerminalColor
    decreases params.len() - i,
{
    if i < 0 || i >= params.len() {
        fg
    } else {
        let p = params[i];
        if p == 0 || p == 39 {
            sgr_from(params, i + 1, TerminalColor::White)
        } else if 30 <= p <= 37 {
            sgr_from(params, i + 1, named_color(p - 30))
        } else if 90 <= p <= 97 {
            sgr_from(params, i + 1, named_color(p - 90 + 8))
        } else if p == 38 {
            if i + 1 >= params.len() {
                fg
            } else if params[i + 1] == 2 {
                let c = TerminalColor::Rgb(
                    #[verifier::truncate] (param_or_zero(params, i + 2) as u8),
                    #[verifier::truncate] (param_or_zero(params, i + 3) as u8),
                    #[verifier::truncate] (param_or_zero(params, i + 4) as u8),
                );
                if i + 5 >= params.len() {
                    c
                } else {
                    sgr_from(params, i + 5, c)
                }
            } else if params[i + 1] == 5 {
                let c = indexed_color(#[verifier::truncate] (param_or_zero(params, i + 2) as u8));
                if i + 3 >= params.len() {
                    c
                } else {
                    sgr_from(params, i + 3, c)
                }
            } else {
                sgr_from(params, i + 2, fg)
            }
        } else {
            sgr_from(params, i + 1, fg)
        }
    }
}

/// Parameter `j`, or 0 where the list is shorter.
pub open spec fn param_or_zero(params: Seq<u16>, j: int) -> u16 {
    if 0 <= j < params.len() {
        params[j]
    } else {
        0
    }
}

/// The foreground color after a select-graphic-rendition sequence.
pub open spec fn sgr_color(params: Seq<u16>, fg: TerminalColor) -> TerminalColor {
    sgr_from(params, 0, fg)
}

fn param_at(params: &Vec<u16>, i: usize, offset: usize) -> (v: u16)
    requires
        i <= params@.len(),
    ensures
        v == param_or_zero(params@, i + offset),
{
    if params.len() - i > offset {
        params[i + offset]
    } else {
        0
    }
}

/// Resolves the parameters of a select-graphic-rendition sequence into the
/// new foreground color, starting from the current one. Unknown codes are
/// skipped.
pub fn resolve_sgr(params: &Vec<u16>, fg: TerminalColor) -> (c: TerminalColor)
    ensures
        c == sgr_color(params@, fg),
{
    let len = params.len();
    let mut i: usize = 0;
    let mut color = fg;
    while i < len
        invariant
            len == params@.len(),
            i <= len,
            sgr_from(params@, i as int, color) == sgr_color(params@, fg),
        decreases len - i,
    {
        let p = params[i];
        if p == 0 || p == 39 {
            color = TerminalColor::White;
            i = i + 1;
        } else if 30 <= p && p <= 37 {
            color = named_color_of((p - 30) as u8);
            i = i + 1;
        } else if 90 <= p && p <= 97 {
            color = named_color_of((p - 90 + 8) as u8);
            i = i + 1;
        } else if p == 38 {
            if len - i <= 1 {
                i = len;
            } else if params[i + 1] == 2 {
                let r = param_at(params, i, 2);
                let g = param_at(params, i, 3);
                let b = param_at(params, i, 4);
                color = TerminalColor::Rgb(
                    #[verifier::truncate] (r as u8),
                    #[verifier::truncate] (g as u8),
                    #[verifier::truncate] (b as u8),
                );
                i = if len - i > 5 { i + 5 } else { len };
            } else if params[i + 1] == 5 {
                let n = param_at(params, i, 2);
                color = color_from_index(#[verifier::truncate] (n as u8));
                i = if len - i > 3 { i + 3 } else { len };
            } else {
                i = i + 2;
            }
        } else {
            i = i + 1;
        }
    }
    color
}

} // verus!
