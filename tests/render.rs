use nart::color::TerminalColor;
use nart::grid::TerminalGrid;
use nart::render::{color_of, grown_capacity, styled_characters, Color, Glyph, GlyphImageFormat, StyledCharacter};

#[test]
fn terminal_colors_to_rgba() {
    assert_eq!(color_of(TerminalColor::Red), Color::new(255, 0, 0, 255));
    assert_eq!(color_of(TerminalColor::BrightBlack), Color::new(100, 100, 100, 255));
    assert_eq!(color_of(TerminalColor::Rgb(1, 2, 3)), Color { r: 1, g: 2, b: 3, a: 255 });
}

#[test]
fn cells_become_styled_characters_in_order() {
    let mut grid = TerminalGrid::new(2, 3);
    grid.update(b"a\x1b[32mbcd");
    let styled = styled_characters(grid.get_content());
    assert_eq!(styled.len(), 6);
    let text: String = styled.iter().map(|s| s.character().as_str()).collect();
    assert_eq!(text, "abcd  ");
    assert_eq!(styled[0].color(), Color::new(255, 255, 255, 255));
    assert_eq!(styled[1].color(), Color::new(0, 255, 0, 255));
    assert_eq!(styled[3].character(), "d");
}

#[test]
fn glyph_and_styled_character_constructors() {
    let g = Glyph::new(1, 2, 3, 4, GlyphImageFormat::GrayScale);
    assert_eq!((g.x, g.y, g.width, g.height), (1, 2, 3, 4));
    assert_eq!(g.format, GlyphImageFormat::GrayScale);
    let s = StyledCharacter::new("x".to_string(), Color::new(9, 8, 7, 6));
    assert_eq!(s.character(), "x");
    assert_eq!(s.color(), Color::new(9, 8, 7, 6));
}

#[test]
fn buffer_capacity_grows_only_when_needed() {
    assert_eq!(grown_capacity(10, 4), 10);
    assert_eq!(grown_capacity(10, 10), 10);
    assert_eq!(grown_capacity(10, 12), 28);
    assert_eq!(grown_capacity(1, 3), 5);
    assert_eq!(grown_capacity(usize::MAX - 1, usize::MAX), usize::MAX);
}
