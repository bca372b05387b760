use nart::color::TerminalColor;
use nart::grid::TerminalGrid;
use nart::screen::{TerminalCell, TerminalStyle};
use nart::stream::Action;

fn row_text(grid: &TerminalGrid, row: usize) -> String {
    grid.get_content()[row].iter().map(|c| c.content).collect()
}

fn white() -> TerminalStyle {
    TerminalStyle { foreground: TerminalColor::White }
}

#[test]
fn printable_bytes_fill_one_row() {
    let mut grid = TerminalGrid::new(24, 80);
    grid.update(b"hello, world");
    let row = row_text(&grid, 0);
    assert_eq!(&row[..12], "hello, world");
    assert!(row[12..].chars().all(|c| c == ' '));
    assert_eq!(grid.cursor().0, 12);
    assert_eq!(grid.cursor().1, 0);
    for cell in &grid.get_content()[0][..12] {
        assert_eq!(cell.style, white());
    }
    for r in 1..24 {
        assert!(row_text(&grid, r).chars().all(|c| c == ' '));
    }
}

#[test]
fn printed_cells_keep_the_style_of_their_time() {
    let mut grid = TerminalGrid::new(4, 10);
    grid.update(b"a\x1b[31mb\x1b[0mc");
    let row = &grid.get_content()[0];
    assert_eq!(row[0].style.foreground, TerminalColor::White);
    assert_eq!(row[1].style.foreground, TerminalColor::Red);
    assert_eq!(row[2].style.foreground, TerminalColor::White);
    assert_eq!(row_text(&grid, 0), "abc       ");
}

#[test]
fn one_more_than_the_width_wraps() {
    let mut grid = TerminalGrid::new(5, 8);
    grid.update(b"abcdefghX");
    assert_eq!(row_text(&grid, 0), "abcdefgh");
    assert_eq!(grid.get_content()[1][0].content, 'X');
    assert_eq!(grid.cursor().0, 1);
    assert_eq!(grid.cursor().1, 1);
}

#[test]
fn printing_past_the_last_row_scrolls() {
    let mut grid = TerminalGrid::new(2, 3);
    grid.update(b"abcdefg");
    assert_eq!(row_text(&grid, 0), "def");
    assert_eq!(row_text(&grid, 1), "g  ");
    assert_eq!(grid.cursor().1, 1);
    assert_eq!(grid.cursor().0, 1);
}

#[test]
fn line_feed_moves_to_the_start_of_the_next_row() {
    let mut grid = TerminalGrid::new(3, 5);
    grid.update(b"ab\ncd");
    assert_eq!(row_text(&grid, 0), "ab   ");
    assert_eq!(row_text(&grid, 1), "cd   ");
    grid.update(b"\n\nz");
    assert_eq!(row_text(&grid, 0), "cd   ");
    assert_eq!(row_text(&grid, 2), "z    ");
}

#[test]
fn erase_line_then_print_mid_line() {
    let mut grid = TerminalGrid::new(3, 10);
    grid.update(b"0123456789");
    grid.update(b"\x1b[1;4Habc");
    assert_eq!(row_text(&grid, 1), "    abc   ");
    grid.update(b"\x1b[1;2H");
    grid.update(b"\x1b[2KXY");
    assert_eq!(row_text(&grid, 1), "  XY      ");
    assert_eq!(row_text(&grid, 0), "0123456789");
}

#[test]
fn erase_line_to_end_and_to_start() {
    let mut grid = TerminalGrid::new(1, 8);
    grid.update(b"abcdef\x1b[4G\x1b[0K");
    assert_eq!(row_text(&grid, 0), "abcd    ");
    let mut grid = TerminalGrid::new(1, 8);
    grid.update(b"abcdef\x1b[3G\x1b[1K");
    assert_eq!(row_text(&grid, 0), "   def  ");
}

#[test]
fn erase_display_three_clears_everything_and_keeps_the_cursor() {
    let mut grid = TerminalGrid::new(3, 4);
    grid.update(b"abcdefghij");
    let before = grid.cursor();
    grid.update(b"\x1b[3J");
    for r in 0..3 {
        assert_eq!(row_text(&grid, r), "    ");
    }
    assert_eq!(grid.cursor(), before);
    grid.update(b"k");
    assert_eq!(grid.get_content()[2][2].content, 'k');
}

#[test]
fn erase_display_other_values_do_nothing() {
    let mut grid = TerminalGrid::new(2, 4);
    grid.update(b"abcd\x1b[2J\x1b[J\x1b[1J");
    assert_eq!(row_text(&grid, 0), "abcd");
}

#[test]
fn sgr_truecolor() {
    let mut grid = TerminalGrid::new(2, 10);
    grid.update(b"\x1b[38;2;10;20;30mx");
    assert_eq!(grid.get_content()[0][0].style.foreground, TerminalColor::Rgb(10, 20, 30));
}

#[test]
fn sgr_named_red() {
    let mut grid = TerminalGrid::new(2, 10);
    grid.update(b"\x1b[31mx");
    assert_eq!(grid.get_content()[0][0].style.foreground, TerminalColor::Red);
}

#[test]
fn sgr_indexed_gray() {
    let mut grid = TerminalGrid::new(2, 10);
    grid.update(b"\x1b[38;5;232mx");
    assert_eq!(grid.get_content()[0][0].style.foreground, TerminalColor::Rgb(8, 8, 8));
}

#[test]
fn sequence_split_across_chunks() {
    let mut whole = TerminalGrid::new(4, 10);
    whole.update(b"a\x1b[31mb");
    let mut split = TerminalGrid::new(4, 10);
    split.update(b"a\x1b[");
    split.update(b"31mb");
    assert_eq!(whole.get_content(), split.get_content());
    assert_eq!(whole.cursor(), split.cursor());
    assert_eq!(whole.current_style(), split.current_style());
    assert_eq!(split.get_content()[0][1].style.foreground, TerminalColor::Red);
    assert_eq!(row_text(&split, 0), "ab        ");
}

#[test]
fn resize_truncates_and_clamps_the_cursor() {
    let mut grid = TerminalGrid::new(24, 80);
    grid.update(b"keep");
    grid.update(b"\x1b[20;70Hgone");
    assert_eq!(grid.cursor().1, 20);
    grid.set_dimensions(12, 40);
    assert_eq!(grid.rows(), 12);
    assert_eq!(grid.columns(), 40);
    assert_eq!(grid.get_content().len(), 12);
    assert!(grid.get_content().iter().all(|r| r.len() == 40));
    assert_eq!(&row_text(&grid, 0)[..4], "keep");
    assert_eq!(grid.cursor().0, 39);
    assert_eq!(grid.cursor().1, 11);
}

#[test]
fn resize_from_pixels() {
    let mut grid = TerminalGrid::new(24, 80);
    grid.set_cell_size(10, 20);
    grid.resize(805, 250);
    assert_eq!(grid.columns(), 80);
    assert_eq!(grid.rows(), 12);
    grid.resize(5, 5);
    assert_eq!(grid.columns(), 1);
    assert_eq!(grid.rows(), 1);
}

#[test]
fn resize_larger_pads_with_blanks() {
    let mut grid = TerminalGrid::new(2, 3);
    grid.update(b"ab");
    grid.set_dimensions(3, 4);
    assert_eq!(row_text(&grid, 0), "ab  ");
    assert_eq!(row_text(&grid, 2), "    ");
    assert_eq!(grid.get_content()[2][3], TerminalCell::blank());
}

#[test]
fn cursor_pixel_position() {
    let mut grid = TerminalGrid::new(10, 10);
    grid.set_cell_size(9, 18);
    grid.update(b"\x1b[3;5H");
    assert_eq!(grid.get_cursor(), (45, 54));
}

#[test]
fn cursor_movement_clamps_at_edges() {
    let mut grid = TerminalGrid::new(5, 5);
    grid.update(b"\x1b[2;2H");
    grid.update(b"\x1b[10A");
    assert_eq!((grid.cursor().0, grid.cursor().1), (2, 0));
    grid.update(b"\x1b[10B");
    assert_eq!((grid.cursor().0, grid.cursor().1), (2, 4));
    grid.update(b"\x1b[10C");
    assert_eq!((grid.cursor().0, grid.cursor().1), (4, 4));
    grid.update(b"\x1b[10D");
    assert_eq!((grid.cursor().0, grid.cursor().1), (0, 4));
    grid.update(b"\x1b[2F");
    assert_eq!((grid.cursor().0, grid.cursor().1), (0, 2));
    grid.update(b"\x1b[3G\x1b[1E");
    assert_eq!((grid.cursor().0, grid.cursor().1), (0, 3));
    grid.update(b"\x1b[99;99f");
    assert_eq!((grid.cursor().0, grid.cursor().1), (4, 4));
}

#[test]
fn unknown_sequences_and_controls_are_ignored() {
    let mut grid = TerminalGrid::new(2, 5);
    grid.update(b"ab\x1b[5Z\x07\x1b[?25h\rc");
    assert_eq!(row_text(&grid, 0), "abc  ");
}

#[test]
fn apply_actions_directly() {
    let mut grid = TerminalGrid::new(2, 5);
    let actions = vec![
        Action::Print('q'),
        Action::Csi(vec![32], 'm'),
        Action::Print('r'),
        Action::Execute(10),
        Action::Print('s'),
    ];
    grid.apply_all(&actions);
    assert_eq!(row_text(&grid, 0), "qr   ");
    assert_eq!(row_text(&grid, 1), "s    ");
    assert_eq!(grid.get_content()[0][1].style.foreground, TerminalColor::Green);
}

#[test]
fn zero_dimensions_become_one() {
    let grid = TerminalGrid::new(0, 0);
    assert_eq!(grid.rows(), 1);
    assert_eq!(grid.columns(), 1);
}

#[test]
fn empty_chunk_changes_nothing() {
    let mut grid = TerminalGrid::new(3, 3);
    grid.update(b"ab");
    let before = grid.get_content().clone();
    grid.update(b"");
    assert_eq!(grid.get_content(), &before);
    assert_eq!((grid.cursor().0, grid.cursor().1), (2, 0));
}

#[test]
fn largest_parameters_clamp_to_the_grid() {
    let mut grid = TerminalGrid::new(4, 6);
    grid.update(b"\x1b[65535;65535H");
    assert_eq!((grid.cursor().0, grid.cursor().1), (5, 3));
    grid.update(b"\x1b[65535D\x1b[65535A");
    assert_eq!((grid.cursor().0, grid.cursor().1), (0, 0));
    grid.update(b"\x1b[65535G");
    assert_eq!(grid.cursor().0, 5);
}

#[test]
fn erase_line_with_unknown_value_does_nothing() {
    let mut grid = TerminalGrid::new(2, 4);
    grid.update(b"abc\x1b[1G\x1b[5K");
    assert_eq!(row_text(&grid, 0), "abc ");
}
