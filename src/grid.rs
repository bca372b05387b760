use vstd::prelude::*;

use crate::color::{resolve_sgr, TerminalColor};
use crate::screen::{
    apply_action, apply_actions, at_least_one, at_most, blank_cell, blank_cells, blank_row,
    cells_in, clear_span, csi_effect, default_style, execute_byte, minus_floor, next_line,
    print_char, resized, scroll_up, Screen, TerminalCell, TerminalStyle,
};
use crate::stream::{actions_of, tokenize, Action};

verus! {

impl Default for TerminalStyle {
    fn default() -> (s: Self)
        ensures
            s == default_style(),
    {
        TerminalStyle { foreground: TerminalColor::White }
    }
}

impl TerminalCell {
    /// An empty position.
    pub fn blank() -> (c: TerminalCell)
        ensures
            c == blank_cell(),
    {
        TerminalCell { style: TerminalStyle { foreground: TerminalColor::White }, content: ' ' }
    }
}

/// Cursor position: column, then row.
#[derive(Debug, Clone, Copy, PartialEq, Eq, Structural)]
pub struct TerminalCursor(pub u32, pub u32);

impl TerminalCursor {
    /// Up by `y` rows, stopping at row 0.
    pub fn move_up(&mut self, y: u32)
        ensures
            final(self).0 == old(self).0,
            final(self).1 == minus_floor(old(self).1 as nat, y as nat),
    {
        if y <= self.1 {
            self.1 = self.1 - y;
        } else {
            self.1 = 0;
        }
    }

    /// Down by `y` rows, stopping at row `last_row`.
    pub fn move_down(&mut self, y: u32, last_row: u32)
        requires
            old(self).1 <= last_row,
        ensures
            final(self).0 == old(self).0,
            final(self).1 == at_most(old(self).1 as nat + y as nat, last_row as nat),
    {
        if y <= last_row - self.1 {
            self.1 = self.1 + y;
        } else {
            self.1 = last_row;
        }
    }

    /// Left by `x` columns, stopping at column 0.
    pub fn move_left(&mut self, x: u32)
        ensures
            final(self).0 == minus_floor(old(self).0 as nat, x as nat),
            final(self).1 == old(self).1,
    {
        if x <= self.0 {
            self.0 = self.0 - x;
        } else {
            self.0 = 0;
        }
    }

    /// Right by `x` columns, stopping at column `last_column`.
    pub fn move_right(&mut self, x: u32, last_column: u32)
        requires
            old(self).0 <= last_column,
        ensures
            final(self).0 == at_most(old(self).0 as nat + x as nat, last_column as nat),
            final(self).1 == old(self).1,
    {
        if x <= last_column - self.0 {
            self.0 = self.0 + x;
        } else {
            self.0 = last_column;
        }
    }

    /// To column `x` and row `y`, each held within the grid's last column
    /// and row.
    pub fn move_to(&mut self, x: u32, y: u32, last_column: u32, last_row: u32)
        ensures
            final(self).0 == at_most(x as nat, last_column as nat),
            final(self).1 == at_most(y as nat, last_row as nat),
    {
        self.0 = if x <= last_column { x } else { last_column };
        self.1 = if y <= last_row { y } else { last_row };
    }

    /// The top-left pixel of the cursor's cell for cells of the given size.
    pub fn get_pixel_coords(&self, width: u32, height: u32) -> (r: (u64, u64))
        ensures
            r.0 == self.0 as int * width as int,
            r.1 == self.1 as int * height as int,
    {
        proof {
            assert(self.0 as int * width as int <= u32::MAX as int * u32::MAX as int) by (nonlinear_arith);
            assert(self.1 as int * height as int <= u32::MAX as int * u32::MAX as int) by (nonlinear_arith);
        }
        (self.0 as u64 * width as u64, self.1 as u64 * height as u64)
    }
}

/// The rows of a cell matrix as sequences.
pub open spec fn rows_view(cells: Seq<Vec<TerminalCell>>) -> Seq<Seq<TerminalCell>> {
    cells.map_values(|r: Vec<TerminalCell>| r@)
}

/// The cell matrix, cursor and active style that the byte stream drives,
/// with the parser that carries unfinished sequences from one chunk of
/// bytes to the next.
pub struct TerminalGrid {
    rows: u32,
    columns: u32,
    cells: Vec<Vec<TerminalCell>>,
    cursor: TerminalCursor,
    width: u32,
    height: u32,
    cell_size: (u32, u32),
    current_style: TerminalStyle,
    parser: vte::Parser,
}

impl View for TerminalGrid {
    type V = Screen;

    closed spec fn view(&self) -> Screen {
        Screen {
            rows: self.rows as nat,
            columns: self.columns as nat,
            cells: rows_view(self.cells@),
            row: self.cursor.1 as nat,
            col: self.cursor.0 as nat,
            style: self.current_style,
        }
    }
}

proof fn lemma_rows_view_push(cells: Seq<Vec<TerminalCell>>, row: Vec<TerminalCell>)
    ensures
        rows_view(cells.push(row)) == rows_view(cells).push(row@),
{
    assert(rows_view(cells.push(row)) =~= rows_view(cells).push(row@));
}

proof fn lemma_rows_view_update(cells: Seq<Vec<TerminalCell>>, i: int, row: Vec<TerminalCell>)
    requires
        0 <= i < cells.len(),
    ensures
        rows_view(cells.update(i, row)) == rows_view(cells).update(i, row@),
{
    assert(rows_view(cells.update(i, row)) =~= rows_view(cells).update(i, row@));
}

fn new_blank_row(columns: u32) -> (r: Vec<TerminalCell>)
    ensures
        r@ == blank_row(columns as nat),
{
    let mut row: Vec<TerminalCell> = Vec::new();
    let mut j: u32 = 0;
    while j < columns
        invariant
            j <= columns,
            row@ == blank_row(j as nat),
        decreases columns - j,
    {
        row.push(TerminalCell::blank());
        j = j + 1;
        assert(row@ =~= blank_row(j as nat));
    }
    row
}

fn new_blank_cells(rows: u32, columns: u32) -> (r: Vec<Vec<TerminalCell>>)
    ensures
        rows_view(r@) == blank_cells(rows as nat, columns as nat),
{
    let mut cells: Vec<Vec<TerminalCell>> = Vec::new();
    let mut i: u32 = 0;
    while i < rows
        invariant
            i <= rows,
            rows_view(cells@) == blank_cells(i as nat, columns as nat),
        decreases rows - i,
    {
        let row = new_blank_row(columns);
        proof {
            lemma_rows_view_push(cells@, row);
        }
        cells.push(row);
        i = i + 1;
        assert(rows_view(cells@) =~= blank_cells(i as nat, columns as nat));
    }
    cells
}

impl TerminalGrid {
    /// The parser's state between two chunks of bytes.
    pub closed spec fn parser_state(&self) -> vte::Parser {
        self.parser
    }

    /// Width and height of one cell in pixels.
    pub closed spec fn cell_size_spec(&self) -> (u32, u32) {
        self.cell_size
    }

    /// Width and height of the drawing area in pixels.
    pub closed spec fn pixel_size_spec(&self) -> (u32, u32) {
        (self.width, self.height)
    }

    /// A blank grid of `rows` x `columns` (each at least one), cursor at
    /// the top left, base style, cells of one pixel.
    pub fn new(rows: u32, columns: u32) -> (g: TerminalGrid)
        ensures
            g@.wf(),
            g@ == (Screen {
                rows: at_least_one(rows as nat),
                columns: at_least_one(columns as nat),
                cells: blank_cells(at_least_one(rows as nat), at_least_one(columns as nat)),
                row: 0,
                col: 0,
                style: default_style(),
            }),
            g.cell_size_spec() == (1u32, 1u32),
    {
        let rows = if rows == 0 { 1 } else { rows };
        let columns = if columns == 0 { 1 } else { columns };
        let g = TerminalGrid {
            rows,
            columns,
            cells: new_blank_cells(rows, columns),
            cursor: TerminalCursor(0, 0),
            width: columns,
            height: rows,
            cell_size: (1, 1),
            current_style: TerminalStyle::default(),
            parser: vte::Parser::new(),
        };
        g
    }

    /// The cell matrix, row by row, for rendering.
    pub fn get_content(&self) -> (r: &Vec<Vec<TerminalCell>>)
        ensures
            rows_view(r@) == self@.cells,
    {
        &self.cells
    }

    /// The cursor's pixel position: (column x cell width, row x cell height).
    pub fn get_cursor(&self) -> (r: (u64, u64))
        ensures
            r.0 == self@.col * self.cell_size_spec().0,
            r.1 == self@.row * self.cell_size_spec().1,
    {
        self.cursor.get_pixel_coords(self.cell_size.0, self.cell_size.1)
    }

    /// The cursor: column, then row.
    pub fn cursor(&self) -> (r: TerminalCursor)
        ensures
            r.0 == self@.col,
            r.1 == self@.row,
    {
        self.cursor
    }

    pub fn rows(&self) -> (r: u32)
        ensures
            r == self@.rows,
    {
        self.rows
    }

    pub fn columns(&self) -> (r: u32)
        ensures
            r == self@.columns,
    {
        self.columns
    }

    /// The style that the next printed character takes.
    pub fn current_style(&self) -> (r: TerminalStyle)
        ensures
            r == self@.style,
    {
        self.current_style
    }

    pub fn cell_size(&self) -> (r: (u32, u32))
        ensures
            r == self.cell_size_spec(),
    {
        self.cell_size
    }

    /// Sets the size of one cell in pixels, as the font reports it. The
    /// grid keeps its dimensions until the next resize.
    pub fn set_cell_size(&mut self, width: u32, height: u32)
        ensures
            final(self)@ == old(self)@,
            final(self).cell_size_spec() == (width, height),
            final(self).pixel_size_spec() == old(self).pixel_size_spec(),
            final(self).parser_state() == old(self).parser_state(),
    {
        self.cell_size = (width, height);
    }
}

impl TerminalGrid {
    /// Writes `c` in the current style at the cursor and advances it,
    /// wrapping after the last column.
    pub fn print(&mut self, c: char)
        requires
            old(self)@.wf(),
        ensures
            final(self)@.wf(),
            final(self)@ == print_char(old(self)@, c),
    {
        let ghost s0 = self@;
        let r = self.cursor.1 as usize;
        let k = self.cursor.0 as usize;
        let cell = TerminalCell { style: self.current_style, content: c };
        let mut line: Vec<TerminalCell> = Vec::new();
        std::mem::swap(&mut line, &mut self.cells[r]);
        line.set(k, cell);
        proof {
            lemma_rows_view_update(self.cells@, r as int, line);
        }
        self.cells.set(r, line);
        assert(self@.cells =~= s0.cells.update(r as int, s0.cells[r as int].update(k as int, cell)));
        if self.cursor.0 + 1 < self.columns {
            self.cursor.0 = self.cursor.0 + 1;
        } else {
            self.next_line();
        }
    }

    /// Moves to column 0 of the next row, scrolling at the bottom.
    pub fn next_line(&mut self)
        requires
            old(self)@.wf(),
        ensures
            final(self)@.wf(),
            final(self)@ == next_line(old(self)@),
    {
        if self.cursor.1 + 1 < self.rows {
            self.cursor.1 = self.cursor.1 + 1;
        } else {
            self.scroll_up();
        }
        self.cursor.0 = 0;
    }

    fn scroll_up(&mut self)
        requires
            old(self)@.wf(),
        ensures
            final(self)@.wf(),
            final(self)@ == scroll_up(old(self)@),
    {
        let ghost before = self.cells@;
        let _top = self.cells.remove(0);
        let row = new_blank_row(self.columns);
        proof {
            assert(self.cells@ =~= before.drop_first());
            lemma_rows_view_push(self.cells@, row);
        }
        self.cells.push(row);
        assert(rows_view(self.cells@) =~= rows_view(before).drop_first().push(blank_row(self.columns as nat)));
    }

    /// Handles a control byte: line feed moves to the next line; other
    /// bytes are ignored.
    pub fn execute(&mut self, byte: u8)
        requires
            old(self)@.wf(),
        ensures
            final(self)@.wf(),
            final(self)@ == execute_byte(old(self)@, byte),
    {
        if byte == 10 {
            self.next_line();
        }
    }

    /// Blanks the columns `from..to` of the cursor's row.
    fn clear_line(&mut self, from: u32, to: u32)
        requires
            old(self)@.wf(),
        ensures
            final(self)@.wf(),
            final(self)@ == clear_span(old(self)@, from as nat, to as nat),
    {
        let r = self.cursor.1 as usize;
        let mut line: Vec<TerminalCell> = Vec::new();
        let mut j: u32 = 0;
        while j < self.columns
            invariant
                self@.wf(),
                r == self@.row,
                j <= self@.columns,
                line@.len() == j,
                forall|i: int|
                    0 <= i < j ==> #[trigger] line@[i] == (if from <= i < to {
                        blank_cell()
                    } else {
                        self@.cells[r as int][i]
                    }),
            decreases self.columns - j,
        {
            let cell = if from <= j && j < to {
                TerminalCell::blank()
            } else {
                self.cells[r][j as usize]
            };
            line.push(cell);
            j = j + 1;
        }
        let ghost s = self@;
        proof {
            lemma_rows_view_update(self.cells@, r as int, line);
            assert(line@ =~= clear_span(s, from as nat, to as nat).cells[r as int]);
        }
        self.cells.set(r, line);
        assert(self@.cells =~= clear_span(s, from as nat, to as nat).cells);
    }

    /// Blanks every cell; the cursor stays where it is.
    fn clear_all(&mut self)
        requires
            old(self)@.wf(),
        ensures
            final(self)@.wf(),
            final(self)@ == (Screen { cells: blank_cells(old(self)@.rows, old(self)@.columns), ..old(self)@ }),
    {
        self.cells = new_blank_cells(self.rows, self.columns);
    }

    /// Applies a control sequence with parameters `params` and final byte
    /// `action`: cursor movement, erasing, and select graphic rendition.
    /// Any other sequence is ignored.
    pub fn csi_dispatch(&mut self, params: &Vec<u16>, action: char)
        requires
            old(self)@.wf(),
        ensures
            final(self)@.wf(),
            final(self)@ == csi_effect(old(self)@, params@, action),
    {
        let n: u32 = if params.len() > 0 { params[0] as u32 } else { 0 };
        let last_row = self.rows - 1;
        let last_col = self.columns - 1;
        if action == 'A' {
            self.cursor.move_up(n);
        } else if action == 'B' {
            self.cursor.move_down(n, last_row);
        } else if action == 'C' {
            self.cursor.move_right(n, last_col);
        } else if action == 'D' {
            self.cursor.move_left(n);
        } else if action == 'E' || action == 'F' {
            let count: u32 = if params.len() > 0 { params[0] as u32 } else { 1 };
            if action == 'E' {
                self.cursor.move_down(count, last_row);
            } else {
                self.cursor.move_up(count);
            }
            self.cursor.0 = 0;
        } else if action == 'G' {
            let row = self.cursor.1;
            self.cursor.move_to(n, row, last_col, last_row);
        } else if action == 'H' || action == 'f' {
            let column: u32 = if params.len() > 1 { params[1] as u32 } else { 0 };
            self.cursor.move_to(column, n, last_col, last_row);
        } else if action == 'J' {
            if n == 3 {
                self.clear_all();
            }
        } else if action == 'K' {
            if n == 0 {
                let from = self.cursor.0;
                let to = self.columns;
                self.clear_line(from, to);
            } else if n == 1 {
                let to = self.cursor.0;
                self.clear_line(0, to);
            } else if n == 2 {
                let to = self.columns;
                self.clear_line(0, to);
            }
        } else if action == 'm' {
            let foreground = resolve_sgr(params, self.current_style.foreground);
            self.current_style = TerminalStyle { foreground };
        }
    }

    /// Applies one action of the byte stream.
    pub fn apply(&mut self, action: &Action)
        requires
            old(self)@.wf(),
        ensures
            final(self)@.wf(),
            final(self)@ == apply_action(old(self)@, *action),
    {
        match action {
            Action::Print(c) => self.print(*c),
            Action::Execute(b) => self.execute(*b),
            Action::Csi(params, a) => self.csi_dispatch(params, *a),
        }
    }

    /// Applies actions in order.
    pub fn apply_all(&mut self, actions: &Vec<Action>)
        requires
            old(self)@.wf(),
        ensures
            final(self)@.wf(),
            final(self)@ == apply_actions(old(self)@, actions@),
    {
        let ghost start = self@;
        let mut i: usize = 0;
        while i < actions.len()
            invariant
                i <= actions@.len(),
                self@.wf(),
                self@ == apply_actions(start, actions@.take(i as int)),
            decreases actions.len() - i,
        {
            self.apply(&actions[i]);
            i = i + 1;
            assert(actions@.take(i as int).drop_last() =~= actions@.take(i - 1));
        }
        assert(actions@.take(i as int) =~= actions@);
    }

    /// Feeds a chunk of bytes from the shell through the parser and
    /// applies what it reports. A sequence cut at the end of the chunk is
    /// kept by the parser and completed by the next chunk.
    pub fn update(&mut self, data: &[u8])
        requires
            old(self)@.wf(),
        ensures
            final(self)@.wf(),
            final(self)@ == apply_actions(old(self)@, actions_of(old(self).parser_state(), data@)),
    {
        let actions = tokenize(&mut self.parser, data);
        self.apply_all(&actions);
    }
}

impl TerminalGrid {
    /// Cuts or pads the grid to `rows` x `columns`: cells inside both the
    /// old and the new bounds keep their content, new positions are blank,
    /// and a cursor outside the new bounds is moved to the nearest edge.
    pub fn set_dimensions(&mut self, rows: u32, columns: u32)
        requires
            old(self)@.wf(),
            rows >= 1,
            columns >= 1,
        ensures
            final(self)@.wf(),
            final(self)@ == resized(old(self)@, rows as nat, columns as nat),
            final(self).cell_size_spec() == old(self).cell_size_spec(),
            final(self).pixel_size_spec() == old(self).pixel_size_spec(),
    {
        let ghost s = self@;
        let mut cells: Vec<Vec<TerminalCell>> = Vec::new();
        let mut i: u32 = 0;
        while i < rows
            invariant
                self@ == s,
                s.wf(),
                i <= rows,
                cells@.len() == i,
                forall|r: int| 0 <= r < i ==> #[trigger] rows_view(cells@)[r] == resized(s, rows as nat, columns as nat).cells[r],
            decreases rows - i,
        {
            let mut line: Vec<TerminalCell> = Vec::new();
            let mut j: u32 = 0;
            while j < columns
                invariant
                    self@ == s,
                    s.wf(),
                    i < rows,
                    j <= columns,
                    line@.len() == j,
                    forall|c: int| 0 <= c < j ==> #[trigger] line@[c] == resized(s, rows as nat, columns as nat).cells[i as int][c],
                decreases columns - j,
            {
                let cell = if i < self.rows && j < self.columns {
                    self.cells[i as usize][j as usize]
                } else {
                    TerminalCell::blank()
                };
                line.push(cell);
                j = j + 1;
            }
            assert(line@ =~= resized(s, rows as nat, columns as nat).cells[i as int]);
            proof {
                lemma_rows_view_push(cells@, line);
            }
            cells.push(line);
            i = i + 1;
        }
        assert(rows_view(cells@) =~= resized(s, rows as nat, columns as nat).cells);
        self.cells = cells;
        self.rows = rows;
        self.columns = columns;
        let row = self.cursor.1;
        let col = self.cursor.0;
        self.cursor.move_to(col, row, columns - 1, rows - 1);
    }

    /// Fits the grid to a drawing area of `width` x `height` pixels: as many
    /// whole cells as fit in each direction, and at least one.
    pub fn resize(&mut self, width: u32, height: u32)
        requires
            old(self)@.wf(),
        ensures
            final(self)@.wf(),
            final(self)@ == resized(
                old(self)@,
                cells_in(height as nat, old(self).cell_size_spec().1 as nat),
                cells_in(width as nat, old(self).cell_size_spec().0 as nat),
            ),
            final(self).cell_size_spec() == old(self).cell_size_spec(),
            final(self).pixel_size_spec() == (width, height),
    {
        let rows = fit_cells(height, self.cell_size.1);
        let columns = fit_cells(width, self.cell_size.0);
        self.width = width;
        self.height = height;
        self.set_dimensions(rows, columns);
    }
}

fn fit_cells(pixels: u32, cell: u32) -> (n: u32)
    ensures
        n == cells_in(pixels as nat, cell as nat),
        n >= 1,
{
    if cell == 0 {
        1
    } else {
        let n = pixels / cell;
        if n == 0 {
            1
        } else {
            n
        }
    }
}

} // verus!
