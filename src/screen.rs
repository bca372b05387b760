use vstd::prelude::*;

use crate::color::{sgr_color, TerminalColor};
use crate::stream::Action;

verus! {

/// The style that a printed cell takes: its foreground color.
#[derive(Debug, Clone, Copy, PartialEq, Eq, Structural)]
pub struct TerminalStyle {
    pub foreground: TerminalColor,
}

/// One grid position: a character and the style that was active when it
/// was written.
#[derive(Debug, Clone, Copy, PartialEq, Eq, Structural)]
pub struct TerminalCell {
    pub style: TerminalStyle,
    pub content: char,
}

/// The base style: white foreground.
pub open spec fn default_style() -> TerminalStyle {
    TerminalStyle { foreground: TerminalColor::White }
}

/// An empty position: a space in the base style.
pub open spec fn blank_cell() -> TerminalCell {
    TerminalCell { style: default_style(), content: ' ' }
}

pub open spec fn blank_row(columns: nat) -> Seq<TerminalCell> {
    Seq::new(columns, |_j: int| blank_cell())
}

pub open spec fn blank_cells(rows: nat, columns: nat) -> Seq<Seq<TerminalCell>> {
    Seq::new(rows, |_i: int| blank_row(columns))
}

/// What the terminal shows: a `rows` x `columns` matrix of cells, the
/// cursor at (`row`, `col`) and the style applied to printed characters.
pub ghost struct Screen {
    pub rows: nat,
    pub columns: nat,
    pub cells: Seq<Seq<TerminalCell>>,
    pub row: nat,
    pub col: nat,
    pub style: TerminalStyle,
}

impl Screen {
    /// At least one row and one column, every row `columns` wide, and the
    /// cursor inside the grid.
    pub open spec fn wf(self) -> bool {
        &&& self.rows >= 1
        &&& self.columns >= 1
        &&& self.cells.len() == self.rows
        &&& forall|r: int| 0 <= r < self.rows ==> (#[trigger] self.cells[r]).len() == self.columns
        &&& self.row < self.rows
        &&& self.col < self.columns
    }
}

/// `v`, but no more than `last`.
pub open spec fn at_most(v: nat, last: nat) -> nat {
    if v <= last {
        v
    } else {
        last
    }
}

/// `v - d`, but no less than zero.
pub open spec fn minus_floor(v: nat, d: nat) -> nat {
    if d <= v {
        (v - d) as nat
    } else {
        0
    }
}

/// The grid moved up by one row: the top row is dropped and a blank row
/// enters at the bottom. No row is retained above the grid.
pub open spec fn scroll_up(s: Screen) -> Screen {
    Screen { cells: s.cells.drop_first().push(blank_row(s.columns)), ..s }
}

/// Column 0 of the next row, scrolling when the cursor is on the last row.
pub open spec fn next_line(s: Screen) -> Screen {
    if s.row + 1 < s.rows {
        Screen { row: s.row + 1, col: 0, ..s }
    } else {
        Screen { col: 0, ..scroll_up(s) }
    }
}

/// Writes `c` in the current style under the cursor and advances the
/// cursor, wrapping to the next row after the last column.
pub open spec fn print_char(s: Screen, c: char) -> Screen {
    let cell = TerminalCell { style: s.style, content: c };
    let written = Screen {
        cells: s.cells.update(s.row as int, s.cells[s.row as int].update(s.col as int, cell)),
        ..s
    };
    if s.col + 1 < s.columns {
        Screen { col: s.col + 1, ..written }
    } else {
        next_line(written)
    }
}

/// A control byte: line feed moves to the next line, every other byte is
/// ignored.
pub open spec fn execute_byte(s: Screen, byte: u8) -> Screen {
    if byte == 10 {
        next_line(s)
    } else {
        s
    }
}

/// The cursor's row with the columns in `from..to` blanked.
pub open spec fn clear_span(s: Screen, from: nat, to: nat) -> Screen {
    let line = Seq::new(
        s.columns,
        |j: int|
            if from <= j < to {
                blank_cell()
            } else {
                s.cells[s.row as int][j]
            },
    );
    Screen { cells: s.cells.update(s.row as int, line), ..s }
}

/// Parameter 0 of a control sequence, or `d` where there is none.
pub open spec fn first_param(params: Seq<u16>, d: nat) -> nat {
    if params.len() > 0 {
        params[0] as nat
    } else {
        d
    }
}

/// Parameter 1 of a control sequence, or `d` where there is none.
pub open spec fn second_param(params: Seq<u16>, d: nat) -> nat {
    if params.len() > 1 {
        params[1] as nat
    } else {
        d
    }
}

/// The effect of a control sequence with parameters `params` and final
/// byte `action`. Sequences outside the supported set change nothing.
pub open spec fn csi_effect(s: Screen, params: Seq<u16>, action: char) -> Screen {
    let n = first_param(params, 0);
    let last_row = (s.rows - 1) as nat;
    let last_col = (s.columns - 1) as nat;
    if action == 'A' {
        Screen { row: minus_floor(s.row, n), ..s }
    } else if action == 'B' {
        Screen { row: at_most(s.row + n, last_row), ..s }
    } else if action == 'C' {
        Screen { col: at_most(s.col + n, last_col), ..s }
    } else if action == 'D' {
        Screen { col: minus_floor(s.col, n), ..s }
    } else if action == 'E' {
        Screen { row: at_most(s.row + first_param(params, 1), last_row), col: 0, ..s }
    } else if action == 'F' {
        Screen { row: minus_floor(s.row, first_param(params, 1)), col: 0, ..s }
    } else if action == 'G' {
        Screen { col: at_most(n, last_col), ..s }
    } else if action == 'H' || action == 'f' {
        Screen { row: at_most(n, last_row), col: at_most(second_param(params, 0), last_col), ..s }
    } else if action == 'J' {
        if n == 3 {
            Screen { cells: blank_cells(s.rows, s.columns), ..s }
        } else {
            s
        }
    } else if action == 'K' {
        if n == 0 {
            clear_span(s, s.col, s.columns)
        } else if n == 1 {
            clear_span(s, 0, s.col)
        } else if n == 2 {
            clear_span(s, 0, s.columns)
        } else {
            s
        }
    } else if action == 'm' {
        Screen { style: TerminalStyle { foreground: sgr_color(params, s.style.foreground) }, ..s }
    } else {
        s
    }
}

/// At least one: a grid always keeps one row and one column.
pub open spec fn at_least_one(n: nat) -> nat {
    if n == 0 {
        1
    } else {
        n
    }
}

/// How many cells of `cell` pixels fit in `pixels`, rounded down, and at
/// least one.
pub open spec fn cells_in(pixels: nat, cell: nat) -> nat {
    if cell == 0 {
        1
    } else {
        at_least_one(pixels / cell)
    }
}

/// The grid cut or padded to `rows` x `columns`: cells inside both the
/// old and the new bounds are kept, new positions are blank, and the
/// cursor is held inside the new bounds.
pub open spec fn resized(s: Screen, rows: nat, columns: nat) -> Screen {
    Screen {
        rows,
        columns,
        cells: Seq::new(
            rows,
            |r: int|
                Seq::new(
                    columns,
                    |c: int|
                        if r < s.rows && c < s.columns {
                            s.cells[r][c]
                        } else {
                            blank_cell()
                        },
                ),
        ),
        row: at_most(s.row, (rows - 1) as nat),
        col: at_most(s.col, (columns - 1) as nat),
        style: s.style,
    }
}

/// The effect of one action.
pub open spec fn apply_action(s: Screen, a: Action) -> Screen {
    match a {
        Action::Print(c) => print_char(s, c),
        Action::Execute(b) => execute_byte(s, b),
        Action::Csi(params, action) => csi_effect(s, params@, action),
    }
}

/// The effect of a sequence of actions, applied in order.
pub open spec fn apply_actions(s: Screen, actions: Seq<Action>) -> Screen
    decreases actions.len(),
{
    if actions.len() == 0 {
        s
    } else {
        apply_action(apply_actions(s, actions.drop_last()), actions.last())
    }
}

/// Every action of the run prints a character.
pub open spec fn all_prints(actions: Seq<Action>) -> bool {
    forall|i: int| 0 <= i < actions.len() ==> (#[trigger] actions[i]) is Print
}

} // verus!
