use vstd::prelude::*;

use crate::screen::{
    all_prints, apply_actions, blank_cell, csi_effect, print_char, Screen, TerminalCell,
};
use crate::stream::Action;

verus! {

/// Applying two runs of actions one after the other has the same effect as
/// applying them joined into one run. So the grid ends the same whether a
/// sequence reaches it in one chunk or in two.
pub proof fn lemma_actions_concat(s: Screen, a: Seq<Action>, b: Seq<Action>)
    ensures
        apply_actions(s, a + b) == apply_actions(apply_actions(s, a), b),
    decreases b.len(),
{
    if b.len() == 0 {
        assert(a + b =~= a);
    } else {
        lemma_actions_concat(s, a, b.drop_last());
        assert((a + b).drop_last() =~= a + b.drop_last());
        assert((a + b).last() == b.last());
    }
}

/// Characters printed where they fit in the cursor's row land in that row,
/// in order, from the cursor's column on, each in the active style. The
/// cursor ends just after them and no other cell changes.
pub proof fn lemma_print_within_row(s: Screen, text: Seq<Action>)
    requires
        s.wf(),
        all_prints(text),
        s.col + text.len() < s.columns,
    ensures
        apply_actions(s, text).wf(),
        apply_actions(s, text) == (Screen {
            cells: apply_actions(s, text).cells,
            col: s.col + text.len(),
            ..s
        }),
        forall|k: int|
            0 <= k < text.len() ==> #[trigger] apply_actions(s, text).cells[s.row as int][s.col + k]
                == (TerminalCell { style: s.style, content: text[k]->Print_0 }),
        forall|r: int, c: int|
            0 <= r < s.rows && 0 <= c < s.columns && !(r == s.row && s.col <= c < s.col + text.len())
                ==> #[trigger] apply_actions(s, text).cells[r][c] == s.cells[r][c],
    decreases text.len(),
{
    if text.len() > 0 {
        let init = text.drop_last();
        assert forall|i: int| 0 <= i < init.len() implies (#[trigger] init[i]) is Print by {
            assert(init[i] == text[i]);
        }
        lemma_print_within_row(s, init);
        let mid = apply_actions(s, init);
        let c = text.last()->Print_0;
        assert(text.last() is Print);
        assert(apply_actions(s, text) == print_char(mid, c));
        let t = print_char(mid, c);
        assert forall|k: int| 0 <= k < text.len() implies #[trigger] t.cells[s.row as int][s.col + k]
            == (TerminalCell { style: s.style, content: text[k]->Print_0 }) by {
            if k < init.len() {
                assert(init[k] == text[k]);
                assert(mid.cells[s.row as int][s.col + k] == (TerminalCell {
                    style: s.style,
                    content: init[k]->Print_0,
                }));
            }
        }
        assert forall|r: int, c: int|
            0 <= r < s.rows && 0 <= c < s.columns && !(r == s.row && s.col <= c < s.col
                + text.len()) implies #[trigger] t.cells[r][c] == s.cells[r][c] by {
            assert(mid.cells[r][c] == s.cells[r][c]);
        }
    }
}

/// Printing one more character than the row holds, from column 0 of a row
/// that has a row below it, fills the row with the first characters and
/// puts the last one at column 0 of the next row. (Where the grid is one
/// column wide, the row after that must exist too, or the grid scrolls.)
pub proof fn lemma_wrap_to_next_row(s: Screen, text: Seq<Action>)
    requires
        s.wf(),
        all_prints(text),
        s.col == 0,
        s.row + 1 < s.rows,
        s.columns > 1 || s.row + 2 < s.rows,
        text.len() == s.columns + 1,
    ensures
        apply_actions(s, text).cells[s.row + 1int][0] == (TerminalCell {
            style: s.style,
            content: text[s.columns as int]->Print_0,
        }),
        forall|k: int|
            0 <= k < s.columns ==> #[trigger] apply_actions(s, text).cells[s.row as int][k] == (
            TerminalCell { style: s.style, content: text[k]->Print_0 }),
{
    let n = s.columns as int;
    let head = text.take(n - 1);
    let first_two = text.take(n);
    assert(text.drop_last() =~= first_two);
    assert(first_two.drop_last() =~= head);
    assert forall|i: int| 0 <= i < head.len() implies (#[trigger] head[i]) is Print by {
        assert(head[i] == text[i]);
    }
    lemma_print_within_row(s, head);
    let a = apply_actions(s, head);
    assert(text[n - 1] is Print && text[n] is Print);
    let b = print_char(a, text[n - 1]->Print_0);
    assert(apply_actions(s, first_two) == b);
    assert(b.row == s.row + 1 && b.col == 0);
    let t = print_char(b, text[n]->Print_0);
    assert(apply_actions(s, text) == t);
    assert forall|k: int| 0 <= k < s.columns implies #[trigger] t.cells[s.row as int][k] == (
    TerminalCell { style: s.style, content: text[k]->Print_0 }) by {
        if k < n - 1 {
            assert(head[k] == text[k]);
            assert(a.cells[s.row as int][s.col + k] == (TerminalCell {
                style: s.style,
                content: head[k]->Print_0,
            }));
        }
    }
}

/// Erasing the whole line and then printing characters that fit leaves the
/// cursor's row holding those characters from the cursor's column on and
/// blanks everywhere else; other rows are untouched.
pub proof fn lemma_erase_line_then_print(s: Screen, text: Seq<Action>)
    requires
        s.wf(),
        all_prints(text),
        s.col + text.len() < s.columns,
    ensures
        ({
            let t = apply_actions(csi_effect(s, seq![2u16], 'K'), text);
            &&& t.wf()
            &&& t.row == s.row
            &&& t.col == s.col + text.len()
            &&& forall|c: int|
                0 <= c < s.columns ==> #[trigger] t.cells[s.row as int][c] == if s.col <= c < s.col
                    + text.len() {
                    TerminalCell { style: s.style, content: text[c - s.col]->Print_0 }
                } else {
                    blank_cell()
                }
            &&& forall|r: int, c: int|
                0 <= r < s.rows && r != s.row && 0 <= c < s.columns ==> #[trigger] t.cells[r][c]
                    == s.cells[r][c]
        }),
{
    let e = csi_effect(s, seq![2u16], 'K');
    assert(e.wf());
    lemma_print_within_row(e, text);
    let t = apply_actions(e, text);
    assert forall|c: int| 0 <= c < s.columns implies #[trigger] t.cells[s.row as int][c] == if s.col
        <= c < s.col + text.len() {
        TerminalCell { style: s.style, content: text[c - s.col]->Print_0 }
    } else {
        blank_cell()
    } by {
        if s.col <= c < s.col + text.len() {
            assert(t.cells[s.row as int][s.col + (c - s.col)] == (TerminalCell {
                style: s.style,
                content: text[c - s.col]->Print_0,
            }));
        }
    }
    assert forall|r: int, c: int|
        0 <= r < s.rows && r != s.row && 0 <= c < s.columns implies #[trigger] t.cells[r][c]
        == s.cells[r][c] by {
        assert(e.cells[r][c] == s.cells[r][c]);
    }
}

/// Erasing the display with parameter 3 blanks every cell wherever the
/// cursor is, and leaves the cursor where it was.
pub proof fn lemma_erase_display(s: Screen)
    requires
        s.wf(),
    ensures
        ({
            let t = csi_effect(s, seq![3u16], 'J');
            &&& t.wf()
            &&& t.row == s.row
            &&& t.col == s.col
            &&& forall|r: int, c: int|
                0 <= r < s.rows && 0 <= c < s.columns ==> #[trigger] t.cells[r][c] == blank_cell()
        }),
{
}

} // verus!
