//! Tables of text, drawn with borders.

use crate::protocol::texts;
use prettytable::{Cell, Row, Table};
use vstd::prelude::*;
use vstd::string::StringExecFns;

verus! {

/// What is written in a cell in place of the character that starts a
/// terminal escape.
pub const PLACEHOLDER: &'static str = "?";

/// The text in which `prettytable` draws a table of these cells, row by
/// row, in its default format.
pub uninterp spec fn table_text(cells: Seq<Seq<Seq<char>>>) -> Seq<char>;

/// The cells of a list of rows.
pub open spec fn grid(rows: Seq<Vec<String>>) -> Seq<Seq<Seq<char>>> {
    rows.map_values(|row: Vec<String>| texts(row@))
}

/// Whether a character starts a terminal escape.
pub open spec fn is_escape(c: char) -> bool {
    c == '\u{1b}'
}

/// The character that a cell shows for a character of its text: a
/// question mark for the one that starts a terminal escape, and every
/// other character as it is.
pub open spec fn plain_char(c: char) -> char {
    if is_escape(c) {
        '?'
    } else {
        c
    }
}

/// The text that a cell shows: no terminal escape begins in it.
pub open spec fn plain(text: Seq<char>) -> Seq<char> {
    text.map_values(|c: char| plain_char(c))
}

/// What the cells of a table show.
pub open spec fn plain_cells(cells: Seq<Seq<Seq<char>>>) -> Seq<Seq<Seq<char>>> {
    cells.map_values(|row: Seq<Seq<char>>| row.map_values(|text: Seq<char>| plain(text)))
}

/// Whether no terminal escape begins in a text.
pub open spec fn has_no_escape(text: Seq<char>) -> bool {
    forall|k: int| 0 <= k < text.len() ==> !is_escape(#[trigger] text[k])
}

/// Whether no terminal escape begins in any cell of a table.
pub open spec fn cells_have_no_escape(cells: Seq<Seq<Seq<char>>>) -> bool {
    forall|r: int, c: int|
        0 <= r < cells.len() && 0 <= c < cells[r].len() ==> has_no_escape(#[trigger] cells[r][c])
}

/// Draws a table with `prettytable`: a `Table::new()`, one `add_row` of
/// `Row::new` over a `Cell::new` for each text, then `to_string`. Claims
/// only that the drawing is a function of the cells' texts. `Cell::new`
/// measures its text with a function that can panic on what follows the
/// character U+001B, so texts that hold this character are left out.
#[verifier::external_body]
pub(crate) fn draw_table(rows: &Vec<Vec<String>>) -> (text: String)
    requires
        cells_have_no_escape(grid(rows@)),
    ensures
        text@ == table_text(grid(rows@)),
{
    let mut table = Table::new();
    for row in rows.iter() {
        table.add_row(Row::new(row.iter().map(|cell| Cell::new(cell)).collect()));
    }
    table.to_string()
}

/// Writes the text that a cell shows for a text.
pub fn show(text: &str) -> (shown: String)
    ensures
        shown@ == plain(text@),
        has_no_escape(shown@),
{
    proof {
        reveal_strlit("?");
    }
    let n = text.unicode_len();
    let mut shown = String::new();
    let mut i: usize = 0;
    assert(shown@ =~= plain(text@.take(0)));
    while i < n
        invariant
            i <= n,
            n == text@.len(),
            PLACEHOLDER@ == seq!['?'],
            shown@ == plain(text@.take(i as int)),
        decreases n - i,
    {
        let c = text.get_char(i);
        let ghost before = shown@;
        if c == '\u{1b}' {
            shown.append(PLACEHOLDER);
        } else {
            shown.append(text.substring_char(i, i + 1));
        }
        assert(shown@ =~= before.push(plain_char(c)));
        assert(shown@ =~= plain(text@.take(i + 1)));
        i = i + 1;
    }
    assert(text@.take(n as int) =~= text@);
    shown
}

/// Draws the cells of a table as text, each cell showing its text without
/// the beginning of any terminal escape.
pub fn draw(cells: &Vec<Vec<String>>) -> (text: String)
    ensures
        text@ == table_text(plain_cells(grid(cells@))),
{
    let ghost wanted = plain_cells(grid(cells@));
    let mut shown: Vec<Vec<String>> = Vec::new();
    let mut r: usize = 0;
    assert(grid(shown@) =~= wanted.take(0));
    while r < cells.len()
        invariant
            r <= cells@.len(),
            wanted == plain_cells(grid(cells@)),
            grid(shown@) == wanted.take(r as int),
            cells_have_no_escape(grid(shown@)),
        decreases cells@.len() - r,
    {
        let row = &cells[r];
        let ghost row_wanted = wanted[r as int];
        let mut line: Vec<String> = Vec::new();
        let mut c: usize = 0;
        assert(texts(line@) =~= row_wanted.take(0));
        while c < row.len()
            invariant
                c <= row@.len(),
                row_wanted == texts(row@).map_values(|text: Seq<char>| plain(text)),
                texts(line@) == row_wanted.take(c as int),
                forall|k: int| 0 <= k < line@.len() ==> has_no_escape(#[trigger] line@[k]@),
            decreases row@.len() - c,
        {
            let ghost so_far = line@;
            let cell = show(row[c].as_str());
            line.push(cell);
            assert(texts(line@) =~= texts(so_far).push(plain(row@[c as int]@)));
            assert(texts(line@) =~= row_wanted.take(c + 1));
            c = c + 1;
        }
        assert(row_wanted.take(c as int) =~= row_wanted);
        let ghost before = shown@;
        shown.push(line);
        assert(grid(shown@) =~= grid(before).push(row_wanted));
        assert(grid(shown@) =~= wanted.take(r + 1));
        assert forall|i: int, j: int|
            0 <= i < grid(shown@).len() && 0 <= j < grid(shown@)[i].len() implies has_no_escape(
            #[trigger] grid(shown@)[i][j],
        ) by {
            if i < before.len() {
                assert(grid(shown@)[i] == grid(before)[i]);
                assert(has_no_escape(grid(before)[i][j]));
            } else {
                assert(grid(shown@)[i][j] == line@[j]@);
            }
        }
        r = r + 1;
    }
    assert(wanted.take(r as int) =~= wanted);
    draw_table(&shown)
}

} // verus!
