//! Width measurement and whole-table rendering.
use vstd::prelude::*;
use crate::line::{render_border_line, render_text_line};
use crate::model::{border_line, nat_seq, row_fits, text_line, text_width};

verus! {

/// Rows of a table do not all have the length of the first row.
#[derive(Debug, PartialEq, Eq)]
pub struct RaggedRows;

/// Every row has the length of the first row.
pub open spec fn is_rectangular(t: Seq<Seq<Seq<char>>>) -> bool {
    forall|i: int| 0 <= i < t.len() ==> #[trigger] t[i].len() == t[0].len()
}

/// The widest cell of column `j` among the first `n` rows (zero for none).
pub open spec fn column_width(t: Seq<Seq<Seq<char>>>, j: int, n: int) -> nat
    decreases n,
{
    if n <= 0 {
        0
    } else {
        let w = column_width(t, j, n - 1);
        let c = text_width(t[n - 1][j]);
        if c > w { c } else { w }
    }
}

/// The width of each column of a table; none for a table without rows.
pub open spec fn table_widths(t: Seq<Seq<Seq<char>>>) -> Seq<nat> {
    if t.len() == 0 {
        seq![]
    } else {
        Seq::new(t[0].len(), |j: int| column_width(t, j, t.len() as int))
    }
}

/// The content lines of the first `n` rows, each followed by a border line.
pub open spec fn rows_text(w: Seq<nat>, t: Seq<Seq<Seq<char>>>, n: int) -> Seq<u8>
    decreases n,
{
    if n <= 0 {
        seq![]
    } else {
        rows_text(w, t, n - 1) + text_line(w, t[n - 1]) + border_line(w)
    }
}

/// The whole rendered table: a border line, then each row's content line
/// followed by a border line.
pub open spec fn table_text(t: Seq<Seq<Seq<char>>>) -> Seq<u8> {
    border_line(table_widths(t)) + rows_text(table_widths(t), t, t.len() as int)
}

/// What rendering `t` onto a buffer holding `before` leaves in it.
pub open spec fn renders_to(t: Seq<Seq<Seq<char>>>, before: Seq<u8>, after: Seq<u8>) -> bool {
    if is_rectangular(t) {
        after == before + table_text(t)
    } else {
        after == before
    }
}

/// Every cell of the first `n` rows fits the column's width over them.
pub proof fn lemma_column_width_bounds(t: Seq<Seq<Seq<char>>>, j: int, n: int, k: int)
    requires
        0 <= k < n,
    ensures
        text_width(t[k][j]) <= column_width(t, j, n),
    decreases n,
{
    if k < n - 1 {
        lemma_column_width_bounds(t, j, n - 1, k);
    }
}

/// Measures each column of a table: the largest byte length of its cells.
/// A table without rows has no columns; a ragged table gives `None`.
pub fn widths(data: &[Vec<String>]) -> (r: Option<Vec<usize>>)
    ensures
        r is Some <==> is_rectangular(data.deep_view()),
        r matches Some(w) ==> nat_seq(w@) == table_widths(data.deep_view()),
{
    let ghost t = data.deep_view();
    if data.len() == 0 {
        let w: Vec<usize> = Vec::new();
        assert(nat_seq(w@) =~= table_widths(t));
        return Some(w);
    }
    let row_len = data[0].len();
    let mut w: Vec<usize> = Vec::new();
    let mut j: usize = 0;
    while j < row_len
        invariant
            j <= row_len,
            w@.len() == j,
            forall|m: int| 0 <= m < j ==> #[trigger] w@[m] == 0,
        decreases row_len - j,
    {
        w.push(0);
        j = j + 1;
    }
    let mut i: usize = 0;
    while i < data.len()
        invariant
            t == data.deep_view(),
            t.len() > 0,
            row_len == t[0].len(),
            i <= t.len(),
            w@.len() == row_len,
            forall|k: int| 0 <= k < i ==> #[trigger] t[k].len() == row_len,
            forall|m: int| 0 <= m < row_len ==> #[trigger] w@[m] == column_width(t, m, i as int),
        decreases t.len() - i,
    {
        let row = &data[i];
        assert(t[i as int] == row.deep_view());
        if row.len() != row_len {
            return None;
        }
        let mut j: usize = 0;
        while j < row_len
            invariant
                t == data.deep_view(),
                i < t.len(),
                t[i as int] == row.deep_view(),
                row@.len() == row_len,
                j <= row_len,
                w@.len() == row_len,
                forall|m: int| 0 <= m < j ==> #[trigger] w@[m] == column_width(t, m, i + 1),
                forall|m: int| j <= m < row_len ==> #[trigger] w@[m] == column_width(t, m, i as int),
            decreases row_len - j,
        {
            let s = row[j].as_str();
            let len = s.as_bytes().len();
            assert(t[i as int][j as int] == s@);
            assert(len == text_width(s@));
            if len > w[j] {
                w.set(j, len);
            }
            assert(w@[j as int] == column_width(t, j as int, i + 1));
            j = j + 1;
        }
        i = i + 1;
    }
    assert(nat_seq(w@) =~= table_widths(t));
    Some(w)
}

/// Appends the rendered table to `out`: a border line, then for each row a
/// content line and a border line. A ragged table gives an error and
/// appends nothing.
pub fn render(out: &mut Vec<u8>, data: &[Vec<String>]) -> (r: Result<(), RaggedRows>)
    ensures
        r is Ok <==> is_rectangular(data.deep_view()),
        renders_to(data.deep_view(), old(out)@, final(out)@),
{
    let ghost t = data.deep_view();
    let widths = match widths(data) {
        Some(w) => w,
        None => return Err(RaggedRows),
    };
    let ghost w = nat_seq(widths@);
    render_border_line(out, widths.as_slice());
    let mut i: usize = 0;
    while i < data.len()
        invariant
            t == data.deep_view(),
            is_rectangular(t),
            w == nat_seq(widths@),
            w == table_widths(t),
            i <= t.len(),
            out@ == old(out)@ + border_line(w) + rows_text(w, t, i as int),
        decreases t.len() - i,
    {
        assert(t[i as int] == data[i as int].deep_view());
        assert forall|m: int| 0 <= m < w.len() implies #[trigger] text_width(t[i as int][m]) <= w[m] by {
            lemma_column_width_bounds(t, m, t.len() as int, i as int);
        }
        assert(row_fits(w, t[i as int]));
        render_text_line(out, widths.as_slice(), data[i].as_slice());
        render_border_line(out, widths.as_slice());
        i = i + 1;
        assert(out@ =~= old(out)@ + border_line(w) + rows_text(w, t, i as int));
    }
    assert(out@ =~= old(out)@ + table_text(t));
    Ok(())
}

} // verus!
