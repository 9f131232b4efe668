//! Emission of border lines and content lines.
use vstd::prelude::*;
use crate::model::{row_fits, shown_columns, text_block, text_bytes, text_cells, text_line, text_width, SPACE, VERT, border_block, border_cells, border_line, nat_seq, repeat, CORNER, HORIZ, NEWLINE};

verus! {

/// Appends `n` copies of `b`.
fn push_repeated(out: &mut Vec<u8>, b: u8, n: usize)
    ensures
        final(out)@ == old(out)@ + repeat(b, n as nat),
{
    let mut k: usize = 0;
    while k < n
        invariant
            k <= n,
            out@ == old(out)@ + repeat(b, k as nat),
        decreases n - k,
    {
        out.push(b);
        k = k + 1;
        assert(out@ =~= old(out)@ + repeat(b, k as nat));
    }
}

/// Appends a border line for the column widths `widths`: a corner, then for
/// each column `w + 2` dashes and a corner, then a newline. Nothing is
/// appended when there are no columns or the first column has width zero.
pub fn render_border_line(out: &mut Vec<u8>, widths: &[usize])
    ensures
        final(out)@ == old(out)@ + border_line(nat_seq(widths@)),
{
    let ghost w = nat_seq(widths@);
    if widths.len() == 0 || widths[0] == 0 {
        return;
    }
    out.push(CORNER);
    let mut i: usize = 0;
    while i < widths.len()
        invariant
            w == nat_seq(widths@),
            i <= widths@.len(),
            out@ == old(out)@ + seq![CORNER] + border_cells(w, i as int),
        decreases widths@.len() - i,
    {
        push_repeated(out, HORIZ, 2);
        push_repeated(out, HORIZ, widths[i]);
        out.push(CORNER);
        i = i + 1;
        assert(repeat(HORIZ, 2) + repeat(HORIZ, w[i - 1]) =~= border_block(w[i - 1]));
        assert(out@ =~= old(out)@ + seq![CORNER] + border_cells(w, i as int));
    }
    out.push(NEWLINE);
    assert(out@ =~= old(out)@ + border_line(w));
}

} // verus!

verus! {

/// Appends the bytes of `s`.
fn push_text(out: &mut Vec<u8>, s: &str)
    ensures
        final(out)@ == old(out)@ + text_bytes(s@),
{
    let b = s.as_bytes();
    let mut k: usize = 0;
    while k < b.len()
        invariant
            k <= b@.len(),
            b@ == text_bytes(s@),
            out@ == old(out)@ + b@.subrange(0, k as int),
        decreases b@.len() - k,
    {
        out.push(b[k]);
        k = k + 1;
        assert(out@ =~= old(out)@ + b@.subrange(0, k as int));
    }
    assert(b@.subrange(0, b@.len() as int) =~= b@);
}

/// Appends a content line for `row` under the column widths `widths`: a
/// vertical border, then for each column one space, the cell's text, padding
/// up to `w + 2` bytes and a vertical border, then a newline. Nothing is
/// appended when there are no columns or the first column has width zero.
pub fn render_text_line(out: &mut Vec<u8>, widths: &[usize], row: &[String])
    requires
        row_fits(nat_seq(widths@), row.deep_view()),
    ensures
        final(out)@ == old(out)@ + text_line(nat_seq(widths@), row.deep_view()),
{
    let ghost w = nat_seq(widths@);
    let ghost t = row.deep_view();
    if widths.len() == 0 || widths[0] == 0 {
        return;
    }
    let n: usize = if widths.len() <= row.len() { widths.len() } else { row.len() };
    out.push(VERT);
    let mut i: usize = 0;
    while i < n
        invariant
            w == nat_seq(widths@),
            t == row.deep_view(),
            n == shown_columns(w, t),
            n <= widths@.len(),
            n <= row@.len(),
            row_fits(w, t),
            i <= n,
            out@ == old(out)@ + seq![VERT] + text_cells(w, t, i as int),
        decreases n - i,
    {
        let s = row[i].as_str();
        assert(t[i as int] == s@);
        assert(text_width(t[i as int]) <= w[i as int]);
        let extra = widths[i] - s.len();
        out.push(SPACE);
        push_text(out, s);
        push_repeated(out, SPACE, extra);
        out.push(SPACE);
        out.push(VERT);
        i = i + 1;
        assert(seq![SPACE] + text_bytes(s@) + repeat(SPACE, extra as nat) + seq![SPACE]
            =~= text_block(w[i - 1], t[i - 1]));
        assert(out@ =~= old(out)@ + seq![VERT] + text_cells(w, t, i as int));
    }
    out.push(NEWLINE);
    assert(out@ =~= old(out)@ + text_line(w, t));
}

} // verus!
