//! The mathematical model of a table and of the bytes it renders to.
use vstd::prelude::*;
use vstd::utf8::encode_utf8;

verus! {

/// Corner marker of a border line.
pub const CORNER: u8 = 0x2b;

/// Horizontal border character.
pub const HORIZ: u8 = 0x2d;

/// Vertical border marker of a content line.
pub const VERT: u8 = 0x7c;

/// Padding character.
pub const SPACE: u8 = 0x20;

/// Line terminator.
pub const NEWLINE: u8 = 0x0a;

/// The bytes a cell's text is written as.
pub open spec fn text_bytes(s: Seq<char>) -> Seq<u8> {
    encode_utf8(s)
}

/// The width of a cell: the length in bytes of its text.
pub open spec fn text_width(s: Seq<char>) -> nat {
    text_bytes(s).len()
}

/// `n` copies of the byte `b`.
pub open spec fn repeat(b: u8, n: nat) -> Seq<u8> {
    Seq::new(n, |_i: int| b)
}

/// Column widths as mathematical integers.
pub open spec fn nat_seq(w: Seq<usize>) -> Seq<nat> {
    w.map_values(|x: usize| x as nat)
}

/// A line for these widths is empty: no columns, or a first column of width zero.
pub open spec fn is_blank(w: Seq<nat>) -> bool {
    w.len() == 0 || w[0] == 0
}

/// The dash run of a column of width `w` in a border line.
pub open spec fn border_block(w: nat) -> Seq<u8> {
    repeat(HORIZ, w + 2)
}

/// The border line's columns `0..n`, each followed by its corner.
pub open spec fn border_cells(w: Seq<nat>, n: int) -> Seq<u8>
    decreases n,
{
    if n <= 0 {
        seq![]
    } else {
        border_cells(w, n - 1) + border_block(w[n - 1]) + seq![CORNER]
    }
}

/// A border line for the column widths `w`.
pub open spec fn border_line(w: Seq<nat>) -> Seq<u8> {
    if is_blank(w) {
        seq![]
    } else {
        seq![CORNER] + border_cells(w, w.len() as int) + seq![NEWLINE]
    }
}

/// The padded text of cell `c` in a column of width `w`: one space, the
/// text, then spaces up to `w + 2` bytes in all.
pub open spec fn text_block(w: nat, c: Seq<char>) -> Seq<u8> {
    seq![SPACE] + text_bytes(c) + repeat(SPACE, (w - text_width(c) + 1) as nat)
}

/// The number of columns that a content line shows: widths and cells are
/// taken pairwise.
pub open spec fn shown_columns(w: Seq<nat>, row: Seq<Seq<char>>) -> int {
    if w.len() <= row.len() {
        w.len() as int
    } else {
        row.len() as int
    }
}

/// Every cell of the row that is shown fits in its column.
pub open spec fn row_fits(w: Seq<nat>, row: Seq<Seq<char>>) -> bool {
    forall|i: int|
        0 <= i < shown_columns(w, row) ==> #[trigger] text_width(row[i]) <= w[i]
}

/// The content line's columns `0..n`, each followed by its vertical border.
pub open spec fn text_cells(w: Seq<nat>, row: Seq<Seq<char>>, n: int) -> Seq<u8>
    decreases n,
{
    if n <= 0 {
        seq![]
    } else {
        text_cells(w, row, n - 1) + text_block(w[n - 1], row[n - 1]) + seq![VERT]
    }
}

/// A content line for the row `row` under the column widths `w`.
pub open spec fn text_line(w: Seq<nat>, row: Seq<Seq<char>>) -> Seq<u8> {
    if is_blank(w) {
        seq![]
    } else {
        seq![VERT] + text_cells(w, row, shown_columns(w, row)) + seq![NEWLINE]
    }
}

} // verus!
