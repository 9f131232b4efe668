//! Properties that hold of every rendering.
use vstd::prelude::*;
use crate::model::{border_line, text_line};
use crate::table::{renders_to, rows_text, table_text, table_widths};

verus! {

/// Rendering is deterministic: two renderings of the same table onto equal
/// buffers leave equal buffers, byte for byte.
pub proof fn lemma_render_deterministic(
    t: Seq<Seq<Seq<char>>>,
    before: Seq<u8>,
    after1: Seq<u8>,
    after2: Seq<u8>,
)
    requires
        renders_to(t, before, after1),
        renders_to(t, before, after2),
    ensures
        after1 == after2,
{
}

/// Content and border lines of `n` rows are all empty for widths that draw nothing.
proof fn lemma_blank_rows(w: Seq<nat>, t: Seq<Seq<Seq<char>>>, n: int)
    requires
        border_line(w) == Seq::<u8>::empty(),
        forall|r: Seq<Seq<char>>| #[trigger] text_line(w, r) == Seq::<u8>::empty(),
    ensures
        rows_text(w, t, n) == Seq::<u8>::empty(),
    decreases n,
{
    if n > 0 {
        lemma_blank_rows(w, t, n - 1);
        assert(rows_text(w, t, n) =~= Seq::<u8>::empty());
    }
}

/// A table without rows, or whose first row has no cells, renders to no bytes.
pub proof fn lemma_empty_table_renders_nothing(t: Seq<Seq<Seq<char>>>)
    requires
        t.len() == 0 || t[0].len() == 0,
    ensures
        table_text(t) == Seq::<u8>::empty(),
{
    let w = table_widths(t);
    assert(w.len() == 0);
    lemma_blank_rows(w, t, t.len() as int);
    assert(table_text(t) =~= Seq::<u8>::empty());
}

} // verus!
