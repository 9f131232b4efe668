//! Rendering of rectangular grids of text cells as boxed monospace tables.
//!
//! A table is a slice of rows, each row a `Vec<String>` of cells that are
//! already in their display form. Output is appended, line by line, to a
//! byte buffer: a border line above the first row and below every row, and
//! one content line per row.
use vstd::prelude::*;

pub mod model;
pub mod line;
pub mod table;
pub mod laws;

pub use table::{render, widths, RaggedRows};

verus! {

} // verus!
