//! Counting and slicing operations over delimited tabular text.
//!
//! The crate offers three operations: counting rows, counting columns, and
//! extracting a contiguous range (or a single record) of rows, with support
//! for end-relative negative indices and half-open range semantics. Input is
//! given as either a file path or an in-memory text buffer, never both.

use vstd::prelude::*;

pub mod count;
pub mod laws;
pub mod model;
mod reader;
pub mod slice;

pub use count::ColumnCount;
pub use count::RowCount;
pub use slice::Slice;

verus! {

/// The ways an operation can fail.
#[derive(Clone, Copy, Debug, PartialEq, Eq, Structural)]
pub enum CzvError {
    /// The caller-supplied parameter combination is invalid: both or neither
    /// source given, an index combined with range parameters, or an end
    /// combined with a length.
    Configuration,
    /// The named file cannot be opened or read.
    Source,
    /// The content cannot be tokenized as delimited records.
    Parse,
    /// A normalized bound falls outside the record range.
    Range,
    /// A range or index passed the declared validation but cannot be
    /// satisfied during the extraction pass.
    Extraction,
}

} // verus!
