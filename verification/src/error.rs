//! The crate's `Result` type and error enum.

use vstd::prelude::*;

verus! {

/// The failures a chart build can report.
#[derive(Debug, Clone, Copy, PartialEq, Eq, Structural)]
pub enum ChartErrors {
    /// The data sequence handed to label generation or to `draw` was empty.
    EmptyInput,
    /// A data value's floor label is missing from its axis's tick registry.
    LabelCoverageError,
    /// The composed image could not be encoded or persisted.
    RenderIoError,
}

pub type ChartResult<T> = Result<T, ChartErrors>;

} // verus!
