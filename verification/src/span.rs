//! Source locations attached to syntax nodes and carried into diagnostics.

use vstd::prelude::*;

verus! {

/// A position in the text of a query, counted from line 1, column 1.
#[derive(Clone, Copy, Debug, PartialEq, Eq, Structural)]
pub struct Location {
    pub line: u64,
    pub column: u64,
}

/// A range of the query text, from `start` up to `end`.
///
/// Where a node or a diagnostic has no location, it holds `None` in place of
/// a span, and whatever presents the diagnostic leaves the marker out.
#[derive(Clone, Copy, Debug, PartialEq, Eq, Structural)]
pub struct Span {
    pub start: Location,
    pub end: Location,
}

impl Span {
    /// The span from `start` to `end`.
    pub fn new(start: Location, end: Location) -> (span: Span)
        ensures
            span == (Span { start, end }),
    {
        Span { start, end }
    }
}

} // verus!
