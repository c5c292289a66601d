//! Positions and spans in source text.

use std::sync::Arc;

use vstd::prelude::*;

verus! {

/// A position in source text.
#[derive(Clone, Copy, Debug, PartialEq, Eq)]
pub struct SourcePosition {
    /// The 0-based index of the character in the input.
    pub index: usize,
    /// The 1-based line number.
    pub line: usize,
    /// The 1-based column number.
    pub column: usize,
}

impl Default for SourcePosition {
    fn default() -> (p: SourcePosition)
        ensures
            p == (SourcePosition { index: 0, line: 0, column: 0 }),
    {
        SourcePosition { index: 0, line: 0, column: 0 }
    }
}

/// A span of source text.
#[derive(Debug, PartialEq, Eq)]
pub struct SourceSpan {
    /// Where the span starts.
    pub start: Arc<SourcePosition>,
    /// Where the span ends.
    pub end: Arc<SourcePosition>,
}

/// Another handle to a shared position.
///
/// Stands for `Arc::clone`, which gives a pointer to the same value.
#[verifier::external_body]
fn share(p: &Arc<SourcePosition>) -> (r: Arc<SourcePosition>)
    ensures
        r == *p,
{
    Arc::clone(p)
}

impl Clone for SourceSpan {
    fn clone(&self) -> (r: SourceSpan)
        ensures
            r == *self,
    {
        SourceSpan { start: share(&self.start), end: share(&self.end) }
    }
}

impl Default for SourceSpan {
    fn default() -> (r: SourceSpan)
        ensures
            r == SourceSpan::unknown(),
    {
        SourceSpan {
            start: Arc::new(SourcePosition { index: 0, line: 0, column: 0 }),
            end: Arc::new(SourcePosition { index: 0, line: 0, column: 0 }),
        }
    }
}

impl SourceSpan {
    /// The span of text that has no source.
    pub open spec fn unknown() -> SourceSpan {
        SourceSpan {
            start: Arc::new(SourcePosition { index: 0, line: 0, column: 0 }),
            end: Arc::new(SourcePosition { index: 0, line: 0, column: 0 }),
        }
    }

    /// The span from the start of one span to the end of another.
    pub open spec fn spanning(start: SourceSpan, end: SourceSpan) -> SourceSpan {
        SourceSpan { start: start.start, end: end.end }
    }

    /// The span from the start of `start` to the end of `end`.
    pub fn within(start: &SourceSpan, end: &SourceSpan) -> (r: SourceSpan)
        ensures
            r == SourceSpan::spanning(*start, *end),
    {
        SourceSpan { start: share(&start.start), end: share(&end.end) }
    }
}

} // verus!
