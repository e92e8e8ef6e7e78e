use vstd::prelude::*;

verus! {

/// A half-open byte range `start..end` in the source text.
#[derive(Clone, Copy, Debug, PartialEq, Eq, Structural)]
pub struct Span {
    pub start: usize,
    pub end: usize,
}

impl Span {
    pub fn new(start: usize, end: usize) -> (span: Span)
        ensures
            span.start == start,
            span.end == end,
    {
        Span { start, end }
    }

    /// The range that begins where `self` begins and ends where `other` ends.
    pub fn extend(&self, other: Span) -> (span: Span)
        ensures
            span.start == self.start,
            span.end == other.end,
    {
        Span { start: self.start, end: other.end }
    }
}

} // verus!
