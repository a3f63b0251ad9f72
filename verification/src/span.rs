//! Positions of values in the configuration text.

use crate::errors::validation::SourceSpan;
use vstd::prelude::*;

verus! {

/// A byte range `start..end` of the configuration text.
#[derive(Debug, Clone, Copy, PartialEq, Eq, Structural)]
pub struct Span {
    pub start: usize,
    pub end: usize,
}

/// A value together with the place it was written.
#[derive(Debug, Clone)]
pub struct Spanned<T> {
    pub value: T,
    pub span: Span,
}

/// The diagnostic region of a span: its start and its length, an inverted
/// range counting as empty.
pub open spec fn source_span(span: Span) -> SourceSpan {
    SourceSpan {
        offset: span.start,
        length: if span.end >= span.start { (span.end - span.start) as usize } else { 0 },
    }
}

/// The diagnostic region of a span.
pub fn to_source_span(span: Span) -> (region: SourceSpan)
    ensures
        region == source_span(span),
{
    SourceSpan { offset: span.start, length: span.end.saturating_sub(span.start) }
}

} // verus!
