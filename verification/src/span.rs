//! Spans within the source document.
use std::ops::Range;

use vstd::prelude::*;

mod iter;
mod locator;
mod ranged;
mod unist;

pub use iter::{
    char_at, char_is_whitespace, lemma_first_word, lemma_word_bounds, lemma_word_is_whole,
    lemma_words_within, letter_at, next_boundary, space_at, word_end, word_start, words_from,
    SpanIterator,
};
pub use locator::{
    is_line, is_line_end, is_line_index, is_point_in, is_point_of, lemma_line_feed_boundaries,
    lemma_lines_ascend, lemma_lines_follow, Locator,
};
pub use ranged::Ranged;
pub use unist::{Point, Position};

verus! {

/// A half-open range of byte offsets into the source document.
///
/// The span `{0, 0}` stands for "no span available". Use a [`Locator`] to turn
/// a span into a [`Position`].
#[derive(Copy, Clone, Debug, Hash, PartialEq, Eq, Structural, PartialOrd, Ord)]
pub struct Span {
    /// The start offset of the span.
    pub start: usize,
    /// The end offset of the span.
    pub end: usize,
}

/// A value together with the span of the source that it came from.
#[derive(Clone, Copy, Debug, Eq, Hash, PartialEq)]
pub struct Spanned<T> {
    pub span: Span,
    pub value: T,
}

impl Span {
    /// The span from `start` up to, but not including, `end`.
    pub fn new(start: usize, end: usize) -> (span: Span)
        ensures
            span.start == start,
            span.end == end,
    {
        Span { start, end }
    }

    /// The span that stands for "no span".
    pub open spec fn empty() -> Span {
        Span { start: 0, end: 0 }
    }

    /// The part of `bytes` that the span covers.
    pub open spec fn of(self, bytes: Seq<u8>) -> Seq<u8> {
        bytes.subrange(self.start as int, self.end as int)
    }

    /// The span moved `offset` bytes towards the end of the document.
    pub fn offset(&self, offset: usize) -> (span: Span)
        requires
            offset + self.start <= usize::MAX,
            offset + self.end <= usize::MAX,
        ensures
            span.start == offset + self.start,
            span.end == offset + self.end,
    {
        Span { start: offset + self.start, end: offset + self.end }
    }
}

impl Default for Span {
    fn default() -> (span: Span)
        ensures
            span == (Span { start: 0, end: 0 }),
    {
        Span { start: 0, end: 0 }
    }
}

impl Ranged<usize> for Span {
    open spec fn spec_range(&self) -> Range<usize> {
        Range { start: self.start, end: self.end }
    }

    fn range(&self) -> (range: Range<usize>) {
        Range { start: self.start, end: self.end }
    }
}

impl<T> Spanned<T> {
    /// `value`, found at `span`.
    pub fn new(span: Span, value: T) -> (spanned: Spanned<T>)
        ensures
            spanned.span == span,
            spanned.value == value,
    {
        Spanned { value, span }
    }

    /// The value without its span.
    pub fn into_inner(self) -> (value: T)
        ensures
            value == self.value,
    {
        self.value
    }
}

impl From<Range<usize>> for Span {
    fn from(range: Range<usize>) -> (span: Span) {
        Span { start: range.start, end: range.end }
    }
}

impl vstd::std_specs::convert::FromSpecImpl<Range<usize>> for Span {
    open spec fn obeys_from_spec() -> bool {
        true
    }

    open spec fn from_spec(range: Range<usize>) -> Span {
        Span { start: range.start, end: range.end }
    }
}

impl From<Span> for Range<usize> {
    fn from(span: Span) -> (range: Range<usize>) {
        Range { start: span.start, end: span.end }
    }
}

impl vstd::std_specs::convert::FromSpecImpl<Span> for Range<usize> {
    open spec fn obeys_from_spec() -> bool {
        true
    }

    open spec fn from_spec(span: Span) -> Range<usize> {
        Range { start: span.start, end: span.end }
    }
}

impl<T: Default> Default for Spanned<T> {
    fn default() -> (spanned: Spanned<T>)
        ensures
            spanned.span == (Span { start: 0, end: 0 }),
    {
        Spanned { span: Span::default(), value: T::default() }
    }
}

} // verus!
