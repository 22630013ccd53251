use vstd::prelude::*;
use vstd::string::StringSliceAdditionalSpecFns;
use vstd::utf8::*;

use super::{Point, Position, Ranged, Span};
use crate::text::slice;

verus! {

/// Whether `line` is the span of a line of a text: it holds no line feed.
pub open spec fn is_line(bytes: Seq<u8>, line: Span) -> bool {
    &&& line.start <= line.end
    &&& forall|k: int| line.start <= k < line.end ==> #[trigger] bytes[k] != 10u8
}

/// Whether a line feed ends line `index`, and the next line starts right
/// behind that line feed.
pub open spec fn is_line_end(bytes: Seq<u8>, lines: Seq<Span>, index: int) -> bool {
    &&& lines[index].end < bytes.len()
    &&& bytes[lines[index].end as int] == 10u8
    &&& lines[index + 1].start == lines[index].end + 1
}

/// Whether `lines` are the spans of the lines of a text: the first starts the
/// text, the last ends it, a line feed (and nothing else) stands between each
/// line and the next, and no line holds a line feed.
pub open spec fn is_line_index(bytes: Seq<u8>, lines: Seq<Span>) -> bool {
    &&& lines.len() >= 1
    &&& lines[0].start == 0
    &&& lines.last().end == bytes.len()
    &&& forall|i: int| 0 <= i < lines.len() ==> #[trigger] is_line(bytes, lines[i])
    &&& forall|i: int| 0 <= i < lines.len() - 1 ==> #[trigger] is_line_end(bytes, lines, i)
}

/// Whether `point` is the point at its offset in a text with the lines
/// `lines`: its line is the one whose span holds the offset (the line feed
/// counts to the line that it ends), or the last line for an offset behind
/// the text, and its column counts the bytes from the start of the line, from 1.
pub open spec fn is_point_of(lines: Seq<Span>, point: Point) -> bool {
    &&& 1 <= point.line <= lines.len()
    &&& lines[point.line - 1].start <= point.offset
    &&& point.offset <= lines[point.line - 1].end || point.line == lines.len()
    &&& point.column == point.offset - lines[point.line - 1].start + 1
}

/// Whether `point` is the point at its offset in a text encoded as `bytes`.
pub open spec fn is_point_in(bytes: Seq<u8>, point: Point) -> bool {
    exists|lines: Seq<Span>| is_line_index(bytes, lines) && is_point_of(lines, point)
}

/// Later lines lie behind earlier ones.
pub proof fn lemma_lines_ascend(bytes: Seq<u8>, lines: Seq<Span>, i: int, j: int)
    requires
        is_line_index(bytes, lines),
        0 <= i < j < lines.len(),
    ensures
        lines[i].end < lines[j].start,
        lines[i].end < lines[j].end,
    decreases j - i,
{
    assert(is_line(bytes, lines[j]));
    assert(is_line_end(bytes, lines, j - 1));
    if i + 1 < j {
        lemma_lines_ascend(bytes, lines, i, j - 1);
    }
}

/// What the search for a line needs of the lines of a text: there is a first
/// line, it starts the text, each later line starts right behind the line feed
/// that ends the line before it, and later lines end behind earlier ones.
pub proof fn lemma_lines_follow(bytes: Seq<u8>, lines: Seq<Span>, i: int, j: int)
    requires
        is_line_index(bytes, lines),
    ensures
        lines.len() >= 1,
        lines[0].start == 0,
        0 < j < lines.len() ==> lines[j].start == lines[j - 1].end + 1,
        0 <= i < j < lines.len() ==> lines[i].end < lines[j].end,
{
    if 0 < j < lines.len() {
        assert(is_line_end(bytes, lines, j - 1));
    }
    if 0 <= i < j < lines.len() {
        lemma_lines_ascend(bytes, lines, i, j);
    }
}

/// A line feed is a character of its own: a character starts at it and
/// another, or nothing, behind it.
pub proof fn lemma_line_feed_boundaries(bytes: Seq<u8>, index: int)
    requires
        valid_utf8(bytes),
        0 <= index < bytes.len(),
        bytes[index] == 10u8,
    ensures
        is_char_boundary(bytes, index),
        is_char_boundary(bytes, index + 1),
{
    is_char_boundary_iff_not_is_continuation_byte(bytes, index);
    valid_utf8_split(bytes, index);
    let rest = bytes.subrange(index, bytes.len() as int);
    assert(rest[0] == 10u8);
    assert(length_of_first_scalar(rest) == 1);
    if index + 1 < bytes.len() {
        let tail = pop_first_scalar(rest);
        assert(valid_utf8(tail));
        assert(tail =~= bytes.subrange(index + 1, bytes.len() as int));
        is_char_boundary_start_end_of_seq(tail);
        is_char_boundary_iff_not_is_continuation_byte(tail, 0);
        assert(tail[0] == bytes[index + 1]);
        is_char_boundary_iff_not_is_continuation_byte(bytes, index + 1);
    } else {
        is_char_boundary_start_end_of_seq(bytes);
    }
}

/// Finds the line and column of offsets in the source document.
pub struct Locator<'a> {
    source: &'a str,
    line_spans: Vec<Span>,
}

impl<'a> Locator<'a> {
    /// The text that the locator was built from.
    pub closed spec fn source(&self) -> &'a str {
        self.source
    }

    /// The span of each line of the text, without the line feed that ends it.
    pub closed spec fn line_spans(&self) -> Seq<Span> {
        self.line_spans@
    }

    #[verifier::type_invariant]
    spec fn inv(&self) -> bool {
        is_line_index(self.source.spec_bytes(), self.line_spans@)
    }

    /// A locator for `source`.
    pub fn new(source: &'a str) -> (locator: Locator<'a>)
        ensures
            locator.source() == source,
            is_line_index(source.spec_bytes(), locator.line_spans()),
    {
        let bytes = source.as_bytes();
        let mut line_spans: Vec<Span> = Vec::new();
        let mut start: usize = 0;
        let mut end: usize = 0;
        while end < bytes.len()
            invariant
                bytes@ == source.spec_bytes(),
                start <= end <= bytes@.len(),
                line_spans@.len() == 0 ==> start == 0,
                line_spans@.len() > 0 ==> line_spans@[0].start == 0,
                line_spans@.len() > 0 ==> {
                    &&& line_spans@.last().end < bytes@.len()
                    &&& bytes@[line_spans@.last().end as int] == 10u8
                    &&& start == line_spans@.last().end + 1
                },
                forall|k: int| start <= k < end ==> #[trigger] bytes@[k] != 10u8,
                forall|i: int|
                    0 <= i < line_spans@.len() ==> #[trigger] is_line(bytes@, line_spans@[i]),
                forall|i: int|
                    0 <= i < line_spans@.len() - 1 ==> #[trigger] is_line_end(
                        bytes@,
                        line_spans@,
                        i,
                    ),
            decreases bytes@.len() - end,
        {
            if bytes[end] == 10u8 {
                let ghost before = line_spans@;
                line_spans.push(Span { start, end });
                proof {
                    assert forall|i: int| 0 <= i < line_spans@.len() implies #[trigger] is_line(
                        bytes@,
                        line_spans@[i],
                    ) by {
                        if i < before.len() {
                            assert(is_line(bytes@, before[i]));
                        }
                    }
                    assert forall|i: int|
                        0 <= i < line_spans@.len() - 1 implies #[trigger] is_line_end(
                        bytes@,
                        line_spans@,
                        i,
                    ) by {
                        if i < before.len() - 1 {
                            assert(is_line_end(bytes@, before, i));
                        }
                    }
                }
                start = end + 1;
            }
            end += 1;
        }
        let ghost before = line_spans@;
        line_spans.push(Span { start, end });
        proof {
            assert forall|i: int| 0 <= i < line_spans@.len() implies #[trigger] is_line(
                bytes@,
                line_spans@[i],
            ) by {
                if i < before.len() {
                    assert(is_line(bytes@, before[i]));
                }
            }
            assert forall|i: int|
                0 <= i < line_spans@.len() - 1 implies #[trigger] is_line_end(
                bytes@,
                line_spans@,
                i,
            ) by {
                if i < before.len() - 1 {
                    assert(is_line_end(bytes@, before, i));
                }
            }
        }
        Locator { source, line_spans }
    }

    /// The point at a byte offset: the line whose span holds the offset (the
    /// line feed counts to the line that it ends), or the last line for an
    /// offset behind the text, and the column counted in bytes from 1.
    pub fn point(&self, offset: usize) -> (point: Point)
        requires
            offset < usize::MAX,
        ensures
            point.offset == offset,
            1 <= point.line <= self.line_spans().len(),
            self.line_spans()[point.line - 1].start <= offset,
            offset <= self.line_spans()[point.line - 1].end || point.line
                == self.line_spans().len(),
            point.column == offset - self.line_spans()[point.line - 1].start + 1,
            is_point_in(self.source().spec_bytes(), point),
    {
        proof {
            use_type_invariant(self);
            lemma_lines_follow(self.source.spec_bytes(), self.line_spans@, 0, 0);
        }
        let line = self.line_at(offset);
        assert(line < self.line_spans.len());
        let start = self.line_spans[line].start;
        proof {
            lemma_lines_follow(self.source.spec_bytes(), self.line_spans@, 0, line as int);
        }
        let point = Point { line: line + 1, column: offset - start + 1, offset };
        assert(is_point_of(self.line_spans@, point));
        point
    }

    /// The index of the first line that does not end before `offset`, or of
    /// the last line if every line does.
    fn line_at(&self, offset: usize) -> (line: usize)
        ensures
            line < self.line_spans().len(),
            forall|i: int| 0 <= i < line ==> (#[trigger] self.line_spans()[i]).end < offset,
            offset <= self.line_spans()[line as int].end || line == self.line_spans().len() - 1,
    {
        proof {
            use_type_invariant(self);
            lemma_lines_follow(self.source.spec_bytes(), self.line_spans@, 0, 0);
        }
        let ghost lines = self.line_spans@;
        let last = self.line_spans.len() - 1;
        let mut low: usize = 0;
        let mut high: usize = last;
        while low < high
            invariant
                lines == self.line_spans@,
                last == lines.len() - 1,
                low <= high <= last,
                is_line_index(self.source.spec_bytes(), lines),
                forall|i: int| 0 <= i < low ==> (#[trigger] lines[i]).end < offset,
                high < last ==> offset <= lines[high as int].end,
            decreases high - low,
        {
            let middle = low + (high - low) / 2;
            if self.line_spans[middle].end < offset {
                proof {
                    assert forall|i: int| 0 <= i < middle + 1 implies (#[trigger] lines[i]).end
                        < offset by {
                        if i < middle {
                            lemma_lines_ascend(self.source.spec_bytes(), lines, i, middle as int);
                        }
                    }
                }
                low = middle + 1;
            } else {
                high = middle;
            }
        }
        low
    }

    /// The position of a span: the points of its two ends.
    pub fn position<R: Ranged<usize>>(&self, ranged: &R) -> (position: Position)
        requires
            ranged.spec_range().start < usize::MAX,
            ranged.spec_range().end < usize::MAX,
        ensures
            position.start.offset == ranged.spec_range().start,
            position.end.offset == ranged.spec_range().end,
            self.is_point(position.start),
            self.is_point(position.end),
            is_point_in(self.source().spec_bytes(), position.start),
            is_point_in(self.source().spec_bytes(), position.end),
    {
        let range = ranged.range();
        Position { start: self.point(range.start), end: self.point(range.end) }
    }

    /// Whether `point` is the point at its offset, as [`Locator::point`] gives it.
    pub open spec fn is_point(&self, point: Point) -> bool {
        is_point_of(self.line_spans(), point)
    }

    /// The text of line `line`, counted from 1, without its line feed. Line 0
    /// is taken for line 1.
    pub fn line(&self, line: usize) -> (text: &'a str)
        requires
            line <= self.line_spans().len(),
        ensures
            text.spec_bytes() == self.line_spans()[if line == 0 {
                0
            } else {
                line - 1
            }].of(self.source().spec_bytes()),
    {
        proof {
            use_type_invariant(self);
        }
        let index = if line == 0 {
            0
        } else {
            line - 1
        };
        let span = self.line_spans[index];
        proof {
            let bytes = self.source.spec_bytes();
            let lines = self.line_spans@;
            encode_utf8_valid_utf8(self.source@);
            is_char_boundary_start_end_of_seq(bytes);
            assert(is_line(bytes, lines[index as int]));
            if index > 0 {
                assert(is_line_end(bytes, lines, index - 1));
                lemma_line_feed_boundaries(bytes, lines[index - 1].end as int);
            }
            if index < lines.len() - 1 {
                assert(is_line_end(bytes, lines, index as int));
                lemma_line_feed_boundaries(bytes, lines[index as int].end as int);
            }
        }
        match slice(self.source, span) {
            Some(text) => text,
            None => self.source,
        }
    }

    /// The number of lines of the text.
    pub fn lines(&self) -> (count: usize)
        ensures
            count == self.line_spans().len(),
            count >= 1,
    {
        proof {
            use_type_invariant(self);
        }
        self.line_spans.len()
    }
}

} // verus!
