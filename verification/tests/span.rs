use std::ops::Range;

use notabene::span::{Locator, Point, Position, Ranged, Span, SpanIterator, Spanned};

#[test]
fn test_offset() {
    let span = Span::new(0, 10);
    assert_eq!(span.offset(5), Span::new(5, 15));
}

#[test]
fn test_range() {
    let span = Span::new(0, 10);
    let range: Range<usize> = span.into();
    assert_eq!(span.range(), range);
    assert_eq!(span.range(), 0..10);
    assert_eq!(Span::from(3..7), Span::new(3, 7));
}

#[test]
fn test_span_iterator() {
    let s = "  foo  foobar  quux  ";
    let spans: Vec<Span> = SpanIterator::new(s).collect();
    assert_eq!(
        spans,
        vec![Span::new(2, 5), Span::new(7, 13), Span::new(15, 19)]
    );
}

#[test]
fn test_span_iterator_empty_and_blank() {
    assert_eq!(SpanIterator::new("").collect(), Vec::<Span>::new());
    assert_eq!(SpanIterator::new(" \t\n ").collect(), Vec::<Span>::new());
    let mut iter = SpanIterator::new("");
    assert_eq!(iter.next(), None);
    assert_eq!(iter.next(), None);
}

#[test]
fn test_span_iterator_one_at_a_time() {
    let mut iter = SpanIterator::new("- 2025-01-01 [YANKED]");
    assert_eq!(iter.next(), Some(Span::new(0, 1)));
    assert_eq!(iter.next(), Some(Span::new(2, 12)));
    assert_eq!(iter.next(), Some(Span::new(13, 21)));
    assert_eq!(iter.next(), None);
}

#[test]
fn test_span_iterator_unicode_whitespace() {
    // U+00A0 (2 bytes), U+2003 (3 bytes) and U+3000 (3 bytes) separate words;
    // a word may hold characters of several bytes.
    let s = "a\u{a0}\u{e9}t\u{e9}\u{2003}\u{3000}\u{1f600}";
    let spans: Vec<Span> = SpanIterator::new(s).collect();
    assert_eq!(
        spans,
        vec![Span::new(0, 1), Span::new(3, 8), Span::new(14, 18)]
    );
    for span in spans {
        assert!(s.is_char_boundary(span.start) && s.is_char_boundary(span.end));
    }
}

#[test]
fn test_position() {
    let s = "foo

bar

quux";
    let locator = Locator::new(s);
    let spans: Vec<Span> = SpanIterator::new(s).collect();
    assert_eq!(
        locator.position(&spans[0]),
        Position::new(Point::new(1, 1, 0), Point::new(1, 4, 3)),
    );
    assert_eq!(
        locator.position(&spans[1]),
        Position::new(Point::new(3, 1, 5), Point::new(3, 4, 8)),
    );
    assert_eq!(
        locator.position(&spans[2]),
        Position::new(Point::new(5, 1, 10), Point::new(5, 5, 14)),
    );
}

#[test]
fn test_line() {
    let s = "foo bar baz\nfoobar foobaz";
    let locator = Locator::new(s);
    assert_eq!(locator.line(2), "foobar foobaz");
}

#[test]
fn test_lines() {
    assert_eq!(Locator::new("").lines(), 1);
    assert_eq!(Locator::new("a").lines(), 1);
    assert_eq!(Locator::new("a\n").lines(), 2);
    assert_eq!(Locator::new("a\nb\n\nc").lines(), 4);
    let locator = Locator::new("a\nbc\n");
    assert_eq!(locator.line(0), "a");
    assert_eq!(locator.line(1), "a");
    assert_eq!(locator.line(2), "bc");
    assert_eq!(locator.line(3), "");
}

#[test]
fn test_point() {
    let locator = Locator::new("ab\ncd");
    assert_eq!(locator.point(0), Point::new(1, 1, 0));
    assert_eq!(locator.point(1), Point::new(1, 2, 1));
    // The line feed counts to the line that it ends.
    assert_eq!(locator.point(2), Point::new(1, 3, 2));
    assert_eq!(locator.point(3), Point::new(2, 1, 3));
    assert_eq!(locator.point(5), Point::new(2, 3, 5));
    // An offset behind the text is on the last line.
    assert_eq!(locator.point(9), Point::new(2, 7, 9));
    assert_eq!(Locator::new("").point(0), Point::new(1, 1, 0));
}

#[test]
fn test_position_of_range() {
    let locator = Locator::new("ab\ncd");
    assert_eq!(
        locator.position(&(1..4)),
        Position::new(Point::new(1, 2, 1), Point::new(2, 2, 4)),
    );
    let position = locator.position(&Span::new(3, 5));
    assert_eq!(position.range(), 3..5);
}

#[test]
fn test_defaults() {
    assert_eq!(Span::default(), Span::new(0, 0));
    assert_eq!(Point::default(), Point::new(0, 0, 0));
    assert_eq!(
        Position::default(),
        Position::new(Point::new(0, 0, 0), Point::new(0, 0, 0))
    );
    let spanned = Spanned::<&str>::default();
    assert_eq!(spanned.span, Span::new(0, 0));
    assert_eq!(spanned.value, "");
}

#[test]
fn test_spanned() {
    let spanned = Spanned::new(Span::new(2, 5), "foo");
    assert_eq!(spanned.span, Span::new(2, 5));
    assert_eq!(spanned.into_inner(), "foo");
}
