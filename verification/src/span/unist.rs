use std::ops::Range;

use vstd::prelude::*;

use super::Ranged;

verus! {

/// A unist [Position](https://github.com/syntax-tree/unist/tree/3.0.0?tab=readme-ov-file#position).
///
/// Like a [`Span`](crate::span::Span), a `Position` is a range of the source
/// document. It also knows the line and column of both of its ends.
#[derive(Copy, Clone, Debug, Eq, Ord, PartialEq, Structural, PartialOrd)]
pub struct Position {
    pub start: Point,
    pub end: Point,
}

/// A unist [Point](https://github.com/syntax-tree/unist/tree/3.0.0?tab=readme-ov-file#point).
///
/// Lines and columns count from 1, offsets from 0.
#[derive(Copy, Clone, Debug, Eq, Ord, PartialEq, Structural, PartialOrd)]
pub struct Point {
    pub line: usize,
    pub column: usize,
    pub offset: usize,
}

impl Position {
    /// The position from `start` to `end`.
    pub fn new(start: Point, end: Point) -> (position: Position)
        ensures
            position.start == start,
            position.end == end,
    {
        Position { start, end }
    }
}

impl Default for Position {
    fn default() -> (position: Position)
        ensures
            position.start == (Point { line: 0, column: 0, offset: 0 }),
            position.end == (Point { line: 0, column: 0, offset: 0 }),
    {
        Position { start: Point::default(), end: Point::default() }
    }
}

impl Ranged<usize> for Position {
    open spec fn spec_range(&self) -> Range<usize> {
        Range { start: self.start.offset, end: self.end.offset }
    }

    fn range(&self) -> (range: Range<usize>) {
        Range { start: self.start.offset, end: self.end.offset }
    }
}

impl Point {
    /// The point at `offset`, which is at column `column` of line `line`.
    pub fn new(line: usize, column: usize, offset: usize) -> (point: Point)
        ensures
            point.line == line,
            point.column == column,
            point.offset == offset,
    {
        Point { line, column, offset }
    }
}

impl Default for Point {
    fn default() -> (point: Point)
        ensures
            point == (Point { line: 0, column: 0, offset: 0 }),
    {
        Point { line: 0, column: 0, offset: 0 }
    }
}

} // verus!
