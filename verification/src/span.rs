//! Source positions and spans.
//!
//! A [`Position`] is a line/column pair, both 1-based. A [`LinearPosition`]
//! is a byte offset into the source, independent of line breaks; it orders
//! tokens for checks that must ignore line terminators.

use vstd::prelude::*;

verus! {

/// A line/column position in the source text. Both components are 1-based.
#[derive(Debug, Clone, Copy, PartialEq, Eq, Structural)]
pub struct Position {
    /// 1-based line number.
    pub line: u32,
    /// 1-based column number.
    pub column: u32,
}

impl Position {
    /// Creates a new position.
    pub fn new(line: u32, column: u32) -> (r: Position)
        ensures
            r.line == line,
            r.column == column,
    {
        Position { line, column }
    }
}

/// A region of source text, from `start` (inclusive) to `end` (exclusive).
#[derive(Debug, Clone, Copy, PartialEq, Eq, Structural)]
pub struct Span {
    /// First position covered by the span.
    pub start: Position,
    /// Position one past the last covered by the span.
    pub end: Position,
}

impl Span {
    /// Creates a new span.
    pub fn new(start: Position, end: Position) -> (r: Span)
        ensures
            r.start == start,
            r.end == end,
    {
        Span { start, end }
    }

    /// The start position of the span.
    pub fn start(&self) -> (r: Position)
        ensures
            r == self.start,
    {
        self.start
    }

    /// The end position of the span.
    pub fn end(&self) -> (r: Position)
        ensures
            r == self.end,
    {
        self.end
    }
}

/// A position in the source counted in bytes from its beginning,
/// independent of line breaks.
#[derive(Debug, Clone, Copy, PartialEq, Eq, Structural)]
pub struct LinearPosition {
    /// Byte offset from the start of the source.
    pub pos: u64,
}

impl LinearPosition {
    /// Creates a new linear position.
    pub fn new(pos: u64) -> (r: LinearPosition)
        ensures
            r.pos == pos,
    {
        LinearPosition { pos }
    }
}

/// A region of source text in linear (byte-offset) coordinates.
#[derive(Debug, Clone, Copy, PartialEq, Eq, Structural)]
pub struct LinearSpan {
    /// Offset of the first byte covered.
    pub start: LinearPosition,
    /// Offset one past the last byte covered.
    pub end: LinearPosition,
}

impl LinearSpan {
    /// Creates a new linear span.
    pub fn new(start: LinearPosition, end: LinearPosition) -> (r: LinearSpan)
        ensures
            r.start == start,
            r.end == end,
    {
        LinearSpan { start, end }
    }

    /// Extends this span up to the given end position.
    pub fn union(&self, end: LinearPosition) -> (r: LinearSpan)
        ensures
            r.start == self.start,
            r.end == end,
    {
        LinearSpan { start: self.start, end }
    }
}

} // verus!
