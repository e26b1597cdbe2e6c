//! Parse errors.
//!
//! Every failure is fatal to the current parse attempt: the first error
//! reaches the caller of the top-level entry point unchanged, annotated
//! with its originating position and the context label of the production
//! that detected it. There is no recovery or resynchronization.

use vstd::prelude::*;
use crate::span::Position;

verus! {

/// The category of a parse failure.
#[derive(Debug, Clone, Copy, PartialEq, Eq, Structural)]
pub enum ErrorKind {
    /// The scanner met a malformed token.
    TokenError,
    /// A production expected one terminal and found another.
    UnexpectedToken,
    /// A structurally valid parse violates a static-semantics rule.
    EarlyError,
    /// End of input was reached in the middle of a production.
    UnterminatedConstruct,
}

/// A fatal parse error: a category, the position it is anchored at, and the
/// textual context label of the production that raised it.
#[derive(Debug, Clone, Copy, PartialEq, Eq)]
pub struct Error {
    /// The category of the failure.
    pub kind: ErrorKind,
    /// Where the failure is anchored in the source.
    pub position: Position,
    /// What the detecting production was parsing, or the rule violated.
    pub context: &'static str,
}

impl Error {
    /// An unexpected-token error.
    pub fn unexpected(position: Position, context: &'static str) -> (r: Error)
        ensures
            r.kind == ErrorKind::UnexpectedToken,
            r.position == position,
            r.context == context,
    {
        Error { kind: ErrorKind::UnexpectedToken, position, context }
    }

    /// An early (static-semantics) error.
    pub fn early(position: Position, context: &'static str) -> (r: Error)
        ensures
            r.kind == ErrorKind::EarlyError,
            r.position == position,
            r.context == context,
    {
        Error { kind: ErrorKind::EarlyError, position, context }
    }

    /// An end-of-input-in-mid-production error.
    pub fn abrupt_end(position: Position, context: &'static str) -> (r: Error)
        ensures
            r.kind == ErrorKind::UnterminatedConstruct,
            r.position == position,
            r.context == context,
    {
        Error { kind: ErrorKind::UnterminatedConstruct, position, context }
    }

    /// A malformed-token error.
    pub fn token_error(position: Position, context: &'static str) -> (r: Error)
        ensures
            r.kind == ErrorKind::TokenError,
            r.position == position,
            r.context == context,
    {
        Error { kind: ErrorKind::TokenError, position, context }
    }

    /// A short description of the failure, for diagnostics.
    pub fn message(&self) -> (r: &'static str)
        ensures
            r == self.context,
    {
        self.context
    }
}

} // verus!
