//! Tokens produced by the scanner.
//!
//! A [`Token`] is a kind, a line/column [`Span`], a [`LinearSpan`] in byte
//! offsets, and a flag recording whether a line terminator preceded it (used
//! by productions that forbid a line break at a specific point).

use vstd::prelude::*;
use crate::interner::Sym;
use crate::span::{LinearSpan, Span};

verus! {

/// Punctuator token kinds.
#[derive(Debug, Clone, Copy, PartialEq, Eq, Structural)]
pub enum Punctuator {
    /// `(`
    OpenParen,
    /// `)`
    CloseParen,
    /// `{`
    OpenBlock,
    /// `}`
    CloseBlock,
    /// `[`
    OpenBracket,
    /// `]`
    CloseBracket,
    /// `,`
    Comma,
    /// `;`
    Semicolon,
    /// `:`
    Colon,
    /// `.`
    Dot,
    /// `...`
    Spread,
    /// `=>`
    Arrow,
    /// `=`
    Assign,
    /// `==`
    Eq,
    /// `===`
    StrictEq,
    /// `!`
    Not,
    /// `!=`
    NotEq,
    /// `!==`
    StrictNotEq,
    /// `<`
    LessThan,
    /// `<=`
    LessThanOrEq,
    /// `<<`
    LeftSh,
    /// `<<=`
    AssignLeftSh,
    /// `>`
    GreaterThan,
    /// `>=`
    GreaterThanOrEq,
    /// `>>`
    RightSh,
    /// `>>=`
    AssignRightSh,
    /// `>>>`
    URightSh,
    /// `>>>=`
    AssignURightSh,
    /// `&`
    And,
    /// `&=`
    AssignAnd,
    /// `&&`
    BoolAnd,
    /// `&&=`
    AssignBoolAnd,
    /// `|`
    Or,
    /// `|=`
    AssignOr,
    /// `||`
    BoolOr,
    /// `||=`
    AssignBoolOr,
    /// `?`
    Question,
    /// `?.`
    Optional,
    /// `??`
    Coalesce,
    /// `??=`
    AssignCoalesce,
    /// `+`
    Add,
    /// `+=`
    AssignAdd,
    /// `++`
    Inc,
    /// `-`
    Sub,
    /// `-=`
    AssignSub,
    /// `--`
    Dec,
    /// `*`
    Mul,
    /// `*=`
    AssignMul,
    /// `**`
    Exp,
    /// `**=`
    AssignPow,
    /// `/`
    Div,
    /// `/=`
    AssignDiv,
    /// `%`
    Mod,
    /// `%=`
    AssignMod,
    /// `^`
    Xor,
    /// `^=`
    AssignXor,
    /// `~`
    Neg,
}

/// Reserved words the scanner distinguishes from plain identifier names.
#[derive(Debug, Clone, Copy, PartialEq, Eq, Structural)]
pub enum Keyword {
    /// `function`
    Function,
    /// `const`
    Const,
    /// `let`
    Let,
    /// `yield`
    Yield,
    /// `await`
    Await,
    /// `async`
    Async,
    /// `of`
    Of,
    /// `super`
    Super,
}

/// The kind of a token, with its literal payload where applicable.
#[derive(Debug, Clone, Copy, PartialEq, Eq, Structural)]
pub enum TokenKind {
    /// A punctuator.
    Punctuator(Punctuator),
    /// A reserved word.
    Keyword(Keyword),
    /// An identifier name.
    IdentifierName(Sym),
    /// A string literal; the handle holds its cooked contents.
    StringLiteral(Sym),
    /// An integer numeric literal.
    NumericLiteral(i64),
    /// `true` or `false`.
    BooleanLiteral(bool),
    /// `null`.
    NullLiteral,
    /// A regular-expression literal: body and flags.
    RegularExpressionLiteral(Sym, Sym),
    /// A template literal without substitutions: `` `text` ``.
    TemplateNoSubstitution(Sym),
    /// The head of a template literal with substitutions, up to the
    /// first `${`.
    TemplateHead(Sym),
    /// A middle chunk of a template literal, between `}` and `${`.
    TemplateMiddle(Sym),
    /// The tail of a template literal, from `}` to the closing backtick.
    TemplateTail(Sym),
}

/// The scanner goal symbol: decides how a `/` at the start of the next
/// token is read. Must be set before the token crossing the ambiguity is
/// requested.
#[derive(Debug, Clone, Copy, PartialEq, Eq, Structural)]
pub enum InputElement {
    /// `/` begins a division punctuator.
    Div,
    /// `/` begins a regular-expression literal.
    RegExp,
}

/// A single scanned token.
#[derive(Debug, Clone, Copy, PartialEq, Eq, Structural)]
pub struct Token {
    /// What was scanned.
    pub kind: TokenKind,
    /// Line/column extent.
    pub span: Span,
    /// Byte-offset extent, independent of line breaks.
    pub linear: LinearSpan,
    /// Whether at least one line terminator sits between the previous token
    /// and this one.
    pub lt_before: bool,
}

impl Token {
    /// The token's kind.
    pub fn kind(&self) -> (r: TokenKind)
        ensures
            r == self.kind,
    {
        self.kind
    }

    /// The token's line/column span.
    pub fn span(&self) -> (r: Span)
        ensures
            r == self.span,
    {
        self.span
    }

    /// The token's byte-offset span.
    pub fn linear_span(&self) -> (r: LinearSpan)
        ensures
            r == self.linear,
    {
        self.linear
    }
}

} // verus!
