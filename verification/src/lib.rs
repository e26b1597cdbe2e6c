//! Front end of a small dynamic-language engine: a context-sensitive
//! recursive-descent parser with integrated static-semantics (early-error)
//! validation.
//!
//! Source text is scanned into tokens by a cursor with bounded lookahead,
//! parsed into an owned syntax tree under an explicitly threaded grammar
//! context (`allow_yield` / `allow_await` / strict mode), and validated by
//! pure tree-walking predicates that reject programs which are grammatically
//! well formed but semantically illegal.

pub mod span;
pub mod interner;
pub mod tokens;
pub mod error;
pub mod cursor;
pub mod ast;
pub mod template;
pub mod function;
pub mod ops;
pub mod parser;
pub mod reclassify;
pub mod parse;
pub mod intl;
pub mod collator;
pub mod for_in;
pub mod source_text;
