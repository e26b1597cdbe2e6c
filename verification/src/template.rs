//! Template literal expression nodes.
//!
//! A template literal alternates plain string chunks with embedded
//! expressions that are evaluated and spliced into the result.

use vstd::prelude::*;
use crate::ast::Expression;
use crate::interner::Sym;
use crate::span::Span;

verus! {

/// An element found within a [`TemplateLiteral`]: either a plain string
/// chunk or an embedded expression.
#[derive(Debug, PartialEq)]
pub enum TemplateElement {
    /// A simple string chunk.
    String(Sym),
    /// An expression that is evaluated and replaced by its string
    /// representation.
    Expr(Expression),
}

/// A string literal allowing embedded expressions.
#[derive(Debug, PartialEq)]
pub struct TemplateLiteral {
    /// The elements, in source order.
    pub elements: Vec<TemplateElement>,
    /// The span of the whole literal.
    pub span: Span,
}

impl TemplateLiteral {
    /// Creates a new template literal from a list of elements.
    pub fn new(elements: Vec<TemplateElement>, span: Span) -> (r: TemplateLiteral)
        ensures
            r.elements == elements,
            r.span == span,
    {
        TemplateLiteral { elements, span }
    }

    /// Gets the element list of this template literal.
    pub fn elements(&self) -> (r: &Vec<TemplateElement>)
        ensures
            r == &self.elements,
    {
        &self.elements
    }

    /// Gets the span of this template literal.
    pub fn span(&self) -> (r: Span)
        ensures
            r == self.span,
    {
        self.span
    }
}

} // verus!
