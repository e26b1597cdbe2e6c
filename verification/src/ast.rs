//! Syntax tree nodes.
//!
//! Every node owns its children exclusively (a tree, never cyclic) and
//! carries its own source span. Function-like nodes additionally carry a
//! strict bit and a linear-position range used by the static-semantics
//! passes that run right after the node is built.

use vstd::prelude::*;
use crate::function::{FormalParameterList, FunctionBody, GeneratorExpression as GeneratorExpressionNode};
use crate::interner::Sym;
use crate::span::Span;
use crate::template::TemplateLiteral;

verus! {

/// An identifier occurrence: an interned name plus its span.
#[derive(Debug, Clone, Copy, PartialEq, Eq, Structural)]
pub struct Identifier {
    /// The interned name.
    pub sym: Sym,
    /// Where the name occurs.
    pub span: Span,
}

impl Identifier {
    /// Creates a new identifier occurrence.
    pub fn new(sym: Sym, span: Span) -> (r: Identifier)
        ensures
            r.sym == sym,
            r.span == span,
    {
        Identifier { sym, span }
    }

    /// The interned name.
    pub fn sym(&self) -> (r: Sym)
        ensures
            r == self.sym,
    {
        self.sym
    }

    /// The identifier's span.
    pub fn span(&self) -> (r: Span)
        ensures
            r == self.span,
    {
        self.span
    }
}

/// The value of a literal expression.
#[derive(Debug, Clone, Copy, PartialEq, Eq, Structural)]
pub enum LiteralKind {
    /// A string literal holding its cooked contents.
    String(Sym),
    /// An integer numeric literal.
    Int(i64),
    /// `true` or `false`.
    Bool(bool),
    /// `null`.
    Null,
}

/// A literal expression.
#[derive(Debug, Clone, Copy, PartialEq, Eq, Structural)]
pub struct Literal {
    /// The literal's value.
    pub kind: LiteralKind,
    /// Where the literal occurs.
    pub span: Span,
}

impl Literal {
    /// Creates a new literal.
    pub fn new(kind: LiteralKind, span: Span) -> (r: Literal)
        ensures
            r.kind == kind,
            r.span == span,
    {
        Literal { kind, span }
    }
}

/// A regular-expression literal.
#[derive(Debug, Clone, Copy, PartialEq, Eq, Structural)]
pub struct RegExpLiteral {
    /// The interned pattern text between the delimiters.
    pub pattern: Sym,
    /// The interned flag characters.
    pub flags: Sym,
    /// Where the literal occurs.
    pub span: Span,
}

/// How a method of an object literal was written.
#[derive(Debug, Clone, Copy, PartialEq, Eq, Structural)]
pub enum MethodDefinitionKind {
    /// `m() {}`
    Ordinary,
    /// `get m() {}`
    Getter,
    /// `set m(v) {}`
    Setter,
    /// `async m() {}`
    Async,
    /// `* m() {}`
    Generator,
    /// `async * m() {}`
    AsyncGenerator,
}

/// A method definition inside an object literal.
#[derive(Debug, PartialEq)]
pub struct ObjectMethodDefinition {
    /// The property name the method is bound to.
    pub name: Identifier,
    /// The method's parameter list.
    pub parameters: FormalParameterList,
    /// The method's body.
    pub body: FunctionBody,
    /// How the method was written.
    pub kind: MethodDefinitionKind,
}

impl ObjectMethodDefinition {
    /// Creates a new method definition.
    pub fn new(
        name: Identifier,
        parameters: FormalParameterList,
        body: FunctionBody,
        kind: MethodDefinitionKind,
    ) -> (r: ObjectMethodDefinition)
        ensures
            r.name == name,
            r.parameters == parameters,
            r.body == body,
            r.kind == kind,
    {
        ObjectMethodDefinition { name, parameters, body, kind }
    }
}

/// One property of an object literal.
#[derive(Debug, PartialEq)]
pub enum PropertyDefinition {
    /// Shorthand `{ a }`.
    IdentifierReference(Identifier),
    /// `{ name: value }`.
    Property(Identifier, Expression),
    /// A method, getter or setter.
    MethodDefinition(ObjectMethodDefinition),
    /// `{ ...expr }`.
    SpreadObject(Expression),
    /// `{ a = expr }`: only valid once the literal is reclassified as a
    /// destructuring pattern; rejected if it survives to a final tree.
    CoverInitializedName(Identifier, Expression),
}

/// An object literal.
#[derive(Debug, PartialEq)]
pub struct ObjectLiteral {
    /// The properties, in source order.
    pub properties: Vec<PropertyDefinition>,
    /// The span from `{` to `}`.
    pub span: Span,
}

impl ObjectLiteral {
    /// Creates a new object literal.
    pub fn new(properties: Vec<PropertyDefinition>, span: Span) -> (r: ObjectLiteral)
        ensures
            r.properties == properties,
            r.span == span,
    {
        ObjectLiteral { properties, span }
    }
}

/// An array literal. `None` elements are elisions.
#[derive(Debug, PartialEq)]
pub struct ArrayLiteral {
    /// The elements, in source order; `None` marks an elision.
    pub elements: Vec<Option<Expression>>,
    /// Whether a comma follows the final spread element.
    pub has_trailing_comma_spread: bool,
    /// The span from `[` to `]`.
    pub span: Span,
}

impl ArrayLiteral {
    /// Creates a new array literal.
    pub fn new(elements: Vec<Option<Expression>>, has_trailing_comma_spread: bool, span: Span)
        -> (r: ArrayLiteral)
        ensures
            r.elements == elements,
            r.has_trailing_comma_spread == has_trailing_comma_spread,
            r.span == span,
    {
        ArrayLiteral { elements, has_trailing_comma_spread, span }
    }
}

/// A parenthesized expression.
#[derive(Debug, PartialEq)]
pub struct Parenthesized {
    /// The inner expression.
    pub expression: Box<Expression>,
    /// The span from `(` to `)`.
    pub span: Span,
}

impl Parenthesized {
    /// Creates a new parenthesized expression.
    pub fn new(expression: Expression, span: Span) -> (r: Parenthesized)
        ensures
            r.expression == expression,
            r.span == span,
    {
        Parenthesized { expression: Box::new(expression), span }
    }
}

/// An assignment operator.
#[derive(Debug, Clone, Copy, PartialEq, Eq, Structural)]
pub enum AssignOp {
    /// `=`
    Assign,
    /// `+=`
    Add,
    /// `-=`
    Sub,
    /// `*=`
    Mul,
    /// `/=`
    Div,
    /// `%=`
    Mod,
    /// `**=`
    Pow,
    /// `<<=`
    Shl,
    /// `>>=`
    Shr,
    /// `>>>=`
    Ushr,
    /// `&=`
    And,
    /// `|=`
    Or,
    /// `^=`
    Xor,
    /// `&&=`
    BoolAnd,
    /// `||=`
    BoolOr,
    /// `??=`
    Coalesce,
}

/// The target of an assignment.
#[derive(Debug, PartialEq)]
pub enum AssignTarget {
    /// A plain identifier.
    Identifier(Identifier),
    /// A property access.
    Access(PropertyAccess),
    /// A `super` property access.
    SuperAccess(SuperPropertyAccess),
    /// A destructuring pattern, produced by reclassifying an object or
    /// array literal.
    Pattern(Pattern),
}

/// An assignment expression.
#[derive(Debug, PartialEq)]
pub struct Assign {
    /// The operator.
    pub op: AssignOp,
    /// The target being assigned to.
    pub lhs: AssignTarget,
    /// The value assigned.
    pub rhs: Box<Expression>,
}

impl Assign {
    /// Creates a new assignment.
    pub fn new(op: AssignOp, lhs: AssignTarget, rhs: Expression) -> (r: Assign)
        ensures
            r.op == op,
            r.lhs == lhs,
            r.rhs == rhs,
    {
        Assign { op, lhs, rhs: Box::new(rhs) }
    }
}

/// A property access `target.field`.
#[derive(Debug, PartialEq)]
pub struct PropertyAccess {
    /// The expression whose property is read.
    pub target: Box<Expression>,
    /// The property name.
    pub field: Identifier,
}

/// A `super.field` property access.
#[derive(Debug, Clone, Copy, PartialEq, Eq, Structural)]
pub struct SuperPropertyAccess {
    /// The property name.
    pub field: Identifier,
    /// The span from `super` to the end of the name.
    pub span: Span,
}

/// A `yield` expression.
#[derive(Debug, PartialEq)]
pub struct YieldExpr {
    /// The yielded value, if one is written.
    pub argument: Option<Box<Expression>>,
    /// Whether this is a `yield*` delegation.
    pub delegate: bool,
    /// The span of the whole expression.
    pub span: Span,
}

/// An `await` expression.
#[derive(Debug, PartialEq)]
pub struct AwaitExpr {
    /// The awaited value.
    pub argument: Box<Expression>,
    /// The span of the whole expression.
    pub span: Span,
}

/// An expression.
#[derive(Debug, PartialEq)]
pub enum Expression {
    /// An identifier reference.
    Identifier(Identifier),
    /// A literal.
    Literal(Literal),
    /// A regular-expression literal.
    RegExpLiteral(RegExpLiteral),
    /// A template literal.
    TemplateLiteral(TemplateLiteral),
    /// An array literal.
    ArrayLiteral(ArrayLiteral),
    /// An object literal.
    ObjectLiteral(ObjectLiteral),
    /// A parenthesized expression.
    Parenthesized(Parenthesized),
    /// An assignment.
    Assign(Assign),
    /// A `yield` expression.
    Yield(YieldExpr),
    /// An `await` expression.
    Await(AwaitExpr),
    /// A generator expression.
    GeneratorExpression(GeneratorExpressionNode),
    /// A property access.
    PropertyAccess(PropertyAccess),
    /// A `super` property access.
    SuperPropertyAccess(SuperPropertyAccess),
}

impl From<TemplateLiteral> for Expression {
    /// Wraps a template literal as an expression.
    fn from(tem: TemplateLiteral) -> (r: Expression) {
        Expression::TemplateLiteral(tem)
    }
}

impl vstd::std_specs::convert::FromSpecImpl<TemplateLiteral> for Expression {
    open spec fn obeys_from_spec() -> bool {
        true
    }

    open spec fn from_spec(tem: TemplateLiteral) -> Expression {
        Expression::TemplateLiteral(tem)
    }
}

/// One element of an object destructuring pattern.
#[derive(Debug, PartialEq)]
pub enum ObjectPatternElement {
    /// `{ name: ident = default }` or shorthand `{ ident }`.
    SingleName {
        /// The property name matched.
        name: Identifier,
        /// The binding the value is assigned to.
        ident: Identifier,
        /// The default value, if one is written.
        default_init: Option<Expression>,
    },
    /// `{ name: <pattern> = default }`.
    NestedPattern {
        /// The property name matched.
        name: Identifier,
        /// The nested pattern the value destructures into.
        pattern: Pattern,
        /// The default value, if one is written.
        default_init: Option<Expression>,
    },
    /// `{ ...ident }`.
    RestProperty {
        /// The binding collecting the remaining properties.
        ident: Identifier,
    },
}

/// An object destructuring pattern.
#[derive(Debug, PartialEq)]
pub struct ObjectPattern {
    /// The elements, in source order.
    pub elements: Vec<ObjectPatternElement>,
    /// The span from `{` to `}`.
    pub span: Span,
}

impl ObjectPattern {
    /// Creates a new object pattern.
    pub fn new(elements: Vec<ObjectPatternElement>, span: Span) -> (r: ObjectPattern)
        ensures
            r.elements == elements,
            r.span == span,
    {
        ObjectPattern { elements, span }
    }
}

/// One element of an array destructuring pattern.
#[derive(Debug, PartialEq)]
pub enum ArrayPatternElement {
    /// A hole.
    Elision,
    /// `ident = default`.
    SingleName {
        /// The binding the element is assigned to.
        ident: Identifier,
        /// The default value, if one is written.
        default_init: Option<Expression>,
    },
    /// A nested pattern, with an optional default.
    NestedPattern {
        /// The nested pattern the element destructures into.
        pattern: Pattern,
        /// The default value, if one is written.
        default_init: Option<Expression>,
    },
    /// `...ident`.
    Rest {
        /// The binding collecting the remaining elements.
        ident: Identifier,
    },
}

/// An array destructuring pattern.
#[derive(Debug, PartialEq)]
pub struct ArrayPattern {
    /// The elements, in source order.
    pub elements: Vec<ArrayPatternElement>,
    /// The span from `[` to `]`.
    pub span: Span,
}

impl ArrayPattern {
    /// Creates a new array pattern.
    pub fn new(elements: Vec<ArrayPatternElement>, span: Span) -> (r: ArrayPattern)
        ensures
            r.elements == elements,
            r.span == span,
    {
        ArrayPattern { elements, span }
    }
}

/// A destructuring pattern.
#[derive(Debug, PartialEq)]
pub enum Pattern {
    /// An object pattern.
    Object(ObjectPattern),
    /// An array pattern.
    Array(ArrayPattern),
}

/// What a variable declaration binds: a single name or a pattern.
#[derive(Debug, PartialEq)]
pub enum Binding {
    /// A single name.
    Identifier(Identifier),
    /// A destructuring pattern.
    Pattern(Pattern),
}

/// One declared variable: a binding with an optional initializer.
#[derive(Debug, PartialEq)]
pub struct Variable {
    /// What is bound.
    pub binding: Binding,
    /// The initializer, if one is written.
    pub init: Option<Expression>,
}

impl Variable {
    /// Creates a variable bound to a single name.
    pub fn from_identifier(ident: Identifier, init: Option<Expression>) -> (r: Variable)
        ensures
            r.binding == Binding::Identifier(ident),
            r.init == init,
    {
        Variable { binding: Binding::Identifier(ident), init }
    }

    /// Creates a variable bound to a destructuring pattern.
    pub fn from_pattern(pattern: Pattern, init: Option<Expression>) -> (r: Variable)
        ensures
            r.binding == Binding::Pattern(pattern),
            r.init == init,
    {
        Variable { binding: Binding::Pattern(pattern), init }
    }

    /// The variable's initializer.
    pub fn init(&self) -> (r: &Option<Expression>)
        ensures
            r == &self.init,
    {
        &self.init
    }
}

/// A lexical (block-scoped) declaration.
#[derive(Debug, PartialEq)]
pub enum LexicalDeclaration {
    /// `const` declarations; every variable carries an initializer.
    Const(Vec<Variable>),
    /// `let` declarations.
    Let(Vec<Variable>),
}

/// A declaration.
#[derive(Debug, PartialEq)]
pub enum Declaration {
    /// A lexical declaration.
    Lexical(LexicalDeclaration),
}

/// A statement.
#[derive(Debug, PartialEq)]
pub enum Statement {
    /// `;`
    Empty,
    /// An expression statement.
    Expression(Expression),
}

/// An item of a statement list.
#[derive(Debug, PartialEq)]
pub enum StatementListItem {
    /// A statement.
    Statement(Statement),
    /// A declaration.
    Declaration(Declaration),
}

/// A list of statements, with the strict flag derived from its directive
/// prologue.
#[derive(Debug, PartialEq)]
pub struct StatementList {
    /// The items, in source order.
    pub statements: Vec<StatementListItem>,
    /// Whether the list's own directive prologue declares `"use strict"`.
    pub strict: bool,
}

impl StatementList {
    /// Creates a statement list.
    pub fn new(statements: Vec<StatementListItem>, strict: bool) -> (r: StatementList)
        ensures
            r.statements == statements,
            r.strict == strict,
    {
        StatementList { statements, strict }
    }
}

impl Default for StatementList {
    /// An empty, non-strict statement list.
    fn default() -> (r: StatementList)
        ensures
            r.statements@.len() == 0,
            r.strict == false,
    {
        StatementList { statements: Vec::new(), strict: false }
    }
}

} // verus!
