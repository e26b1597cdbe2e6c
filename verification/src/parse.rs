//! Production parsers.
//!
//! One routine per grammar production: binding identifiers and binding
//! patterns, expressions, object literals with their method forms, formal
//! parameter lists, function bodies, generator expressions, and statement
//! lists. Each routine consumes tokens through the cursor, recurses into
//! sub-productions under a derived grammar context, and returns a tree
//! fragment; the static-semantics checks of a production run right after
//! its fragment completes.

use vstd::prelude::*;
use crate::ast::{
    ArrayLiteral, ArrayPattern, ArrayPatternElement, Assign, AssignOp, AssignTarget, AwaitExpr,
    Declaration, Expression, Identifier, LexicalDeclaration, Literal, LiteralKind,
    MethodDefinitionKind, ObjectLiteral, ObjectMethodDefinition, ObjectPattern,
    ObjectPatternElement, Parenthesized, Pattern, PropertyAccess, PropertyDefinition,
    RegExpLiteral, Statement, StatementList, StatementListItem, SuperPropertyAccess, Variable,
    YieldExpr,
};
use crate::cursor::Cursor;
use crate::error::Error;
use crate::function::{
    FormalParameter as FormalParameterNode, FormalParameterList, FunctionBody,
    GeneratorExpression as GeneratorExpressionNode,
};
use crate::interner::{
    Interner, SYM_ARGUMENTS, SYM_EVAL, SYM_GET, SYM_SET, SYM_USE_STRICT,
};
use crate::ops;
use crate::parser::{
    anonymous_generator_form, atom_expr, directive_generator_form, ends_expression, ident_seq,
    ident_sym, is_atom, keyword_sym, name_in_lexically_declared_names, named_generator_form,
    parse_step, plain_param_at, simple_ident_list, strict_reserved, super_dot_expr,
    super_statement_form, GrammarContext,
};
use crate::reclassify::{array_to_pattern, object_to_pattern};
use crate::span::{Position, Span};
use crate::tokens::{InputElement, Keyword, Punctuator, Token, TokenKind};

verus! {
// ---------------------------------------------------------------------------

/// Parses a binding identifier: the name position of a declaration or a
/// parameter. `yield` and `await` are admitted as names only where the
/// grammar context reads them as identifiers, and `eval`/`arguments` are
/// rejected in strict mode.
#[derive(Debug, Clone, Copy)]
pub struct BindingIdentifier {
    pub allow_yield: bool,
    pub allow_await: bool,
}

impl BindingIdentifier {
    /// Creates a new binding-identifier parser.
    pub fn new(allow_yield: bool, allow_await: bool) -> (r: BindingIdentifier)
        ensures
            r.allow_yield == allow_yield,
            r.allow_await == allow_await,
    {
        BindingIdentifier { allow_yield, allow_await }
    }

    /// Parses one binding identifier.
    pub fn parse(self, cursor: &mut Cursor, interner: &mut Interner) -> (r: Result<
        Identifier,
        Error,
    >)
        requires
            old(cursor).wf(),
            old(interner).wf(),
        ensures
            parse_step(*old(cursor), *final(cursor), *old(interner), *final(interner)),
            final(cursor).strict_mode() == old(cursor).strict_mode(),
            r matches Ok(id) ==> final(cursor).remaining() < old(cursor).remaining(),
            r matches Ok(id) ==> (old(cursor).strict_mode() ==> id.sym.id != SYM_EVAL
                && id.sym.id != SYM_ARGUMENTS),
            old(cursor).lookahead().len() > 0 ==> ((old(cursor).lookahead()[0].kind
                is IdentifierName) ==> ({
                let s = ident_sym(old(cursor).lookahead()[0].kind);
                &&& (!strict_reserved(s, old(cursor).strict_mode()) ==> (r matches Ok(id)
                    && id.sym == s && id.span == old(cursor).lookahead()[0].span
                    && final(cursor).lookahead() == old(cursor).lookahead().skip(1)))
                &&& (strict_reserved(s, old(cursor).strict_mode()) ==> (r matches Err(e)
                    && e.kind == crate::error::ErrorKind::EarlyError && e.position == old(
                    cursor,
                ).lookahead()[0].span.start))
            })),
    {
        let tok = match cursor.peek(0, interner) {
            Ok(Some(t)) => t,
            Ok(None) => {
                return Err(Error::abrupt_end(cursor.scan_position(), "binding identifier"));
            },
            Err(e) => {
                return Err(e);
            },
        };
        match tok.kind {
            TokenKind::IdentifierName(s) => {
                if cursor.strict() && (s.id == SYM_EVAL || s.id == SYM_ARGUMENTS) {
                    return Err(Error::early(
                        tok.span.start,
                        "unexpected identifier 'eval' or 'arguments' in strict mode",
                    ));
                }
                cursor.advance();
                Ok(Identifier::new(s, tok.span))
            },
            TokenKind::Keyword(Keyword::Yield) => {
                if self.allow_yield || cursor.strict() {
                    Err(Error::unexpected(tok.span.start, "binding identifier"))
                } else {
                    cursor.advance();
                    Ok(Identifier::new(keyword_sym(Keyword::Yield), tok.span))
                }
            },
            TokenKind::Keyword(Keyword::Await) => {
                if self.allow_await {
                    Err(Error::unexpected(tok.span.start, "binding identifier"))
                } else {
                    cursor.advance();
                    Ok(Identifier::new(keyword_sym(Keyword::Await), tok.span))
                }
            },
            TokenKind::Keyword(Keyword::Async) => {
                cursor.advance();
                Ok(Identifier::new(keyword_sym(Keyword::Async), tok.span))
            },
            TokenKind::Keyword(Keyword::Of) => {
                cursor.advance();
                Ok(Identifier::new(keyword_sym(Keyword::Of), tok.span))
            },
            TokenKind::Keyword(Keyword::Let) => {
                if cursor.strict() {
                    Err(Error::unexpected(tok.span.start, "binding identifier"))
                } else {
                    cursor.advance();
                    Ok(Identifier::new(keyword_sym(Keyword::Let), tok.span))
                }
            },
            _ => Err(Error::unexpected(tok.span.start, "binding identifier")),
        }
    }
}

/// Parses a default-value initializer: `=` followed by an assignment
/// expression.
#[derive(Debug, Clone, Copy)]
pub struct Initializer {
    pub allow_in: bool,
    pub allow_yield: bool,
    pub allow_await: bool,
}

impl Initializer {
    /// Creates a new initializer parser.
    pub fn new(allow_in: bool, allow_yield: bool, allow_await: bool) -> (r: Initializer)
        ensures
            r.allow_in == allow_in,
            r.allow_yield == allow_yield,
            r.allow_await == allow_await,
    {
        Initializer { allow_in, allow_yield, allow_await }
    }

    /// Parses one initializer.
    pub fn parse(self, cursor: &mut Cursor, interner: &mut Interner, depth: u64) -> (r: Result<
        Expression,
        Error,
    >)
        requires
            old(cursor).wf(),
            old(interner).wf(),
        ensures
            parse_step(*old(cursor), *final(cursor), *old(interner), *final(interner)),
            final(cursor).strict_mode() == old(cursor).strict_mode(),
            r matches Ok(e) ==> final(cursor).remaining() < old(cursor).remaining(),
            (old(cursor).lookahead().len() > 0 && old(cursor).lookahead()[0].kind
                != TokenKind::Punctuator(Punctuator::Assign)) ==> (r is Err),
            (depth >= 4 && old(cursor).lookahead().len() >= 3 && old(cursor).lookahead()[0].kind
                == TokenKind::Punctuator(Punctuator::Assign) && is_atom(
                old(cursor).lookahead()[1].kind,
            ) && ends_expression(old(cursor).lookahead()[2].kind)) ==> (r matches Ok(e) && e
                == atom_expr(old(cursor).lookahead()[1]) && final(cursor).lookahead() == old(
                cursor,
            ).lookahead().skip(2)),
            (depth >= 3 && self.allow_yield && old(cursor).lookahead().len() >= 3 && old(
                cursor,
            ).lookahead()[0].kind == TokenKind::Punctuator(Punctuator::Assign) && old(
                cursor,
            ).lookahead()[1].kind == TokenKind::Keyword(Keyword::Yield) && old(
                cursor,
            ).lookahead()[2].kind == TokenKind::Punctuator(Punctuator::CloseParen)) ==> (r
                matches Ok(e) && e == Expression::Yield(YieldExpr {
                argument: None,
                delegate: false,
                span: old(cursor).lookahead()[1].span,
            }) && final(cursor).lookahead() == old(cursor).lookahead().skip(2)),
        decreases depth,
    {
        if depth == 0 {
            return Err(Error::early(
                cursor.scan_position(),
                "nesting exceeds the supported depth",
            ));
        }
        let ghost toks = old(cursor).lookahead();
        let ghost ig = depth >= 4 && toks.len() >= 3 && toks[0].kind == TokenKind::Punctuator(
            Punctuator::Assign,
        ) && is_atom(toks[1].kind) && ends_expression(toks[2].kind);
        let ghost iy = depth >= 3 && self.allow_yield && toks.len() >= 3 && toks[0].kind
            == TokenKind::Punctuator(Punctuator::Assign) && toks[1].kind == TokenKind::Keyword(
            Keyword::Yield,
        ) && toks[2].kind == TokenKind::Punctuator(Punctuator::CloseParen);
        let depth = depth - 1;
        match cursor.expect_punct(Punctuator::Assign, "initializer", interner) {
            Ok(_) => {},
            Err(e) => {
                proof {
                    if ig || iy {
                        assert(false);
                    }
                }
                return Err(e);
            },
        }
        proof {
            if ig || iy {
                assert(cursor.lookahead() == toks.skip(1));
                assert(cursor.lookahead()[0] == toks[1]);
                assert(cursor.lookahead()[1] == toks[2]);
            }
        }
        let ctx = GrammarContext {
            allow_in: self.allow_in,
            allow_yield: self.allow_yield,
            allow_await: self.allow_await,
        };
        let r = parse_assignment_expression(ctx, cursor, interner, depth);
        proof {
            if ig || iy {
                assert(toks.skip(1).skip(1) =~= toks.skip(2));
            }
        }
        r
    }
}

/// Parses an object binding pattern: `{` properties `}` in a binding
/// position.
#[derive(Debug, Clone, Copy)]
pub struct ObjectBindingPattern {
    pub allow_yield: bool,
    pub allow_await: bool,
}

impl ObjectBindingPattern {
    /// Creates a new object-binding-pattern parser.
    pub fn new(allow_yield: bool, allow_await: bool) -> (r: ObjectBindingPattern)
        ensures
            r.allow_yield == allow_yield,
            r.allow_await == allow_await,
    {
        ObjectBindingPattern { allow_yield, allow_await }
    }

    /// Parses one object binding pattern.
    #[verifier::loop_isolation(false)]
    pub fn parse(self, cursor: &mut Cursor, interner: &mut Interner, depth: u64) -> (r: Result<
        ObjectPattern,
        Error,
    >)
        requires
            old(cursor).wf(),
            old(interner).wf(),
        ensures
            parse_step(*old(cursor), *final(cursor), *old(interner), *final(interner)),
            final(cursor).strict_mode() == old(cursor).strict_mode(),
            r matches Ok(p) ==> final(cursor).remaining() < old(cursor).remaining(),
            (old(cursor).lookahead().len() > 0 && old(cursor).lookahead()[0].kind
                != TokenKind::Punctuator(Punctuator::OpenBlock)) ==> (r is Err),
            (depth >= 1 && old(cursor).lookahead().len() >= 2 && old(cursor).lookahead()[0].kind
                == TokenKind::Punctuator(Punctuator::OpenBlock) && old(
                cursor,
            ).lookahead()[1].kind == TokenKind::Punctuator(Punctuator::CloseBlock)) ==> (r matches
                Ok(p) && p.elements@.len() == 0 && p.span == (Span {
                start: old(cursor).lookahead()[0].span.start,
                end: old(cursor).lookahead()[1].span.end,
            }) && final(cursor).lookahead() == old(cursor).lookahead().skip(2)),
            (depth >= 1 && !old(cursor).strict_mode() && old(cursor).lookahead().len() >= 3
                && old(cursor).lookahead()[0].kind == TokenKind::Punctuator(Punctuator::OpenBlock)
                && (old(cursor).lookahead()[1].kind is IdentifierName) && old(
                cursor,
            ).lookahead()[2].kind == TokenKind::Punctuator(Punctuator::CloseBlock)) ==> (r matches
                Ok(p) && p.elements@.len() == 1 && p.elements@[0]
                == (ObjectPatternElement::SingleName {
                name: Identifier {
                    sym: ident_sym(old(cursor).lookahead()[1].kind),
                    span: old(cursor).lookahead()[1].span,
                },
                ident: Identifier {
                    sym: ident_sym(old(cursor).lookahead()[1].kind),
                    span: old(cursor).lookahead()[1].span,
                },
                default_init: None,
            }) && p.span == (Span {
                start: old(cursor).lookahead()[0].span.start,
                end: old(cursor).lookahead()[2].span.end,
            }) && final(cursor).lookahead() == old(cursor).lookahead().skip(3)),
        decreases depth,
    {
        if depth == 0 {
            return Err(Error::early(
                cursor.scan_position(),
                "nesting exceeds the supported depth",
            ));
        }
        let ghost toks = old(cursor).lookahead();
        let ghost og = toks.len() >= 2 && toks[0].kind == TokenKind::Punctuator(
            Punctuator::OpenBlock,
        ) && toks[1].kind == TokenKind::Punctuator(Punctuator::CloseBlock);
        let ghost hg = !old(cursor).strict_mode() && toks.len() >= 3 && toks[0].kind
            == TokenKind::Punctuator(Punctuator::OpenBlock) && (toks[1].kind is IdentifierName)
            && toks[2].kind == TokenKind::Punctuator(Punctuator::CloseBlock);
        let depth = depth - 1;
        let open = match cursor.expect_punct(
            Punctuator::OpenBlock,
            "object binding pattern",
            interner,
        ) {
            Ok(t) => t,
            Err(e) => {
                proof {
                    if og || hg {
                        assert(false);
                    }
                }
                return Err(e);
            },
        };
        let mut elements: Vec<ObjectPatternElement> = Vec::new();
        loop
            invariant
                cursor.wf(),
                interner.wf(),
                parse_step(*old(cursor), *cursor, *old(interner), *interner),
                cursor.strict_mode() == old(cursor).strict_mode(),
                cursor.remaining() < old(cursor).remaining(),
                og ==> (elements@.len() == 0 && cursor.lookahead() == toks.skip(1) && open
                    == toks[0]),
                hg ==> (elements@.len() == 0 && cursor.lookahead() == toks.skip(1) && open
                    == toks[0] && cursor.strict_mode() == false),
            decreases cursor.remaining(),
        {
            let tok = match cursor.peek(0, interner) {
                Ok(Some(t)) => t,
                Ok(None) => {
                    proof {
                        if og || hg {
                            assert(cursor.lookahead().len() > 0);
                            assert(false);
                        }
                    }
                    return Err(Error::abrupt_end(
                        cursor.scan_position(),
                        "object binding pattern",
                    ));
                },
                Err(e) => {
                    proof {
                        if og || hg {
                            assert(cursor.lookahead().len() > 0);
                            assert(false);
                        }
                    }
                    return Err(e);
                },
            };
            if tok.kind == TokenKind::Punctuator(Punctuator::CloseBlock) {
                cursor.advance();
                proof {
                    if og {
                        assert(tok == toks[1]);
                        assert(cursor.lookahead() =~= toks.skip(2));
                    }
                    if hg {
                        assert(tok == toks[1]);
                        assert(false);
                    }
                }
                return Ok(ObjectPattern::new(
                    elements,
                    crate::span::Span::new(open.span.start, tok.span.end),
                ));
            }
            proof {
                if og {
                    assert(tok == toks[1]);
                    assert(false);
                }
                if hg {
                    assert(tok == toks[1]);
                }
            }
            if tok.kind == TokenKind::Punctuator(Punctuator::Spread) {
                proof {
                    if hg {
                        assert(false);
                    }
                }
                cursor.advance();
                let ident = match BindingIdentifier::new(self.allow_yield, self.allow_await)
                    .parse(cursor, interner) {
                    Ok(id) => id,
                    Err(e) => {
                        return Err(e);
                    },
                };
                elements.push(ObjectPatternElement::RestProperty { ident });
                let close = match cursor.expect_punct(
                    Punctuator::CloseBlock,
                    "rest property must be the last element",
                    interner,
                ) {
                    Ok(t) => t,
                    Err(e) => {
                        return Err(e);
                    },
                };
                return Ok(ObjectPattern::new(
                    elements,
                    crate::span::Span::new(open.span.start, close.span.end),
                ));
            }
            let name = match parse_property_name(cursor, interner) {
                Ok(id) => id,
                Err(e) => {
                    proof {
                        if hg {
                            assert(false);
                        }
                    }
                    return Err(e);
                },
            };
            proof {
                if hg {
                    assert(name.sym == ident_sym(toks[1].kind));
                    assert(name.span == toks[1].span);
                    assert(cursor.lookahead() =~= toks.skip(2));
                    assert(cursor.lookahead()[0] == toks[2]);
                }
            }
            let tok2 = match cursor.peek(0, interner) {
                Ok(Some(t)) => t,
                Ok(None) => {
                    proof {
                        if hg {
                            assert(cursor.lookahead().len() > 0);
                            assert(false);
                        }
                    }
                    return Err(Error::abrupt_end(
                        cursor.scan_position(),
                        "object binding pattern",
                    ));
                },
                Err(e) => {
                    proof {
                        if hg {
                            assert(false);
                        }
                    }
                    return Err(e);
                },
            };
            if tok2.kind == TokenKind::Punctuator(Punctuator::Colon) {
                cursor.advance();
                let el = match self.parse_binding_element(name, cursor, interner, depth) {
                    Ok(el) => el,
                    Err(e) => {
                        return Err(e);
                    },
                };
                elements.push(el);
            } else if tok2.kind == TokenKind::Punctuator(Punctuator::Assign) {
                if cursor.strict() && (name.sym.id == SYM_EVAL || name.sym.id == SYM_ARGUMENTS) {
                    return Err(Error::early(
                        name.span.start,
                        "unexpected identifier 'eval' or 'arguments' in strict mode",
                    ));
                }
                let init = match Initializer::new(true, self.allow_yield, self.allow_await)
                    .parse(cursor, interner, depth) {
                    Ok(e) => e,
                    Err(e) => {
                        return Err(e);
                    },
                };
                elements.push(
                    ObjectPatternElement::SingleName {
                        name,
                        ident: name,
                        default_init: Some(init),
                    },
                );
            } else {
                if cursor.strict() && (name.sym.id == SYM_EVAL || name.sym.id == SYM_ARGUMENTS) {
                    proof {
                        if hg {
                            assert(false);
                        }
                    }
                    return Err(Error::early(
                        name.span.start,
                        "unexpected identifier 'eval' or 'arguments' in strict mode",
                    ));
                }
                elements.push(
                    ObjectPatternElement::SingleName { name, ident: name, default_init: None },
                );
            }
            let sep = match cursor.peek(0, interner) {
                Ok(Some(t)) => t,
                Ok(None) => {
                    proof {
                        if hg {
                            assert(cursor.lookahead().len() > 0);
                            assert(false);
                        }
                    }
                    return Err(Error::abrupt_end(
                        cursor.scan_position(),
                        "object binding pattern",
                    ));
                },
                Err(e) => {
                    proof {
                        if hg {
                            assert(false);
                        }
                    }
                    return Err(e);
                },
            };
            if sep.kind == TokenKind::Punctuator(Punctuator::Comma) {
                proof {
                    if hg {
                        assert(sep == toks[2]);
                        assert(false);
                    }
                }
                cursor.advance();
            } else if sep.kind == TokenKind::Punctuator(Punctuator::CloseBlock) {
                cursor.advance();
                proof {
                    if hg {
                        assert(sep == toks[2]);
                        assert(elements@.len() == 1);
                        assert(cursor.lookahead() =~= toks.skip(3));
                    }
                }
                return Ok(ObjectPattern::new(
                    elements,
                    crate::span::Span::new(open.span.start, sep.span.end),
                ));
            } else {
                proof {
                    if hg {
                        assert(sep == toks[2]);
                        assert(false);
                    }
                }
                return Err(Error::unexpected(sep.span.start, "object binding pattern"));
            }
        }
    }

    /// Parses what follows `name:` inside an object binding pattern: a
    /// nested pattern or a single name, each with an optional default.
    fn parse_binding_element(
        self,
        name: Identifier,
        cursor: &mut Cursor,
        interner: &mut Interner,
        depth: u64,
    ) -> (r: Result<ObjectPatternElement, Error>)
        requires
            old(cursor).wf(),
            old(interner).wf(),
        ensures
            parse_step(*old(cursor), *final(cursor), *old(interner), *final(interner)),
            final(cursor).strict_mode() == old(cursor).strict_mode(),
            r matches Ok(el) ==> final(cursor).remaining() < old(cursor).remaining(),
        decreases depth,
    {
        if depth == 0 {
            return Err(Error::early(
                cursor.scan_position(),
                "nesting exceeds the supported depth",
            ));
        }
        let depth = depth - 1;
        let tok = match cursor.peek(0, interner) {
            Ok(Some(t)) => t,
            Ok(None) => {
                return Err(Error::abrupt_end(cursor.scan_position(), "object binding pattern"));
            },
            Err(e) => {
                return Err(e);
            },
        };
        if tok.kind == TokenKind::Punctuator(Punctuator::OpenBlock) {
            let p = match ObjectBindingPattern::new(self.allow_yield, self.allow_await)
                .parse(cursor, interner, depth) {
                Ok(p) => p,
                Err(e) => {
                    return Err(e);
                },
            };
            let init = match self.parse_optional_initializer(cursor, interner, depth) {
                Ok(i) => i,
                Err(e) => {
                    return Err(e);
                },
            };
            Ok(ObjectPatternElement::NestedPattern {
                name,
                pattern: Pattern::Object(p),
                default_init: init,
            })
        } else if tok.kind == TokenKind::Punctuator(Punctuator::OpenBracket) {
            let p = match ArrayBindingPattern::new(self.allow_yield, self.allow_await)
                .parse(cursor, interner, depth) {
                Ok(p) => p,
                Err(e) => {
                    return Err(e);
                },
            };
            let init = match self.parse_optional_initializer(cursor, interner, depth) {
                Ok(i) => i,
                Err(e) => {
                    return Err(e);
                },
            };
            Ok(ObjectPatternElement::NestedPattern {
                name,
                pattern: Pattern::Array(p),
                default_init: init,
            })
        } else {
            let ident = match BindingIdentifier::new(self.allow_yield, self.allow_await)
                .parse(cursor, interner) {
                Ok(id) => id,
                Err(e) => {
                    return Err(e);
                },
            };
            let init = match self.parse_optional_initializer(cursor, interner, depth) {
                Ok(i) => i,
                Err(e) => {
                    return Err(e);
                },
            };
            Ok(ObjectPatternElement::SingleName { name, ident, default_init: init })
        }
    }

    /// Parses an initializer when the next token is `=`.
    fn parse_optional_initializer(
        self,
        cursor: &mut Cursor,
        interner: &mut Interner,
        depth: u64,
    ) -> (r: Result<Option<Expression>, Error>)
        requires
            old(cursor).wf(),
            old(interner).wf(),
        ensures
            parse_step(*old(cursor), *final(cursor), *old(interner), *final(interner)),
            final(cursor).strict_mode() == old(cursor).strict_mode(),
            (depth > 0 && old(cursor).lookahead().len() > 0 && old(cursor).lookahead()[0].kind
                != TokenKind::Punctuator(Punctuator::Assign)) ==> (r matches Ok(init) && (init
                is None) && *final(cursor) == *old(cursor)),
        decreases depth,
    {
        if depth == 0 {
            return Err(Error::early(
                cursor.scan_position(),
                "nesting exceeds the supported depth",
            ));
        }
        let depth = depth - 1;
        let has_init = match cursor.peek(0, interner) {
            Ok(Some(t)) => t.kind == TokenKind::Punctuator(Punctuator::Assign),
            Ok(None) => false,
            Err(e) => {
                return Err(e);
            },
        };
        if has_init {
            match Initializer::new(true, self.allow_yield, self.allow_await)
                .parse(cursor, interner, depth) {
                Ok(e) => Ok(Some(e)),
                Err(e) => Err(e),
            }
        } else {
            Ok(None)
        }
    }
}

/// Parses an array binding pattern: `[` elements `]` in a binding
/// position.
#[derive(Debug, Clone, Copy)]
pub struct ArrayBindingPattern {
    pub allow_yield: bool,
    pub allow_await: bool,
}

impl ArrayBindingPattern {
    /// Creates a new array-binding-pattern parser.
    pub fn new(allow_yield: bool, allow_await: bool) -> (r: ArrayBindingPattern)
        ensures
            r.allow_yield == allow_yield,
            r.allow_await == allow_await,
    {
        ArrayBindingPattern { allow_yield, allow_await }
    }

    /// Parses one array binding pattern.
    #[verifier::loop_isolation(false)]
    pub fn parse(self, cursor: &mut Cursor, interner: &mut Interner, depth: u64) -> (r: Result<
        ArrayPattern,
        Error,
    >)
        requires
            old(cursor).wf(),
            old(interner).wf(),
        ensures
            parse_step(*old(cursor), *final(cursor), *old(interner), *final(interner)),
            final(cursor).strict_mode() == old(cursor).strict_mode(),
            r matches Ok(p) ==> final(cursor).remaining() < old(cursor).remaining(),
            (old(cursor).lookahead().len() > 0 && old(cursor).lookahead()[0].kind
                != TokenKind::Punctuator(Punctuator::OpenBracket)) ==> (r is Err),
            (depth >= 1 && old(cursor).lookahead().len() >= 2 && old(cursor).lookahead()[0].kind
                == TokenKind::Punctuator(Punctuator::OpenBracket) && old(
                cursor,
            ).lookahead()[1].kind == TokenKind::Punctuator(Punctuator::CloseBracket)) ==> (r
                matches Ok(p) && p.elements@.len() == 0 && p.span == (Span {
                start: old(cursor).lookahead()[0].span.start,
                end: old(cursor).lookahead()[1].span.end,
            }) && final(cursor).lookahead() == old(cursor).lookahead().skip(2)),
        decreases depth,
    {
        if depth == 0 {
            return Err(Error::early(
                cursor.scan_position(),
                "nesting exceeds the supported depth",
            ));
        }
        let ghost toks = old(cursor).lookahead();
        let ghost ag = toks.len() >= 2 && toks[0].kind == TokenKind::Punctuator(
            Punctuator::OpenBracket,
        ) && toks[1].kind == TokenKind::Punctuator(Punctuator::CloseBracket);
        let depth = depth - 1;
        let open = match cursor.expect_punct(
            Punctuator::OpenBracket,
            "array binding pattern",
            interner,
        ) {
            Ok(t) => t,
            Err(e) => {
                proof {
                    if ag {
                        assert(false);
                    }
                }
                return Err(e);
            },
        };
        let mut elements: Vec<ArrayPatternElement> = Vec::new();
        loop
            invariant
                cursor.wf(),
                interner.wf(),
                parse_step(*old(cursor), *cursor, *old(interner), *interner),
                cursor.strict_mode() == old(cursor).strict_mode(),
                cursor.remaining() < old(cursor).remaining(),
                ag ==> (elements@.len() == 0 && cursor.lookahead() == toks.skip(1) && open
                    == toks[0]),
            decreases cursor.remaining(),
        {
            let tok = match cursor.peek(0, interner) {
                Ok(Some(t)) => t,
                Ok(None) => {
                    proof {
                        if ag {
                            assert(cursor.lookahead().len() > 0);
                            assert(false);
                        }
                    }
                    return Err(Error::abrupt_end(
                        cursor.scan_position(),
                        "array binding pattern",
                    ));
                },
                Err(e) => {
                    proof {
                        if ag {
                            assert(cursor.lookahead().len() > 0);
                            assert(false);
                        }
                    }
                    return Err(e);
                },
            };
            if tok.kind == TokenKind::Punctuator(Punctuator::CloseBracket) {
                cursor.advance();
                proof {
                    if ag {
                        assert(tok == toks[1]);
                        assert(cursor.lookahead() =~= toks.skip(2));
                    }
                }
                return Ok(ArrayPattern::new(
                    elements,
                    crate::span::Span::new(open.span.start, tok.span.end),
                ));
            }
            proof {
                if ag {
                    assert(tok == toks[1]);
                    assert(false);
                }
            }
            if tok.kind == TokenKind::Punctuator(Punctuator::Comma) {
                cursor.advance();
                elements.push(ArrayPatternElement::Elision);
                continue;
            }
            if tok.kind == TokenKind::Punctuator(Punctuator::Spread) {
                cursor.advance();
                let ident = match BindingIdentifier::new(self.allow_yield, self.allow_await)
                    .parse(cursor, interner) {
                    Ok(id) => id,
                    Err(e) => {
                        return Err(e);
                    },
                };
                elements.push(ArrayPatternElement::Rest { ident });
                let close = match cursor.expect_punct(
                    Punctuator::CloseBracket,
                    "rest element must be the last element",
                    interner,
                ) {
                    Ok(t) => t,
                    Err(e) => {
                        return Err(e);
                    },
                };
                return Ok(ArrayPattern::new(
                    elements,
                    crate::span::Span::new(open.span.start, close.span.end),
                ));
            }
            if tok.kind == TokenKind::Punctuator(Punctuator::OpenBlock) {
                let p = match ObjectBindingPattern::new(self.allow_yield, self.allow_await)
                    .parse(cursor, interner, depth) {
                    Ok(p) => p,
                    Err(e) => {
                        return Err(e);
                    },
                };
                let init = match ObjectBindingPattern::new(self.allow_yield, self.allow_await)
                    .parse_optional_initializer(cursor, interner, depth) {
                    Ok(i) => i,
                    Err(e) => {
                        return Err(e);
                    },
                };
                elements.push(
                    ArrayPatternElement::NestedPattern {
                        pattern: Pattern::Object(p),
                        default_init: init,
                    },
                );
            } else if tok.kind == TokenKind::Punctuator(Punctuator::OpenBracket) {
                let p = match ArrayBindingPattern::new(self.allow_yield, self.allow_await)
                    .parse(cursor, interner, depth) {
                    Ok(p) => p,
                    Err(e) => {
                        return Err(e);
                    },
                };
                let init = match ObjectBindingPattern::new(self.allow_yield, self.allow_await)
                    .parse_optional_initializer(cursor, interner, depth) {
                    Ok(i) => i,
                    Err(e) => {
                        return Err(e);
                    },
                };
                elements.push(
                    ArrayPatternElement::NestedPattern {
                        pattern: Pattern::Array(p),
                        default_init: init,
                    },
                );
            } else {
                let ident = match BindingIdentifier::new(self.allow_yield, self.allow_await)
                    .parse(cursor, interner) {
                    Ok(id) => id,
                    Err(e) => {
                        return Err(e);
                    },
                };
                let init = match ObjectBindingPattern::new(self.allow_yield, self.allow_await)
                    .parse_optional_initializer(cursor, interner, depth) {
                    Ok(i) => i,
                    Err(e) => {
                        return Err(e);
                    },
                };
                elements.push(ArrayPatternElement::SingleName { ident, default_init: init });
            }
            let sep = match cursor.peek(0, interner) {
                Ok(Some(t)) => t,
                Ok(None) => {
                    return Err(Error::abrupt_end(
                        cursor.scan_position(),
                        "array binding pattern",
                    ));
                },
                Err(e) => {
                    return Err(e);
                },
            };
            if sep.kind == TokenKind::Punctuator(Punctuator::Comma) {
                cursor.advance();
            } else if sep.kind == TokenKind::Punctuator(Punctuator::CloseBracket) {
                cursor.advance();
                return Ok(ArrayPattern::new(
                    elements,
                    crate::span::Span::new(open.span.start, sep.span.end),
                ));
            } else {
                return Err(Error::unexpected(sep.span.start, "array binding pattern"));
            }
        }
    }
}

// ---------------------------------------------------------------------------

/// The span an expression covers, or its best approximation for node kinds
/// that carry no span of their own.
pub(crate) fn expression_span(e: &Expression) -> (r: Span)
    decreases *e, 1int,
{
    match e {
        Expression::Identifier(id) => id.span,
        Expression::Literal(l) => l.span,
        Expression::RegExpLiteral(l) => l.span,
        Expression::TemplateLiteral(t) => t.span,
        Expression::ArrayLiteral(a) => a.span,
        Expression::ObjectLiteral(o) => o.span,
        Expression::Parenthesized(p) => p.span,
        Expression::Assign(a) => {
            let start = assign_target_span(&a.lhs).start;
            let end = expression_span(&a.rhs).end;
            Span::new(start, end)
        },
        Expression::Yield(y) => y.span,
        Expression::Await(aw) => aw.span,
        Expression::GeneratorExpression(g) => g.span,
        Expression::PropertyAccess(pa) => {
            let start = expression_span(&pa.target).start;
            Span::new(start, pa.field.span.end)
        },
        Expression::SuperPropertyAccess(s) => s.span,
    }
}

/// The span an assignment target covers.
fn assign_target_span(t: &AssignTarget) -> (r: Span)
    decreases *t, 0int,
{
    match t {
        AssignTarget::Identifier(id) => id.span,
        AssignTarget::Access(pa) => {
            let start = expression_span(&pa.target).start;
            Span::new(start, pa.field.span.end)
        },
        AssignTarget::SuperAccess(s) => s.span,
        AssignTarget::Pattern(p) => match p {
            crate::ast::Pattern::Object(op) => op.span,
            crate::ast::Pattern::Array(ap) => ap.span,
        },
    }
}

/// The assignment operator a punctuator stands for, if any.
fn punct_to_assign_op(p: Punctuator) -> (r: Option<AssignOp>)
    ensures
        ends_expression(TokenKind::Punctuator(p)) ==> (r is None),
{
    match p {
        Punctuator::Assign => Some(AssignOp::Assign),
        Punctuator::AssignAdd => Some(AssignOp::Add),
        Punctuator::AssignSub => Some(AssignOp::Sub),
        Punctuator::AssignMul => Some(AssignOp::Mul),
        Punctuator::AssignDiv => Some(AssignOp::Div),
        Punctuator::AssignMod => Some(AssignOp::Mod),
        Punctuator::AssignPow => Some(AssignOp::Pow),
        Punctuator::AssignLeftSh => Some(AssignOp::Shl),
        Punctuator::AssignRightSh => Some(AssignOp::Shr),
        Punctuator::AssignURightSh => Some(AssignOp::Ushr),
        Punctuator::AssignAnd => Some(AssignOp::And),
        Punctuator::AssignOr => Some(AssignOp::Or),
        Punctuator::AssignXor => Some(AssignOp::Xor),
        Punctuator::AssignBoolAnd => Some(AssignOp::BoolAnd),
        Punctuator::AssignBoolOr => Some(AssignOp::BoolOr),
        Punctuator::AssignCoalesce => Some(AssignOp::Coalesce),
        _ => None,
    }
}

/// Parses an expression. The comma operator is not part of this grammar,
/// so an expression is an assignment expression.
pub fn parse_expression(
    ctx: GrammarContext,
    cursor: &mut Cursor,
    interner: &mut Interner,
    depth: u64,
) -> (r: Result<Expression, Error>)
    requires
        old(cursor).wf(),
        old(interner).wf(),
    ensures
        parse_step(*old(cursor), *final(cursor), *old(interner), *final(interner)),
        final(cursor).strict_mode() == old(cursor).strict_mode(),
        r matches Ok(e) ==> final(cursor).remaining() < old(cursor).remaining(),
        (depth >= 4 && old(cursor).lookahead().len() >= 2 && is_atom(
            old(cursor).lookahead()[0].kind,
        ) && ends_expression(old(cursor).lookahead()[1].kind)) ==> (r matches Ok(e) && e
            == atom_expr(old(cursor).lookahead()[0])
            && final(cursor).lookahead() == old(cursor).lookahead().skip(1)),
        (depth >= 4 && super_statement_form(old(cursor).lookahead())) ==> (r matches Ok(e) && e
            == super_dot_expr(old(cursor).lookahead()) && final(cursor).lookahead()
            == old(cursor).lookahead().skip(3)),
    decreases depth,
{
    if depth == 0 {
        return Err(Error::early(cursor.scan_position(), "nesting exceeds the supported depth"));
    }
    parse_assignment_expression(ctx, cursor, interner, depth - 1)
}

/// Parses an assignment expression. A left-hand side written as an object
/// or array literal is reclassified as a destructuring pattern when a `=`
/// follows; a fragment that cannot stand as a pattern is rejected here.
pub fn parse_assignment_expression(
    ctx: GrammarContext,
    cursor: &mut Cursor,
    interner: &mut Interner,
    depth: u64,
) -> (r: Result<Expression, Error>)
    requires
        old(cursor).wf(),
        old(interner).wf(),
    ensures
        parse_step(*old(cursor), *final(cursor), *old(interner), *final(interner)),
        final(cursor).strict_mode() == old(cursor).strict_mode(),
        r matches Ok(e) ==> final(cursor).remaining() < old(cursor).remaining(),
        (depth >= 3 && old(cursor).lookahead().len() >= 2 && is_atom(
            old(cursor).lookahead()[0].kind,
        ) && ends_expression(old(cursor).lookahead()[1].kind)) ==> (r matches Ok(e) && e
            == atom_expr(old(cursor).lookahead()[0])
            && final(cursor).lookahead() == old(cursor).lookahead().skip(1)),
        (depth >= 2 && ctx.allow_yield && old(cursor).lookahead().len() >= 2 && old(
            cursor,
        ).lookahead()[0].kind == TokenKind::Keyword(Keyword::Yield) && old(
            cursor,
        ).lookahead()[1].kind == TokenKind::Punctuator(Punctuator::CloseParen)) ==> (r matches Ok(
            e,
        ) && e == Expression::Yield(YieldExpr {
            argument: None,
            delegate: false,
            span: old(cursor).lookahead()[0].span,
        }) && final(cursor).lookahead() == old(cursor).lookahead().skip(1)),
        (depth >= 3 && super_statement_form(old(cursor).lookahead())) ==> (r matches Ok(e) && e
            == super_dot_expr(old(cursor).lookahead()) && final(cursor).lookahead()
            == old(cursor).lookahead().skip(3)),
    decreases depth,
{
    if depth == 0 {
        return Err(Error::early(cursor.scan_position(), "nesting exceeds the supported depth"));
    }
    let ghost toks = old(cursor).lookahead();
    let ghost sgd = depth >= 3 && super_statement_form(toks);
    let depth = depth - 1;
    let first = match cursor.peek(0, interner) {
        Ok(Some(t)) => t,
        Ok(None) => {
            return Err(Error::abrupt_end(cursor.scan_position(), "expression"));
        },
        Err(e) => {
            return Err(e);
        },
    };
    if ctx.allow_yield && first.kind == TokenKind::Keyword(Keyword::Yield) {
        proof {
            if sgd {
                assert(false);
            }
        }
        return parse_yield_expression(ctx, cursor, interner, depth);
    }
    if ctx.allow_await && first.kind == TokenKind::Keyword(Keyword::Await) {
        proof {
            if sgd {
                assert(false);
            }
        }
        return parse_await_expression(ctx, cursor, interner, depth);
    }
    let lhs = match parse_lhs_expression(ctx, cursor, interner, depth) {
        Ok(e) => e,
        Err(e) => {
            proof {
                if sgd {
                    assert(false);
                }
            }
            return Err(e);
        },
    };
    proof {
        if sgd {
            assert(lhs == super_dot_expr(toks));
            assert(cursor.lookahead() == toks.skip(3));
            assert(cursor.lookahead()[0] == toks[3]);
        }
    }
    let op_tok = match cursor.peek(0, interner) {
        Ok(Some(t)) => t,
        Ok(None) => {
            proof {
                if sgd {
                    assert(cursor.lookahead().len() > 0);
                    assert(false);
                }
            }
            return Ok(lhs);
        },
        Err(e) => {
            proof {
                if sgd {
                    assert(false);
                }
            }
            return Err(e);
        },
    };
    let op = match op_tok.kind {
        TokenKind::Punctuator(p) => match punct_to_assign_op(p) {
            Some(op) => op,
            None => {
                return Ok(lhs);
            },
        },
        _ => {
            return Ok(lhs);
        },
    };
    let target: AssignTarget = if op == AssignOp::Assign {
        match lhs {
            Expression::Identifier(id) => {
                if cursor.strict() && (id.sym.id == SYM_EVAL || id.sym.id == SYM_ARGUMENTS) {
                    return Err(Error::early(
                        id.span.start,
                        "cannot assign to 'eval' or 'arguments' in strict mode",
                    ));
                }
                AssignTarget::Identifier(id)
            },
            Expression::PropertyAccess(pa) => AssignTarget::Access(pa),
            Expression::SuperPropertyAccess(s) => AssignTarget::SuperAccess(s),
            Expression::ObjectLiteral(o) => {
                let start = o.span.start;
                match object_to_pattern(o) {
                    Some(p) => AssignTarget::Pattern(crate::ast::Pattern::Object(p)),
                    None => {
                        return Err(Error::early(
                            start,
                            "invalid destructuring assignment target",
                        ));
                    },
                }
            },
            Expression::ArrayLiteral(a) => {
                let start = a.span.start;
                match array_to_pattern(a) {
                    Some(p) => AssignTarget::Pattern(crate::ast::Pattern::Array(p)),
                    None => {
                        return Err(Error::early(
                            start,
                            "invalid destructuring assignment target",
                        ));
                    },
                }
            },
            _ => {
                return Err(Error::early(op_tok.span.start, "invalid assignment target"));
            },
        }
    } else {
        match lhs {
            Expression::Identifier(id) => {
                if cursor.strict() && (id.sym.id == SYM_EVAL || id.sym.id == SYM_ARGUMENTS) {
                    return Err(Error::early(
                        id.span.start,
                        "cannot assign to 'eval' or 'arguments' in strict mode",
                    ));
                }
                AssignTarget::Identifier(id)
            },
            Expression::PropertyAccess(pa) => AssignTarget::Access(pa),
            Expression::SuperPropertyAccess(s) => AssignTarget::SuperAccess(s),
            _ => {
                return Err(Error::early(op_tok.span.start, "invalid assignment target"));
            },
        }
    };
    cursor.advance();
    let rhs = match parse_assignment_expression(ctx, cursor, interner, depth) {
        Ok(e) => e,
        Err(e) => {
            return Err(e);
        },
    };
    Ok(Expression::Assign(Assign::new(op, target, rhs)))
}

/// Parses a `yield` expression: `yield`, `yield expr` or `yield* expr`,
/// with no line terminator allowed between `yield` and its argument.
fn parse_yield_expression(
    ctx: GrammarContext,
    cursor: &mut Cursor,
    interner: &mut Interner,
    depth: u64,
) -> (r: Result<Expression, Error>)
    requires
        old(cursor).wf(),
        old(interner).wf(),
    ensures
        parse_step(*old(cursor), *final(cursor), *old(interner), *final(interner)),
        final(cursor).strict_mode() == old(cursor).strict_mode(),
        r matches Ok(e) ==> final(cursor).remaining() < old(cursor).remaining(),
        (depth > 0 && old(cursor).lookahead().len() >= 2 && old(cursor).lookahead()[0].kind
            == TokenKind::Keyword(Keyword::Yield) && old(cursor).lookahead()[1].kind
            == TokenKind::Punctuator(Punctuator::CloseParen)) ==> (r matches Ok(e) && e
            == Expression::Yield(YieldExpr {
            argument: None,
            delegate: false,
            span: old(cursor).lookahead()[0].span,
        }) && final(cursor).lookahead() == old(cursor).lookahead().skip(1)),
    decreases depth,
{
    if depth == 0 {
        return Err(Error::early(cursor.scan_position(), "nesting exceeds the supported depth"));
    }
    let depth = depth - 1;
    let ytok = match cursor.expect_keyword(Keyword::Yield, "yield expression", interner) {
        Ok(t) => t,
        Err(e) => {
            return Err(e);
        },
    };
    let next = match cursor.peek(0, interner) {
        Ok(Some(t)) => Some(t),
        Ok(None) => None,
        Err(e) => {
            return Err(e);
        },
    };
    match next {
        None => Ok(
            Expression::Yield(YieldExpr { argument: None, delegate: false, span: ytok.span }),
        ),
        Some(t) => {
            if t.lt_before || t.kind == TokenKind::Punctuator(Punctuator::CloseParen) || t.kind
                == TokenKind::Punctuator(Punctuator::CloseBracket) || t.kind
                == TokenKind::Punctuator(Punctuator::CloseBlock) || t.kind
                == TokenKind::Punctuator(Punctuator::Comma) || t.kind == TokenKind::Punctuator(
                Punctuator::Semicolon,
            ) || t.kind == TokenKind::Punctuator(Punctuator::Colon) {
                return Ok(
                    Expression::Yield(
                        YieldExpr { argument: None, delegate: false, span: ytok.span },
                    ),
                );
            }
            let delegate = t.kind == TokenKind::Punctuator(Punctuator::Mul);
            if delegate {
                cursor.advance();
            }
            let arg = match parse_assignment_expression(ctx, cursor, interner, depth) {
                Ok(e) => e,
                Err(e) => {
                    return Err(e);
                },
            };
            let end = expression_span(&arg).end;
            Ok(
                Expression::Yield(
                    YieldExpr {
                        argument: Some(Box::new(arg)),
                        delegate,
                        span: Span::new(ytok.span.start, end),
                    },
                ),
            )
        },
    }
}

/// Parses an `await` expression.
fn parse_await_expression(
    ctx: GrammarContext,
    cursor: &mut Cursor,
    interner: &mut Interner,
    depth: u64,
) -> (r: Result<Expression, Error>)
    requires
        old(cursor).wf(),
        old(interner).wf(),
    ensures
        parse_step(*old(cursor), *final(cursor), *old(interner), *final(interner)),
        final(cursor).strict_mode() == old(cursor).strict_mode(),
        r matches Ok(e) ==> final(cursor).remaining() < old(cursor).remaining(),
    decreases depth,
{
    if depth == 0 {
        return Err(Error::early(cursor.scan_position(), "nesting exceeds the supported depth"));
    }
    let depth = depth - 1;
    let atok = match cursor.expect_keyword(Keyword::Await, "await expression", interner) {
        Ok(t) => t,
        Err(e) => {
            return Err(e);
        },
    };
    let arg = match parse_lhs_expression(ctx, cursor, interner, depth) {
        Ok(e) => e,
        Err(e) => {
            return Err(e);
        },
    };
    let end = expression_span(&arg).end;
    Ok(
        Expression::Await(
            AwaitExpr { argument: Box::new(arg), span: Span::new(atok.span.start, end) },
        ),
    )
}

/// Parses a left-hand-side expression: a primary expression followed by
/// any number of `.name` property accesses.
#[verifier::loop_isolation(false)]
fn parse_lhs_expression(
    ctx: GrammarContext,
    cursor: &mut Cursor,
    interner: &mut Interner,
    depth: u64,
) -> (r: Result<Expression, Error>)
    requires
        old(cursor).wf(),
        old(interner).wf(),
    ensures
        parse_step(*old(cursor), *final(cursor), *old(interner), *final(interner)),
        final(cursor).strict_mode() == old(cursor).strict_mode(),
        r matches Ok(e) ==> final(cursor).remaining() < old(cursor).remaining(),
        (depth >= 2 && old(cursor).lookahead().len() >= 2 && is_atom(
            old(cursor).lookahead()[0].kind,
        ) && old(cursor).lookahead()[1].kind != TokenKind::Punctuator(Punctuator::Dot)) ==> (
        r matches Ok(e) && e == atom_expr(old(cursor).lookahead()[0])
            && final(cursor).lookahead() == old(cursor).lookahead().skip(1)),
        (depth >= 2 && old(cursor).lookahead().len() >= 4 && old(cursor).lookahead()[0].kind
            == TokenKind::Keyword(Keyword::Super) && old(cursor).lookahead()[1].kind
            == TokenKind::Punctuator(Punctuator::Dot) && (old(cursor).lookahead()[2].kind
            is IdentifierName) && old(cursor).lookahead()[3].kind != TokenKind::Punctuator(
            Punctuator::Dot,
        )) ==> (r matches Ok(e) && e == Expression::SuperPropertyAccess(SuperPropertyAccess {
            field: Identifier {
                sym: ident_sym(old(cursor).lookahead()[2].kind),
                span: old(cursor).lookahead()[2].span,
            },
            span: Span {
                start: old(cursor).lookahead()[0].span.start,
                end: old(cursor).lookahead()[2].span.end,
            },
        }) && final(cursor).lookahead() == old(cursor).lookahead().skip(3)),
    decreases depth,
{
    if depth == 0 {
        return Err(Error::early(cursor.scan_position(), "nesting exceeds the supported depth"));
    }
    let ghost toks = old(cursor).lookahead();
    let ghost atom_guided = depth >= 2 && toks.len() >= 2 && is_atom(toks[0].kind)
        && toks[1].kind != TokenKind::Punctuator(Punctuator::Dot);
    let ghost super_guided = depth >= 2 && toks.len() >= 4 && toks[0].kind == TokenKind::Keyword(
        Keyword::Super,
    ) && toks[1].kind == TokenKind::Punctuator(Punctuator::Dot) && (toks[2].kind
        is IdentifierName) && toks[3].kind != TokenKind::Punctuator(Punctuator::Dot);
    let depth = depth - 1;
    let mut expr = match parse_primary_expression(ctx, cursor, interner, depth) {
        Ok(e) => e,
        Err(e) => {
            proof {
                if atom_guided {
                    assert(false);
                }
                if super_guided {
                    assert(false);
                }
            }
            return Err(e);
        },
    };
    loop
        invariant
            cursor.wf(),
            interner.wf(),
            parse_step(*old(cursor), *cursor, *old(interner), *interner),
            cursor.strict_mode() == old(cursor).strict_mode(),
            cursor.remaining() < old(cursor).remaining(),
            atom_guided ==> (expr == atom_expr(toks[0]) && cursor.lookahead() == toks.skip(1)),
            super_guided ==> (expr == Expression::SuperPropertyAccess(SuperPropertyAccess {
                field: Identifier { sym: ident_sym(toks[2].kind), span: toks[2].span },
                span: Span { start: toks[0].span.start, end: toks[2].span.end },
            }) && cursor.lookahead() == toks.skip(3)),
        decreases cursor.remaining(),
    {
        let tok = match cursor.peek(0, interner) {
            Ok(Some(t)) => t,
            Ok(None) => {
                proof {
                    if super_guided {
                        assert(cursor.lookahead().len() > 0);
                        assert(false);
                    }
                }
                return Ok(expr);
            },
            Err(e) => {
                proof {
                    if super_guided {
                        assert(false);
                    }
                }
                return Err(e);
            },
        };
        proof {
            if super_guided {
                assert(tok == toks[3]);
            }
        }
        if tok.kind != TokenKind::Punctuator(Punctuator::Dot) {
            return Ok(expr);
        }
        cursor.advance();
        let name_tok = match cursor.peek(0, interner) {
            Ok(Some(t)) => t,
            Ok(None) => {
                return Err(Error::abrupt_end(cursor.scan_position(), "property access"));
            },
            Err(e) => {
                return Err(e);
            },
        };
        let field = match name_tok.kind {
            TokenKind::IdentifierName(s) => Identifier::new(s, name_tok.span),
            TokenKind::Keyword(k) => Identifier::new(keyword_sym(k), name_tok.span),
            _ => {
                return Err(Error::unexpected(name_tok.span.start, "property access"));
            },
        };
        cursor.advance();
        expr = Expression::PropertyAccess(PropertyAccess { target: Box::new(expr), field });
    }
}

/// Parses a primary expression.
fn parse_primary_expression(
    ctx: GrammarContext,
    cursor: &mut Cursor,
    interner: &mut Interner,
    depth: u64,
) -> (r: Result<Expression, Error>)
    requires
        old(cursor).wf(),
        old(interner).wf(),
    ensures
        parse_step(*old(cursor), *final(cursor), *old(interner), *final(interner)),
        final(cursor).strict_mode() == old(cursor).strict_mode(),
        r matches Ok(e) ==> final(cursor).remaining() < old(cursor).remaining(),
        (depth >= 1 && old(cursor).lookahead().len() > 0 && is_atom(
            old(cursor).lookahead()[0].kind,
        )) ==> (r matches Ok(e) && e == atom_expr(old(cursor).lookahead()[0])
            && final(cursor).lookahead() == old(cursor).lookahead().skip(1)),
        (depth >= 1 && old(cursor).lookahead().len() >= 3 && old(cursor).lookahead()[0].kind
            == TokenKind::Keyword(Keyword::Super) && old(cursor).lookahead()[1].kind
            == TokenKind::Punctuator(Punctuator::Dot) && (old(cursor).lookahead()[2].kind
            is IdentifierName)) ==> (r matches Ok(e) && e == Expression::SuperPropertyAccess(
            SuperPropertyAccess {
                field: Identifier {
                    sym: ident_sym(old(cursor).lookahead()[2].kind),
                    span: old(cursor).lookahead()[2].span,
                },
                span: Span {
                    start: old(cursor).lookahead()[0].span.start,
                    end: old(cursor).lookahead()[2].span.end,
                },
            },
        ) && final(cursor).lookahead() == old(cursor).lookahead().skip(3)),
    decreases depth,
{
    if depth == 0 {
        return Err(Error::early(cursor.scan_position(), "nesting exceeds the supported depth"));
    }
    let ghost toks = old(cursor).lookahead();
    let ghost pg_super = toks.len() >= 3 && toks[0].kind == TokenKind::Keyword(Keyword::Super)
        && toks[1].kind == TokenKind::Punctuator(Punctuator::Dot) && (toks[2].kind
        is IdentifierName);
    let depth = depth - 1;
    let tok = match cursor.peek(0, interner) {
        Ok(Some(t)) => t,
        Ok(None) => {
            return Err(Error::abrupt_end(cursor.scan_position(), "expression"));
        },
        Err(e) => {
            return Err(e);
        },
    };
    match tok.kind {
        TokenKind::IdentifierName(s) => {
            cursor.advance();
            Ok(Expression::Identifier(Identifier::new(s, tok.span)))
        },
        TokenKind::NumericLiteral(v) => {
            cursor.advance();
            Ok(Expression::Literal(Literal::new(LiteralKind::Int(v), tok.span)))
        },
        TokenKind::StringLiteral(s) => {
            cursor.advance();
            Ok(Expression::Literal(Literal::new(LiteralKind::String(s), tok.span)))
        },
        TokenKind::BooleanLiteral(b) => {
            cursor.advance();
            Ok(Expression::Literal(Literal::new(LiteralKind::Bool(b), tok.span)))
        },
        TokenKind::NullLiteral => {
            cursor.advance();
            Ok(Expression::Literal(Literal::new(LiteralKind::Null, tok.span)))
        },
        TokenKind::RegularExpressionLiteral(pattern, flags) => {
            cursor.advance();
            Ok(Expression::RegExpLiteral(RegExpLiteral { pattern, flags, span: tok.span }))
        },
        TokenKind::Keyword(Keyword::Function) => {
            let next = match cursor.peek(1, interner) {
                Ok(Some(t)) => Some(t),
                Ok(None) => None,
                Err(e) => {
                    return Err(e);
                },
            };
            let is_generator = match next {
                Some(t1) => t1.kind == TokenKind::Punctuator(Punctuator::Mul),
                None => false,
            };
            if is_generator {
                let gparser = GeneratorExpression::new();
                let node = match gparser.parse(cursor, interner, depth) {
                    Ok(n) => n,
                    Err(e) => {
                        return Err(e);
                    },
                };
                Ok(Expression::GeneratorExpression(node))
            } else {
                Err(Error::unexpected(tok.span.start, "function expression"))
            }
        },
        TokenKind::Keyword(Keyword::Super) => {
            cursor.advance();
            proof {
                if pg_super {
                    assert(cursor.lookahead() == toks.skip(1));
                    assert(cursor.lookahead()[0] == toks[1]);
                }
            }
            match cursor.expect_punct(Punctuator::Dot, "super property access", interner) {
                Ok(_) => {},
                Err(e) => {
                    proof {
                        if pg_super {
                            assert(false);
                        }
                    }
                    return Err(e);
                },
            }
            proof {
                if pg_super {
                    assert(toks.skip(1).skip(1) =~= toks.skip(2));
                    assert(cursor.lookahead() == toks.skip(2));
                    assert(cursor.lookahead()[0] == toks[2]);
                }
            }
            let name_tok = match cursor.peek(0, interner) {
                Ok(Some(t)) => t,
                Ok(None) => {
                    proof {
                        if pg_super {
                            assert(cursor.lookahead().len() > 0);
                            assert(false);
                        }
                    }
                    return Err(Error::abrupt_end(
                        cursor.scan_position(),
                        "super property access",
                    ));
                },
                Err(e) => {
                    proof {
                        if pg_super {
                            assert(false);
                        }
                    }
                    return Err(e);
                },
            };
            let field = match name_tok.kind {
                TokenKind::IdentifierName(s) => Identifier::new(s, name_tok.span),
                TokenKind::Keyword(k) => Identifier::new(keyword_sym(k), name_tok.span),
                _ => {
                    proof {
                        if pg_super {
                            assert(false);
                        }
                    }
                    return Err(Error::unexpected(name_tok.span.start, "super property access"));
                },
            };
            cursor.advance();
            proof {
                if pg_super {
                    assert(toks.skip(2).skip(1) =~= toks.skip(3));
                    assert(cursor.lookahead() == toks.skip(3));
                }
            }
            Ok(
                Expression::SuperPropertyAccess(
                    SuperPropertyAccess {
                        field,
                        span: Span::new(tok.span.start, name_tok.span.end),
                    },
                ),
            )
        },
        TokenKind::Keyword(Keyword::Yield) => {
            // reachable only when the context reads `yield` as a name
            if cursor.strict() {
                Err(Error::early(tok.span.start, "'yield' is reserved in strict mode"))
            } else {
                cursor.advance();
                Ok(
                    Expression::Identifier(
                        Identifier::new(keyword_sym(Keyword::Yield), tok.span),
                    ),
                )
            }
        },
        TokenKind::Keyword(Keyword::Await) => {
            cursor.advance();
            Ok(Expression::Identifier(Identifier::new(keyword_sym(Keyword::Await), tok.span)))
        },
        TokenKind::Keyword(Keyword::Async) => {
            cursor.advance();
            Ok(Expression::Identifier(Identifier::new(keyword_sym(Keyword::Async), tok.span)))
        },
        TokenKind::Keyword(Keyword::Of) => {
            cursor.advance();
            Ok(Expression::Identifier(Identifier::new(keyword_sym(Keyword::Of), tok.span)))
        },
        TokenKind::Keyword(Keyword::Let) => {
            if cursor.strict() {
                Err(Error::early(tok.span.start, "'let' is reserved in strict mode"))
            } else {
                cursor.advance();
                Ok(Expression::Identifier(Identifier::new(keyword_sym(Keyword::Let), tok.span)))
            }
        },
        TokenKind::TemplateNoSubstitution(s) => {
            cursor.advance();
            let mut elements: Vec<crate::template::TemplateElement> = Vec::new();
            elements.push(crate::template::TemplateElement::String(s));
            Ok(Expression::TemplateLiteral(crate::template::TemplateLiteral::new(
                elements,
                tok.span,
            )))
        },
        TokenKind::TemplateHead(s) => {
            cursor.advance();
            let mut elements: Vec<crate::template::TemplateElement> = Vec::new();
            elements.push(crate::template::TemplateElement::String(s));
            let end = match parse_template_parts(ctx, &mut elements, cursor, interner, depth) {
                Ok(end) => end,
                Err(e) => {
                    return Err(e);
                },
            };
            Ok(Expression::TemplateLiteral(crate::template::TemplateLiteral::new(
                elements,
                Span::new(tok.span.start, end),
            )))
        },
        TokenKind::Punctuator(Punctuator::OpenParen) => {
            cursor.advance();
            let inner_ctx = GrammarContext {
                allow_in: true,
                allow_yield: ctx.allow_yield,
                allow_await: ctx.allow_await,
            };
            let inner = match parse_expression(inner_ctx, cursor, interner, depth) {
                Ok(e) => e,
                Err(e) => {
                    return Err(e);
                },
            };
            let close = match cursor.expect_punct(
                Punctuator::CloseParen,
                "parenthesized expression",
                interner,
            ) {
                Ok(t) => t,
                Err(e) => {
                    return Err(e);
                },
            };
            Ok(
                Expression::Parenthesized(
                    Parenthesized::new(inner, Span::new(tok.span.start, close.span.end)),
                ),
            )
        },
        TokenKind::Punctuator(Punctuator::OpenBracket) => {
            match parse_array_literal(ctx, cursor, interner, depth) {
                Ok(a) => Ok(Expression::ArrayLiteral(a)),
                Err(e) => Err(e),
            }
        },
        TokenKind::Punctuator(Punctuator::OpenBlock) => {
            match parse_object_literal(ctx, cursor, interner, depth) {
                Ok(o) => Ok(Expression::ObjectLiteral(o)),
                Err(e) => Err(e),
            }
        },
        _ => Err(Error::unexpected(tok.span.start, "expression")),
    }
}

/// Parses the substitutions and remaining chunks of a template literal,
/// the head chunk already consumed. Returns the end position of the
/// closing backtick.
fn parse_template_parts(
    ctx: GrammarContext,
    elements: &mut Vec<crate::template::TemplateElement>,
    cursor: &mut Cursor,
    interner: &mut Interner,
    depth: u64,
) -> (r: Result<Position, Error>)
    requires
        old(cursor).wf(),
        old(interner).wf(),
    ensures
        parse_step(*old(cursor), *final(cursor), *old(interner), *final(interner)),
        final(cursor).strict_mode() == old(cursor).strict_mode(),
        r matches Ok(end) ==> final(cursor).remaining() < old(cursor).remaining(),
    decreases depth,
{
    if depth == 0 {
        return Err(Error::early(cursor.scan_position(), "nesting exceeds the supported depth"));
    }
    let depth = depth - 1;
    let inner_ctx = GrammarContext {
        allow_in: true,
        allow_yield: ctx.allow_yield,
        allow_await: ctx.allow_await,
    };
    let expr = match parse_expression(inner_ctx, cursor, interner, depth) {
        Ok(e) => e,
        Err(e) => {
            return Err(e);
        },
    };
    elements.push(crate::template::TemplateElement::Expr(expr));
    let close = match cursor.peek(0, interner) {
        Ok(Some(t)) => t,
        Ok(None) => {
            return Err(Error::abrupt_end(cursor.scan_position(), "template literal"));
        },
        Err(e) => {
            return Err(e);
        },
    };
    if close.kind != TokenKind::Punctuator(Punctuator::CloseBlock) {
        return Err(Error::unexpected(close.span.start, "template literal"));
    }
    let chunk = match cursor.continue_template(interner) {
        Ok(t) => t,
        Err(e) => {
            return Err(e);
        },
    };
    match chunk.kind {
        TokenKind::TemplateMiddle(s) => {
            elements.push(crate::template::TemplateElement::String(s));
            parse_template_parts(ctx, elements, cursor, interner, depth)
        },
        TokenKind::TemplateTail(s) => {
            elements.push(crate::template::TemplateElement::String(s));
            Ok(chunk.span.end)
        },
        _ => Err(Error::unexpected(chunk.span.start, "template literal")),
    }
}

/// Parses an array literal, elisions included.
#[verifier::loop_isolation(false)]
fn parse_array_literal(
    ctx: GrammarContext,
    cursor: &mut Cursor,
    interner: &mut Interner,
    depth: u64,
) -> (r: Result<ArrayLiteral, Error>)
    requires
        old(cursor).wf(),
        old(interner).wf(),
    ensures
        parse_step(*old(cursor), *final(cursor), *old(interner), *final(interner)),
        final(cursor).strict_mode() == old(cursor).strict_mode(),
        r matches Ok(a) ==> final(cursor).remaining() < old(cursor).remaining(),
    decreases depth,
{
    if depth == 0 {
        return Err(Error::early(cursor.scan_position(), "nesting exceeds the supported depth"));
    }
    let depth = depth - 1;
    let open = match cursor.expect_punct(Punctuator::OpenBracket, "array literal", interner) {
        Ok(t) => t,
        Err(e) => {
            return Err(e);
        },
    };
    let mut elements: Vec<Option<Expression>> = Vec::new();
    loop
        invariant
            cursor.wf(),
            interner.wf(),
            parse_step(*old(cursor), *cursor, *old(interner), *interner),
            cursor.strict_mode() == old(cursor).strict_mode(),
            cursor.remaining() < old(cursor).remaining(),
        decreases cursor.remaining(),
    {
        let tok = match cursor.peek(0, interner) {
            Ok(Some(t)) => t,
            Ok(None) => {
                return Err(Error::abrupt_end(cursor.scan_position(), "array literal"));
            },
            Err(e) => {
                return Err(e);
            },
        };
        if tok.kind == TokenKind::Punctuator(Punctuator::CloseBracket) {
            cursor.advance();
            return Ok(
                ArrayLiteral::new(elements, false, Span::new(open.span.start, tok.span.end)),
            );
        }
        if tok.kind == TokenKind::Punctuator(Punctuator::Comma) {
            cursor.advance();
            elements.push(None);
            continue;
        }
        let e = match parse_assignment_expression(ctx, cursor, interner, depth) {
            Ok(e) => e,
            Err(e) => {
                return Err(e);
            },
        };
        elements.push(Some(e));
        let sep = match cursor.peek(0, interner) {
            Ok(Some(t)) => t,
            Ok(None) => {
                return Err(Error::abrupt_end(cursor.scan_position(), "array literal"));
            },
            Err(e) => {
                return Err(e);
            },
        };
        if sep.kind == TokenKind::Punctuator(Punctuator::Comma) {
            cursor.advance();
        } else if sep.kind == TokenKind::Punctuator(Punctuator::CloseBracket) {
            cursor.advance();
            return Ok(
                ArrayLiteral::new(elements, false, Span::new(open.span.start, sep.span.end)),
            );
        } else {
            return Err(Error::unexpected(sep.span.start, "array literal"));
        }
    }
}

// ---------------------------------------------------------------------------

/// Parses a property name. Identifier names, reserved words and string
/// literals are accepted; each yields an interned name with its span.
pub fn parse_property_name(cursor: &mut Cursor, interner: &mut Interner) -> (r: Result<
    Identifier,
    Error,
>)
    requires
        old(cursor).wf(),
        old(interner).wf(),
    ensures
        parse_step(*old(cursor), *final(cursor), *old(interner), *final(interner)),
        final(cursor).strict_mode() == old(cursor).strict_mode(),
        r matches Ok(id) ==> final(cursor).remaining() < old(cursor).remaining(),
        (old(cursor).lookahead().len() > 0 && (old(cursor).lookahead()[0].kind
            is IdentifierName)) ==> (r matches Ok(id) && id.sym == ident_sym(
            old(cursor).lookahead()[0].kind,
        ) && id.span == old(cursor).lookahead()[0].span && final(cursor).lookahead()
            == old(cursor).lookahead().skip(1)),
        (old(cursor).lookahead().len() > 0 && !((old(cursor).lookahead()[0].kind
            is IdentifierName) || (old(cursor).lookahead()[0].kind is Keyword) || (old(
            cursor,
        ).lookahead()[0].kind is StringLiteral))) ==> (r is Err),
{
    let tok = match cursor.peek(0, interner) {
        Ok(Some(t)) => t,
        Ok(None) => {
            return Err(Error::abrupt_end(cursor.scan_position(), "property name"));
        },
        Err(e) => {
            return Err(e);
        },
    };
    match tok.kind {
        TokenKind::IdentifierName(s) => {
            cursor.advance();
            Ok(Identifier::new(s, tok.span))
        },
        TokenKind::Keyword(k) => {
            cursor.advance();
            Ok(Identifier::new(keyword_sym(k), tok.span))
        },
        TokenKind::StringLiteral(s) => {
            cursor.advance();
            Ok(Identifier::new(s, tok.span))
        },
        _ => Err(Error::unexpected(tok.span.start, "property name")),
    }
}

/// Whether a token can begin a property name.
fn starts_property_name(k: TokenKind) -> (r: bool) {
    match k {
        TokenKind::IdentifierName(_) => true,
        TokenKind::Keyword(_) => true,
        TokenKind::StringLiteral(_) => true,
        _ => false,
    }
}

/// Parses an object literal: `{` property definitions `}`.
#[verifier::loop_isolation(false)]
pub fn parse_object_literal(
    ctx: GrammarContext,
    cursor: &mut Cursor,
    interner: &mut Interner,
    depth: u64,
) -> (r: Result<ObjectLiteral, Error>)
    requires
        old(cursor).wf(),
        old(interner).wf(),
    ensures
        parse_step(*old(cursor), *final(cursor), *old(interner), *final(interner)),
        final(cursor).strict_mode() == old(cursor).strict_mode(),
        r matches Ok(o) ==> final(cursor).remaining() < old(cursor).remaining(),
        (old(cursor).lookahead().len() > 0 && old(cursor).lookahead()[0].kind
            != TokenKind::Punctuator(Punctuator::OpenBlock)) ==> (r is Err),
        (depth >= 2 && old(cursor).lookahead().len() >= 2 && old(cursor).lookahead()[0].kind
            == TokenKind::Punctuator(Punctuator::OpenBlock) && old(cursor).lookahead()[1].kind
            == TokenKind::Punctuator(Punctuator::CloseBlock)) ==> (r matches Ok(o)
            && o.properties@.len() == 0 && o.span == (Span {
            start: old(cursor).lookahead()[0].span.start,
            end: old(cursor).lookahead()[1].span.end,
        }) && final(cursor).lookahead() == old(cursor).lookahead().skip(2)),
    decreases depth,
{
    if depth == 0 {
        return Err(Error::early(cursor.scan_position(), "nesting exceeds the supported depth"));
    }
    let ghost toks = old(cursor).lookahead();
    let ghost empty_obj = depth >= 2 && toks.len() >= 2 && toks[0].kind == TokenKind::Punctuator(
        Punctuator::OpenBlock,
    ) && toks[1].kind == TokenKind::Punctuator(Punctuator::CloseBlock);
    let depth = depth - 1;
    let open = match cursor.expect_punct(Punctuator::OpenBlock, "object literal", interner) {
        Ok(t) => t,
        Err(e) => {
            return Err(e);
        },
    };
    let mut properties: Vec<PropertyDefinition> = Vec::new();
    loop
        invariant
            cursor.wf(),
            interner.wf(),
            parse_step(*old(cursor), *cursor, *old(interner), *interner),
            cursor.strict_mode() == old(cursor).strict_mode(),
            cursor.remaining() < old(cursor).remaining(),
            empty_obj ==> (properties@.len() == 0 && cursor.lookahead() == toks.skip(1) && open
                == toks[0]),
        decreases cursor.remaining(),
    {
        let tok = match cursor.peek(0, interner) {
            Ok(Some(t)) => t,
            Ok(None) => {
                return Err(Error::abrupt_end(cursor.scan_position(), "object literal"));
            },
            Err(e) => {
                return Err(e);
            },
        };
        if tok.kind == TokenKind::Punctuator(Punctuator::CloseBlock) {
            cursor.advance();
            return Ok(
                ObjectLiteral::new(properties, Span::new(open.span.start, tok.span.end)),
            );
        }
        let pd = match parse_property_definition(ctx, cursor, interner, depth) {
            Ok(pd) => pd,
            Err(e) => {
                return Err(e);
            },
        };
        properties.push(pd);
        let sep = match cursor.peek(0, interner) {
            Ok(Some(t)) => t,
            Ok(None) => {
                return Err(Error::abrupt_end(cursor.scan_position(), "object literal"));
            },
            Err(e) => {
                return Err(e);
            },
        };
        if sep.kind == TokenKind::Punctuator(Punctuator::Comma) {
            cursor.advance();
        } else if sep.kind == TokenKind::Punctuator(Punctuator::CloseBlock) {
            cursor.advance();
            return Ok(
                ObjectLiteral::new(properties, Span::new(open.span.start, sep.span.end)),
            );
        } else {
            return Err(Error::unexpected(sep.span.start, "object literal"));
        }
    }
}

/// Parses one property definition.
fn parse_property_definition(
    ctx: GrammarContext,
    cursor: &mut Cursor,
    interner: &mut Interner,
    depth: u64,
) -> (r: Result<PropertyDefinition, Error>)
    requires
        old(cursor).wf(),
        old(interner).wf(),
    ensures
        parse_step(*old(cursor), *final(cursor), *old(interner), *final(interner)),
        final(cursor).strict_mode() == old(cursor).strict_mode(),
        r matches Ok(pd) ==> final(cursor).remaining() < old(cursor).remaining(),
    decreases depth,
{
    if depth == 0 {
        return Err(Error::early(cursor.scan_position(), "nesting exceeds the supported depth"));
    }
    let depth = depth - 1;
    let tok = match cursor.peek(0, interner) {
        Ok(Some(t)) => t,
        Ok(None) => {
            return Err(Error::abrupt_end(cursor.scan_position(), "property definition"));
        },
        Err(e) => {
            return Err(e);
        },
    };
    // spread property
    if tok.kind == TokenKind::Punctuator(Punctuator::Spread) {
        cursor.advance();
        let e = match parse_assignment_expression(ctx, cursor, interner, depth) {
            Ok(e) => e,
            Err(e) => {
                return Err(e);
            },
        };
        return Ok(PropertyDefinition::SpreadObject(e));
    }
    // generator method
    if tok.kind == TokenKind::Punctuator(Punctuator::Mul) {
        cursor.advance();
        let name = match parse_property_name(cursor, interner) {
            Ok(n) => n,
            Err(e) => {
                return Err(e);
            },
        };
        let md = match parse_method(MethodDefinitionKind::Generator, name, cursor, interner, depth)
            {
            Ok(md) => md,
            Err(e) => {
                return Err(e);
            },
        };
        return Ok(PropertyDefinition::MethodDefinition(md));
    }
    // `async` method forms: only when no line terminator follows `async`
    if tok.kind == TokenKind::Keyword(Keyword::Async) {
        let next = match cursor.peek(1, interner) {
            Ok(Some(t)) => Some(t),
            Ok(None) => None,
            Err(e) => {
                return Err(e);
            },
        };
        match next {
            Some(t1) if !t1.lt_before => {
                if t1.kind == TokenKind::Punctuator(Punctuator::Mul) {
                    cursor.advance();
                    cursor.advance();
                    let name = match parse_property_name(cursor, interner) {
                        Ok(n) => n,
                        Err(e) => {
                            return Err(e);
                        },
                    };
                    let md = match parse_method(
                        MethodDefinitionKind::AsyncGenerator,
                        name,
                        cursor,
                        interner,
                        depth,
                    ) {
                        Ok(md) => md,
                        Err(e) => {
                            return Err(e);
                        },
                    };
                    return Ok(PropertyDefinition::MethodDefinition(md));
                }
                if starts_property_name(t1.kind) {
                    cursor.advance();
                    let name = match parse_property_name(cursor, interner) {
                        Ok(n) => n,
                        Err(e) => {
                            return Err(e);
                        },
                    };
                    let md = match parse_method(
                        MethodDefinitionKind::Async,
                        name,
                        cursor,
                        interner,
                        depth,
                    ) {
                        Ok(md) => md,
                        Err(e) => {
                            return Err(e);
                        },
                    };
                    return Ok(PropertyDefinition::MethodDefinition(md));
                }
            },
            _ => {},
        }
    }
    // `get`/`set` accessor forms: only when a property name follows
    let accessor: Option<MethodDefinitionKind> = match tok.kind {
        TokenKind::IdentifierName(s) => {
            if s.id == SYM_GET {
                Some(MethodDefinitionKind::Getter)
            } else if s.id == SYM_SET {
                Some(MethodDefinitionKind::Setter)
            } else {
                None
            }
        },
        _ => None,
    };
    match accessor {
        Some(kind) => {
            let next = match cursor.peek(1, interner) {
                Ok(Some(t)) => Some(t),
                Ok(None) => None,
                Err(e) => {
                    return Err(e);
                },
            };
            match next {
                Some(t1) if starts_property_name(t1.kind) => {
                    cursor.advance();
                    let name = match parse_property_name(cursor, interner) {
                        Ok(n) => n,
                        Err(e) => {
                            return Err(e);
                        },
                    };
                    let md = match parse_method(kind, name, cursor, interner, depth) {
                        Ok(md) => md,
                        Err(e) => {
                            return Err(e);
                        },
                    };
                    return Ok(PropertyDefinition::MethodDefinition(md));
                },
                _ => {},
            }
        },
        None => {},
    }
    // a plain property name, then the form is decided by what follows
    let name = match parse_property_name(cursor, interner) {
        Ok(n) => n,
        Err(e) => {
            return Err(e);
        },
    };
    let follow = match cursor.peek(0, interner) {
        Ok(Some(t)) => t,
        Ok(None) => {
            return Err(Error::abrupt_end(cursor.scan_position(), "property definition"));
        },
        Err(e) => {
            return Err(e);
        },
    };
    if follow.kind == TokenKind::Punctuator(Punctuator::OpenParen) {
        let md = match parse_method(MethodDefinitionKind::Ordinary, name, cursor, interner, depth)
            {
            Ok(md) => md,
            Err(e) => {
                return Err(e);
            },
        };
        Ok(PropertyDefinition::MethodDefinition(md))
    } else if follow.kind == TokenKind::Punctuator(Punctuator::Colon) {
        cursor.advance();
        let value = match parse_assignment_expression(ctx, cursor, interner, depth) {
            Ok(e) => e,
            Err(e) => {
                return Err(e);
            },
        };
        Ok(PropertyDefinition::Property(name, value))
    } else if follow.kind == TokenKind::Punctuator(Punctuator::Assign) {
        cursor.advance();
        let value = match parse_assignment_expression(ctx, cursor, interner, depth) {
            Ok(e) => e,
            Err(e) => {
                return Err(e);
            },
        };
        Ok(PropertyDefinition::CoverInitializedName(name, value))
    } else {
        Ok(PropertyDefinition::IdentifierReference(name))
    }
}

/// Parses a method definition after its name: parameter list, body, and
/// the early-error rules of the method form.
fn parse_method(
    kind: MethodDefinitionKind,
    name: Identifier,
    cursor: &mut Cursor,
    interner: &mut Interner,
    depth: u64,
) -> (r: Result<ObjectMethodDefinition, Error>)
    requires
        old(cursor).wf(),
        old(interner).wf(),
    ensures
        parse_step(*old(cursor), *final(cursor), *old(interner), *final(interner)),
        final(cursor).strict_mode() == old(cursor).strict_mode(),
        r matches Ok(md) ==> final(cursor).remaining() < old(cursor).remaining(),
        r matches Ok(md) ==> md.parameters.flags_ok() && !md.parameters.has_duplicates_spec(),
        r matches Ok(md) ==> (md.body.statements.strict ==> md.parameters.is_simple_spec()),
        r matches Ok(md) ==> ((md.kind == MethodDefinitionKind::Generator || md.kind
            == MethodDefinitionKind::AsyncGenerator) ==> !ops::params_list_contains(
            md.parameters,
            ops::ContainsSymbol::YieldExpression,
        )),
        r matches Ok(md) ==> !ops::sym_seqs_intersect(
            md.parameters.bound_names_spec(),
            ops::items_lex_names(
                md.body.statements.statements,
                md.body.statements.statements@.len() as int,
            ),
        ),
    decreases depth,
{
    if depth == 0 {
        return Err(Error::early(cursor.scan_position(), "nesting exceeds the supported depth"));
    }
    let depth = depth - 1;
    let (allow_yield, allow_await): (bool, bool) = match kind {
        MethodDefinitionKind::Ordinary => (false, false),
        MethodDefinitionKind::Getter => (false, false),
        MethodDefinitionKind::Setter => (false, false),
        MethodDefinitionKind::Async => (false, true),
        MethodDefinitionKind::Generator => (true, false),
        MethodDefinitionKind::AsyncGenerator => (true, true),
    };
    let params_start = cursor.scan_position();
    let params = match UniqueFormalParameters::new(allow_yield, allow_await)
        .parse(cursor, interner, depth) {
        Ok(p) => p,
        Err(e) => {
            return Err(e);
        },
    };
    match kind {
        MethodDefinitionKind::Getter => {
            if params.length() != 0 || params.parameters.len() != 0 {
                return Err(Error::early(params_start, "get method definition takes no parameters"));
            }
        },
        MethodDefinitionKind::Setter => {
            if params.parameters.len() != 1 {
                return Err(Error::early(
                    params_start,
                    "set method definition takes exactly one parameter",
                ));
            }
            let only = &params.parameters[0];
            if only.is_rest_param() {
                return Err(Error::early(
                    params_start,
                    "set method definition cannot take a rest parameter",
                ));
            }
        },
        _ => {},
    }
    let body = match FunctionStatementList::new(allow_yield, allow_await, "method definition")
        .parse(cursor, interner, depth) {
        Ok(b) => b,
        Err(e) => {
            return Err(e);
        },
    };
    // a body that declares "use strict" must have a simple parameter list
    if body.strict() && !params.is_simple() {
        return Err(Error::early(
            params_start,
            "illegal 'use strict' directive in function with non-simple parameter list",
        ));
    }
    // a generator method's own parameter list can never embed a
    // yield-expression
    if kind == MethodDefinitionKind::Generator || kind == MethodDefinitionKind::AsyncGenerator {
        if ops::parameter_list_contains(&params, ops::ContainsSymbol::YieldExpression) {
            return Err(Error::early(
                params_start,
                "generator method cannot contain yield expression in parameters",
            ));
        }
    }
    // an async method's own parameter list can never embed an
    // await-expression
    if kind == MethodDefinitionKind::Async || kind == MethodDefinitionKind::AsyncGenerator {
        if ops::parameter_list_contains(&params, ops::ContainsSymbol::AwaitExpression) {
            return Err(Error::early(
                params_start,
                "async method cannot contain await expression in parameters",
            ));
        }
    }
    // no parameter name may also be lexically declared in the body
    let bound = ops::bound_names(&params);
    let lex = ops::lexically_declared_names(&body);
    match name_in_lexically_declared_names(&bound, &lex, params_start) {
        Ok(()) => {},
        Err(e) => {
            return Err(e);
        },
    }
    Ok(ObjectMethodDefinition::new(name, params, body, kind))
}

// ---------------------------------------------------------------------------

/// The parameter node a plain identifier token parses to.
pub open spec fn ident_param(toks: Seq<Token>, j: int) -> FormalParameterNode {
    FormalParameterNode {
        variable: Variable {
            binding: crate::ast::Binding::Identifier(
                Identifier { sym: ident_sym(toks[2 * j].kind), span: toks[2 * j].span },
            ),
            init: None,
        },
        is_rest_param: false,
    }
}

/// The names bound by a run of plain identifier parameters are the
/// token names, in order.
proof fn lemma_ident_params_bound_names(v: Vec<FormalParameterNode>, toks: Seq<Token>, n: int)
    requires
        0 <= n <= v@.len(),
        forall|j: int| 0 <= j < n ==> (#[trigger] v[j]) == ident_param(toks, j),
    ensures
        ops::params_bound_names(v, n) == ident_seq(toks, n),
    decreases n,
{
    if n > 0 {
        lemma_ident_params_bound_names(v, toks, n - 1);
        assert(v[n - 1] == ident_param(toks, n - 1));
        assert(ops::param_bound_names(v[n - 1]) =~= seq![ident_sym(toks[2 * (n - 1)].kind)]);
        assert(ops::params_bound_names(v, n) =~= ident_seq(toks, n));
    } else {
        assert(ops::params_bound_names(v, 0) =~= ident_seq(toks, 0));
    }
}

/// Parses a formal parameter list, the parentheses excluded.
#[derive(Debug, Clone, Copy)]
pub struct FormalParameters {
    pub allow_yield: bool,
    pub allow_await: bool,
}

impl FormalParameters {
    /// Creates a new formal-parameters parser.
    pub fn new(allow_yield: bool, allow_await: bool) -> (r: FormalParameters)
        ensures
            r.allow_yield == allow_yield,
            r.allow_await == allow_await,
    {
        FormalParameters { allow_yield, allow_await }
    }

    /// Parses the list. On success the derived flags agree with the
    /// parameters, a rest parameter only stands last and never carries a
    /// default, and a non-simple list has no duplicate names. Success is
    /// owed wherever the buffered lookahead is a simple identifier list:
    /// the result then holds exactly those names, in order, duplicates
    /// included.
    pub fn parse(self, cursor: &mut Cursor, interner: &mut Interner, depth: u64) -> (r: Result<
        FormalParameterList,
        Error,
    >)
        requires
            old(cursor).wf(),
            old(interner).wf(),
        ensures
            parse_step(*old(cursor), *final(cursor), *old(interner), *final(interner)),
            final(cursor).strict_mode() == old(cursor).strict_mode(),
            r matches Ok(l) ==> l.flags_ok(),
            r matches Ok(l) ==> !(!l.is_simple_spec() && l.has_duplicates_spec()),
            r matches Ok(l) ==> (forall|i: int|
                0 <= i < l.parameters@.len() - 1 ==> !(#[trigger] l.parameters[i]).is_rest_param),
            r matches Ok(l) ==> (forall|i: int|
                0 <= i < l.parameters@.len() && (#[trigger] l.parameters[i]).is_rest_param
                    ==> l.parameters[i].variable.init is None),
            (depth > 0 && old(cursor).lookahead().len() > 0 && old(cursor).lookahead()[0].kind
                == TokenKind::Punctuator(Punctuator::CloseParen)) ==> (r matches Ok(l)
                && l.parameters@.len() == 0 && final(cursor).lookahead()
                == old(cursor).lookahead() && final(cursor).remaining()
                == old(cursor).remaining()),
            (depth > 0 && old(cursor).lookahead().len() == 0 && old(cursor).lex_pos() == old(
                cursor,
            ).src_view().len()) ==> (r matches Ok(l) && l.parameters@.len() == 0),
            forall|k: int|
                (depth >= 3 && #[trigger] simple_ident_list(
                    old(cursor).lookahead(),
                    k,
                    old(cursor).strict_mode(),
                )) ==> (r matches Ok(l) && l.parameters@.len() == k && l.is_simple_spec()
                    && l.bound_names_spec() == ident_seq(old(cursor).lookahead(), k)
                    && final(cursor).lookahead() == old(cursor).lookahead().skip(2 * k - 1)),
            (depth >= 3 && old(cursor).lookahead().len() >= 3 && old(cursor).lookahead()[0].kind
                == TokenKind::Punctuator(Punctuator::Spread) && (old(
                cursor,
            ).lookahead()[1].kind is IdentifierName) && !strict_reserved(
                ident_sym(old(cursor).lookahead()[1].kind),
                old(cursor).strict_mode(),
            ) && old(cursor).lookahead()[2].kind != TokenKind::Punctuator(Punctuator::Assign)
                && old(cursor).lookahead()[2].kind != TokenKind::Punctuator(
                Punctuator::CloseParen,
            )) ==> (r matches Err(e) && e.kind == crate::error::ErrorKind::UnexpectedToken),
            (depth >= 3 && !old(cursor).strict_mode() && old(cursor).lookahead().len() >= 8
                && old(cursor).lookahead()[0].kind == TokenKind::Punctuator(Punctuator::OpenBlock)
                && (old(cursor).lookahead()[1].kind is IdentifierName) && old(
                cursor,
            ).lookahead()[2].kind == TokenKind::Punctuator(Punctuator::CloseBlock) && old(
                cursor,
            ).lookahead()[3].kind == TokenKind::Punctuator(Punctuator::Comma) && old(
                cursor,
            ).lookahead()[4].kind == TokenKind::Punctuator(Punctuator::OpenBlock) && (old(
                cursor,
            ).lookahead()[5].kind is IdentifierName) && old(cursor).lookahead()[6].kind
                == TokenKind::Punctuator(Punctuator::CloseBlock) && old(cursor).lookahead()[7].kind
                == TokenKind::Punctuator(Punctuator::CloseParen) && ident_sym(
                old(cursor).lookahead()[1].kind,
            ) == ident_sym(old(cursor).lookahead()[5].kind)) ==> (r matches Err(e) && e.kind
                == crate::error::ErrorKind::EarlyError),
            (depth >= 6 && self.allow_yield && old(cursor).lookahead().len() >= 4 && (old(
                cursor,
            ).lookahead()[0].kind is IdentifierName) && !strict_reserved(
                ident_sym(old(cursor).lookahead()[0].kind),
                old(cursor).strict_mode(),
            ) && old(cursor).lookahead()[1].kind == TokenKind::Punctuator(Punctuator::Assign)
                && old(cursor).lookahead()[2].kind == TokenKind::Keyword(Keyword::Yield) && old(
                cursor,
            ).lookahead()[3].kind == TokenKind::Punctuator(Punctuator::CloseParen)) ==> (r
                matches Ok(l) && l.parameters@.len() == 1 && l.parameters@[0]
                == (FormalParameterNode {
                variable: Variable {
                    binding: crate::ast::Binding::Identifier(Identifier {
                        sym: ident_sym(old(cursor).lookahead()[0].kind),
                        span: old(cursor).lookahead()[0].span,
                    }),
                    init: Some(Expression::Yield(YieldExpr {
                        argument: None,
                        delegate: false,
                        span: old(cursor).lookahead()[2].span,
                    })),
                },
                is_rest_param: false,
            }) && final(cursor).lookahead() == old(cursor).lookahead().skip(3)),
        decreases depth,
    {
        if depth == 0 {
            return Err(Error::early(
                cursor.scan_position(),
                "nesting exceeds the supported depth",
            ));
        }
        let ghost depth0 = depth;
        let d = depth - 1;
        let ghost toks = old(cursor).lookahead();
        let ghost strict0 = old(cursor).strict_mode();
        let ghost guided = depth0 >= 3 && (exists|k: int| simple_ident_list(toks, k, strict0));
        let ghost rest_guided = depth0 >= 3 && toks.len() >= 3 && toks[0].kind
            == TokenKind::Punctuator(Punctuator::Spread) && (toks[1].kind is IdentifierName)
            && !strict_reserved(ident_sym(toks[1].kind), strict0) && toks[2].kind
            != TokenKind::Punctuator(Punctuator::Assign) && toks[2].kind
            != TokenKind::Punctuator(Punctuator::CloseParen);
        let ghost dup_g = depth0 >= 3 && !strict0 && toks.len() >= 8 && toks[0].kind
            == TokenKind::Punctuator(Punctuator::OpenBlock) && (toks[1].kind is IdentifierName)
            && toks[2].kind == TokenKind::Punctuator(Punctuator::CloseBlock) && toks[3].kind
            == TokenKind::Punctuator(Punctuator::Comma) && toks[4].kind == TokenKind::Punctuator(
            Punctuator::OpenBlock,
        ) && (toks[5].kind is IdentifierName) && toks[6].kind == TokenKind::Punctuator(
            Punctuator::CloseBlock,
        ) && toks[7].kind == TokenKind::Punctuator(Punctuator::CloseParen) && ident_sym(
            toks[1].kind,
        ) == ident_sym(toks[5].kind);
        let ghost yg = depth0 >= 6 && self.allow_yield && toks.len() >= 4 && (toks[0].kind
            is IdentifierName) && !strict_reserved(ident_sym(toks[0].kind), strict0)
            && toks[1].kind == TokenKind::Punctuator(Punctuator::Assign) && toks[2].kind
            == TokenKind::Keyword(Keyword::Yield) && toks[3].kind == TokenKind::Punctuator(
            Punctuator::CloseParen,
        );
        let ghost gk: int = if exists|k: int| simple_ident_list(toks, k, strict0) {
            choose|k: int| simple_ident_list(toks, k, strict0)
        } else {
            0int
        };
        proof {
            if guided {
                assert(simple_ident_list(toks, gk, strict0));
                assert(toks[0].kind is IdentifierName);
            }
        }
        cursor.set_goal(InputElement::RegExp);
        let start = match cursor.peek(0, interner) {
            Ok(Some(t)) => {
                if t.kind == TokenKind::Punctuator(Punctuator::CloseParen) {
                    proof {
                        if guided {
                            assert(false);
                        }
                        if dup_g || yg {
                            assert(false);
                        }
                    }
                    return Ok(FormalParameterList::default());
                }
                t.span.start
            },
            Ok(None) => {
                proof {
                    if guided {
                        assert(false);
                    }
                    if dup_g || yg {
                        assert(false);
                    }
                }
                return Ok(FormalParameterList::default());
            },
            Err(e) => {
                proof {
                    if rest_guided || dup_g || yg {
                        assert(false);
                    }
                }
                return Err(e);
            },
        };
        let mut params: Vec<FormalParameterNode> = Vec::new();
        loop
            invariant_except_break
                guided ==> params@.len() < gk,
                guided ==> cursor.lookahead() == toks.skip(2 * (params@.len() as int)),
                rest_guided ==> (params@.len() == 0 && cursor.lookahead() == toks),
                dup_g ==> ((params@.len() == 0 && cursor.lookahead() == toks) || (params@.len()
                    == 1 && crate::parser::single_name_pattern_param(params@[0], toks[1])
                    && cursor.lookahead() == toks.skip(4))),
                yg ==> (params@.len() == 0 && cursor.lookahead() == toks),
            invariant
                cursor.wf(),
                interner.wf(),
                parse_step(*old(cursor), *cursor, *old(interner), *interner),
                cursor.strict_mode() == old(cursor).strict_mode(),
                forall|i: int| 0 <= i < params@.len() ==> !(#[trigger] params[i]).is_rest_param
                    || params[i].variable.init is None,
                forall|i: int| 0 <= i < params@.len() - 1 ==> !(#[trigger] params[i]).is_rest_param,
                params@.len() > 0 && params[params@.len() - 1].is_rest_param
                    ==> cursor.remaining() < old(cursor).remaining(),
                toks == old(cursor).lookahead(),
                strict0 == old(cursor).strict_mode(),
                depth0 == depth,
                (d as int) == (depth as int) - 1,
                toks.len() > 0 ==> toks[0].kind != TokenKind::Punctuator(Punctuator::CloseParen),
                !(toks.len() == 0 && old(cursor).lex_pos() == old(cursor).src_view().len()),
                guided == (depth0 >= 3 && (exists|k: int| simple_ident_list(toks, k, strict0))),
                rest_guided == (depth0 >= 3 && toks.len() >= 3 && toks[0].kind
                    == TokenKind::Punctuator(Punctuator::Spread) && (toks[1].kind
                    is IdentifierName) && !strict_reserved(ident_sym(toks[1].kind), strict0)
                    && toks[2].kind != TokenKind::Punctuator(Punctuator::Assign) && toks[2].kind
                    != TokenKind::Punctuator(Punctuator::CloseParen)),
                dup_g == (depth0 >= 3 && !strict0 && toks.len() >= 8 && toks[0].kind
                    == TokenKind::Punctuator(Punctuator::OpenBlock) && (toks[1].kind
                    is IdentifierName) && toks[2].kind == TokenKind::Punctuator(
                    Punctuator::CloseBlock,
                ) && toks[3].kind == TokenKind::Punctuator(Punctuator::Comma) && toks[4].kind
                    == TokenKind::Punctuator(Punctuator::OpenBlock) && (toks[5].kind
                    is IdentifierName) && toks[6].kind == TokenKind::Punctuator(
                    Punctuator::CloseBlock,
                ) && toks[7].kind == TokenKind::Punctuator(Punctuator::CloseParen) && ident_sym(
                    toks[1].kind,
                ) == ident_sym(toks[5].kind)),
                yg == (depth0 >= 6 && self.allow_yield && toks.len() >= 4 && (toks[0].kind
                    is IdentifierName) && !strict_reserved(ident_sym(toks[0].kind), strict0)
                    && toks[1].kind == TokenKind::Punctuator(Punctuator::Assign) && toks[2].kind
                    == TokenKind::Keyword(Keyword::Yield) && toks[3].kind
                    == TokenKind::Punctuator(Punctuator::CloseParen)),
                guided ==> simple_ident_list(toks, gk, strict0),
                guided ==> (forall|j: int|
                    0 <= j < params@.len() ==> (#[trigger] params[j]) == ident_param(toks, j)),
            ensures
                guided ==> params@.len() == gk,
                guided ==> cursor.lookahead() == toks.skip(2 * gk - 1),
                !rest_guided,
                dup_g ==> (params@.len() == 2 && crate::parser::single_name_pattern_param(
                    params@[0],
                    toks[1],
                ) && crate::parser::single_name_pattern_param(params@[1], toks[5])),
                yg ==> (params@.len() == 1 && params@[0] == (FormalParameterNode {
                    variable: Variable {
                        binding: crate::ast::Binding::Identifier(Identifier {
                            sym: ident_sym(toks[0].kind),
                            span: toks[0].span,
                        }),
                        init: Some(Expression::Yield(YieldExpr {
                            argument: None,
                            delegate: false,
                            span: toks[2].span,
                        })),
                    },
                    is_rest_param: false,
                }) && cursor.lookahead() == toks.skip(3)),
            decreases cursor.remaining(),
        {
            let ghost n = params@.len() as int;
            proof {
                if guided {
                    assert(toks[2 * n].kind is IdentifierName);
                    assert(!strict_reserved(ident_sym(toks[2 * n].kind), strict0));
                    if 2 * n + 1 < 2 * gk - 1 {
                        assert(toks[2 * n + 1].kind == TokenKind::Punctuator(Punctuator::Comma));
                    } else {
                        assert(2 * n + 1 == 2 * gk - 1);
                    }
                    assert(cursor.lookahead()[0] == toks[2 * n]);
                    assert(cursor.lookahead()[1] == toks[2 * n + 1]);
                    assert(plain_param_at(cursor.lookahead(), cursor.strict_mode()));
                }
            }
            let ghost dup_first = params@.len() == 0;
            proof {
                if dup_g {
                    if dup_first {
                        assert(cursor.lookahead()[0] == toks[0]);
                    } else {
                        assert(cursor.lookahead() == toks.skip(4));
                        assert(cursor.lookahead()[0] == toks[4]);
                        assert(cursor.lookahead()[1] == toks[5]);
                        assert(cursor.lookahead()[2] == toks[6]);
                        assert(cursor.lookahead()[3] == toks[7]);
                    }
                }
                if yg {
                    assert(cursor.lookahead()[0] == toks[0]);
                }
            }
            let rest_param = match cursor.peek(0, interner) {
                Ok(Some(t)) => t.kind == TokenKind::Punctuator(Punctuator::Spread),
                Ok(None) => false,
                Err(e) => {
                    proof {
                        if dup_g || yg {
                            assert(false);
                        }
                    }
                    return Err(e);
                },
            };
            let next_param = if rest_param {
                match BindingRestElement::new(self.allow_yield, self.allow_await)
                    .parse(cursor, interner, d) {
                    Ok(p) => p,
                    Err(e) => {
                        proof {
                            if rest_guided {
                                assert(false);
                            }
                        }
                        return Err(e);
                    },
                }
            } else {
                match FormalParameter::new(self.allow_yield, self.allow_await)
                    .parse(cursor, interner, d) {
                    Ok(p) => p,
                    Err(e) => {
                        proof {
                            if guided {
                                assert(false);
                            }
                            if dup_g || yg {
                                assert(false);
                            }
                        }
                        return Err(e);
                    },
                }
            };
            proof {
                if guided {
                    assert(next_param == ident_param(toks, n));
                    assert(cursor.lookahead() =~= toks.skip(2 * n + 1));
                }
                if rest_guided {
                    assert(rest_param);
                    assert(next_param.variable.init is None);
                    assert(cursor.lookahead() == toks.skip(2));
                    assert(cursor.lookahead().len() > 0);
                    assert(cursor.lookahead()[0] == toks[2]);
                }
                if dup_g {
                    assert(!rest_param);
                    if dup_first {
                        assert(crate::parser::single_name_pattern_param(next_param, toks[1]));
                        assert(cursor.lookahead() == toks.skip(3));
                        assert(cursor.lookahead()[0] == toks[3]);
                    } else {
                        assert(crate::parser::single_name_pattern_param(next_param, toks[5]));
                        assert(toks.skip(4).skip(3) =~= toks.skip(7));
                        assert(cursor.lookahead() == toks.skip(7));
                        assert(cursor.lookahead()[0] == toks[7]);
                    }
                    assert(next_param.variable.init is None);
                    assert(!next_param.is_rest_param);
                }
                if yg {
                    assert(!rest_param);
                    assert(next_param == (FormalParameterNode {
                        variable: Variable {
                            binding: crate::ast::Binding::Identifier(Identifier {
                                sym: ident_sym(toks[0].kind),
                                span: toks[0].span,
                            }),
                            init: Some(Expression::Yield(YieldExpr {
                                argument: None,
                                delegate: false,
                                span: toks[2].span,
                            })),
                        },
                        is_rest_param: false,
                    }));
                    assert(cursor.lookahead() == toks.skip(3));
                    assert(cursor.lookahead()[0] == toks[3]);
                }
            }
            if next_param.is_rest_param() && next_param.init().is_some() {
                return Err(Error::early(
                    start,
                    "rest parameter may not have a default initializer",
                ));
            }
            // a rest parameter never follows another parameter's rest:
            // the previous iteration either stopped or rejected
            if params.len() > 0 && params[params.len() - 1].is_rest_param() {
                return Err(Error::unexpected(
                    cursor.scan_position(),
                    "rest parameter must be the last formal parameter",
                ));
            }
            params.push(next_param);
            let after = match cursor.peek(0, interner) {
                Ok(Some(t)) => Some(t),
                Ok(None) => None,
                Err(e) => {
                    proof {
                        if dup_g || yg {
                            assert(false);
                        }
                    }
                    return Err(e);
                },
            };
            match after {
                None => {
                    proof {
                        if guided {
                            assert(cursor.lookahead().len() > 0);
                            assert(false);
                        }
                        if rest_guided {
                            assert(cursor.lookahead().len() > 0);
                            assert(false);
                        }
                        if dup_g {
                            assert(cursor.lookahead().len() > 0);
                            assert(false);
                        }
                        if yg {
                            assert(cursor.lookahead().len() > 0);
                            assert(false);
                        }
                    }
                    break;
                },
                Some(t) if t.kind == TokenKind::Punctuator(Punctuator::CloseParen) => {
                    proof {
                        if guided {
                            assert(t == toks[2 * n + 1]);
                            if n + 1 < gk {
                                assert(toks[2 * n + 1].kind == TokenKind::Punctuator(
                                    Punctuator::Comma,
                                ));
                                assert(false);
                            }
                            assert(n + 1 == gk);
                            assert(cursor.lookahead() =~= toks.skip(2 * gk - 1));
                        }
                        if rest_guided {
                            assert(t == toks[2]);
                            assert(false);
                        }
                        if dup_g {
                            if dup_first {
                                assert(t == toks[3]);
                                assert(false);
                            }
                            assert(params@.len() == 2);
                            assert(crate::parser::single_name_pattern_param(
                                params@[0],
                                toks[1],
                            ));
                            assert(crate::parser::single_name_pattern_param(
                                params@[1],
                                toks[5],
                            ));
                        }
                        if yg {
                            assert(t == toks[3]);
                            assert(params@.len() == 1);
                        }
                    }
                    break;
                },
                Some(t) => {
                    proof {
                        if guided {
                            assert(t == toks[2 * n + 1]);
                            if n + 1 == gk {
                                assert(false);
                            }
                            assert(n + 1 < gk);
                            assert(toks[2 * n + 1].kind == TokenKind::Punctuator(
                                Punctuator::Comma,
                            ));
                        }
                        if dup_g {
                            if !dup_first {
                                assert(t == toks[7]);
                                assert(false);
                            }
                            assert(t == toks[3]);
                        }
                        if yg {
                            assert(t == toks[3]);
                            assert(false);
                        }
                    }
                    if rest_param {
                        return Err(Error::unexpected(
                            t.span.start,
                            "rest parameter must be the last formal parameter",
                        ));
                    }
                    match cursor.expect_punct(Punctuator::Comma, "parameter list", interner) {
                        Ok(_) => {},
                        Err(e) => {
                            proof {
                                if guided {
                                    assert(false);
                                }
                                if dup_g {
                                    assert(false);
                                }
                            }
                            return Err(e);
                        },
                    }
                    proof {
                        if guided {
                            assert(cursor.lookahead() =~= toks.skip(2 * (n + 1)));
                            assert(toks[2 * (n + 1)].kind is IdentifierName);
                            assert(cursor.lookahead()[0] == toks[2 * (n + 1)]);
                        }
                        if dup_g {
                            assert(toks.skip(3).skip(1) =~= toks.skip(4));
                            assert(cursor.lookahead() == toks.skip(4));
                            assert(cursor.lookahead()[0] == toks[4]);
                        }
                    }
                    let trailing = match cursor.peek(0, interner) {
                        Ok(Some(t2)) => t2.kind == TokenKind::Punctuator(Punctuator::CloseParen),
                        Ok(None) => true,
                        Err(e) => {
                            proof {
                                if dup_g {
                                    assert(false);
                                }
                            }
                            return Err(e);
                        },
                    };
                    if trailing {
                        proof {
                            if guided {
                                assert(false);
                            }
                            if rest_guided {
                                assert(false);
                            }
                            if dup_g {
                                assert(false);
                            }
                        }
                        break;
                    }
                },
            }
        }
        proof {
            if guided {
                lemma_ident_params_bound_names(params, toks, gk);
                assert forall|j: int| 0 <= j < params@.len() implies ops::param_is_simple(
                    #[trigger] params[j],
                ) by {
                    assert(params[j] == ident_param(toks, j));
                }
            }
        }
        let list = FormalParameterList::from_parameters(params);
        proof {
            if dup_g {
                let v = list.parameters;
                assert(!ops::param_is_simple(v[0]));
                assert(!list.is_simple_spec());
                let p0 = v[0];
                let p1 = v[1];
                assert(ops::params_bound_names(v, 0) =~= Seq::<crate::interner::Sym>::empty());
                assert(ops::params_bound_names(v, 1) =~= ops::param_bound_names(p0));
                assert(ops::params_bound_names(v, 2) =~= ops::param_bound_names(p0)
                    + ops::param_bound_names(p1));
                let op0 = (choose|op: crate::ast::ObjectPattern|
                    p0.variable.binding == crate::ast::Binding::Pattern(
                        crate::ast::Pattern::Object(op),
                    ));
                let op1 = (choose|op: crate::ast::ObjectPattern|
                    p1.variable.binding == crate::ast::Binding::Pattern(
                        crate::ast::Pattern::Object(op),
                    ));
                assert(ops::obj_elems_bound_names(op0.elements, 1)
                    =~= ops::obj_elem_bound_names(op0.elements@[0]));
                assert(ops::obj_elem_bound_names(op0.elements@[0]) =~= seq![
                    ident_sym(toks[1].kind),
                ]);
                assert(ops::param_bound_names(p0) =~= seq![ident_sym(toks[1].kind)]);
                assert(ops::obj_elems_bound_names(op1.elements, 1)
                    =~= ops::obj_elem_bound_names(op1.elements@[0]));
                assert(ops::obj_elem_bound_names(op1.elements@[0]) =~= seq![
                    ident_sym(toks[5].kind),
                ]);
                assert(ops::param_bound_names(p1) =~= seq![ident_sym(toks[5].kind)]);
                assert(list.bound_names_spec() =~= seq![
                    ident_sym(toks[1].kind),
                    ident_sym(toks[5].kind),
                ]);
                assert(list.bound_names_spec()[0] == list.bound_names_spec()[1]);
                assert(ops::sym_seq_has_dup(list.bound_names_spec()));
                assert(list.has_duplicates_spec());
            }
        }
        proof {
            if yg {
                let v = list.parameters;
                assert(ops::params_bound_names(v, 0)
                    =~= Seq::<crate::interner::Sym>::empty());
                assert(ops::params_bound_names(v, 1) =~= seq![ident_sym(toks[0].kind)]);
                assert(list.bound_names_spec().len() == 1);
                assert(!list.has_duplicates_spec());
            }
        }
        // a non-simple parameter list must not bind any name twice,
        // independent of strict mode
        if !list.is_simple() && list.has_duplicates() {
            proof {
                if guided {
                    assert(list.is_simple_spec());
                    assert(false);
                }
                if yg {
                    assert(false);
                }
            }
            return Err(Error::early(
                start,
                "duplicate parameter name not allowed in this context",
            ));
        }
        proof {
            if dup_g {
                assert(false);
            }
        }
        proof {
            if guided {
                assert forall|k: int| #[trigger] simple_ident_list(toks, k, strict0) implies k
                    == gk by {
                    crate::parser::lemma_simple_ident_list_unique(toks, strict0, k, gk);
                }
                assert(list.bound_names_spec() == ident_seq(toks, gk));
            }
        }
        Ok(list)
    }
}

/// Parses a parenthesized parameter list that must not bind any name
/// twice, whatever its shape.
#[derive(Debug, Clone, Copy)]
pub struct UniqueFormalParameters {
    pub allow_yield: bool,
    pub allow_await: bool,
}

impl UniqueFormalParameters {
    /// Creates a new unique-formal-parameters parser.
    pub fn new(allow_yield: bool, allow_await: bool) -> (r: UniqueFormalParameters)
        ensures
            r.allow_yield == allow_yield,
            r.allow_await == allow_await,
    {
        UniqueFormalParameters { allow_yield, allow_await }
    }

    /// Parses `(` FormalParameters `)` and rejects any duplicate name.
    pub fn parse(self, cursor: &mut Cursor, interner: &mut Interner, depth: u64) -> (r: Result<
        FormalParameterList,
        Error,
    >)
        requires
            old(cursor).wf(),
            old(interner).wf(),
        ensures
            parse_step(*old(cursor), *final(cursor), *old(interner), *final(interner)),
            final(cursor).strict_mode() == old(cursor).strict_mode(),
            r matches Ok(l) ==> final(cursor).remaining() < old(cursor).remaining(),
            r matches Ok(l) ==> l.flags_ok(),
            r matches Ok(l) ==> !l.has_duplicates_spec(),
            r matches Ok(l) ==> (forall|i: int|
                0 <= i < l.parameters@.len() - 1 ==> !(#[trigger] l.parameters[i]).is_rest_param),
            r matches Ok(l) ==> (forall|i: int|
                0 <= i < l.parameters@.len() && (#[trigger] l.parameters[i]).is_rest_param
                    ==> l.parameters[i].variable.init is None),
            forall|k: int|
                (depth >= 4 && old(cursor).lookahead().len() > 0
                    && old(cursor).lookahead()[0].kind == TokenKind::Punctuator(
                    Punctuator::OpenParen,
                ) && #[trigger] simple_ident_list(
                    old(cursor).lookahead().skip(1),
                    k,
                    old(cursor).strict_mode(),
                ) && !ops::sym_seq_has_dup(ident_seq(old(cursor).lookahead().skip(1), k))) ==> (
                r matches Ok(l) && l.parameters@.len() == k && l.is_simple_spec()
                    && l.bound_names_spec() == ident_seq(old(cursor).lookahead().skip(1), k)
                    && final(cursor).lookahead() == old(cursor).lookahead().skip(2 * k + 1)),
        decreases depth,
    {
        if depth == 0 {
            return Err(Error::early(
                cursor.scan_position(),
                "nesting exceeds the supported depth",
            ));
        }
        let depth = depth - 1;
        let open = match cursor.expect_punct(
            Punctuator::OpenParen,
            "unique formal parameters",
            interner,
        ) {
            Ok(t) => t,
            Err(e) => {
                return Err(e);
            },
        };
        let params_start = open.span.end;
        let params = match FormalParameters::new(self.allow_yield, self.allow_await)
            .parse(cursor, interner, depth) {
            Ok(p) => p,
            Err(e) => {
                return Err(e);
            },
        };
        match cursor.expect_punct(Punctuator::CloseParen, "unique formal parameters", interner) {
            Ok(_) => {},
            Err(e) => {
                return Err(e);
            },
        }
        proof {
            assert forall|k: int|
                (old(cursor).lookahead().len() > 0 && #[trigger] simple_ident_list(
                    old(cursor).lookahead().skip(1),
                    k,
                    old(cursor).strict_mode(),
                )) implies (old(cursor).lookahead().skip(1).skip(2 * k - 1)
                =~= old(cursor).lookahead().skip(2 * k)) by {
                assert(1 <= k);
                assert(old(cursor).lookahead().skip(1).len() >= 2 * k);
                assert(old(cursor).lookahead().len() >= 2 * k + 1);
                assert forall|i: int|
                    0 <= i < old(cursor).lookahead().skip(1).skip(2 * k - 1).len() implies (
                    #[trigger] old(cursor).lookahead().skip(1).skip(2 * k - 1)[i]) == old(
                    cursor,
                ).lookahead().skip(2 * k)[i] by {
                    assert(old(cursor).lookahead().skip(1)[2 * k - 1 + i] == old(
                        cursor,
                    ).lookahead()[2 * k + i]);
                }
            }
        }
        if params.has_duplicates() {
            return Err(Error::early(
                params_start,
                "duplicate parameter name not allowed in unique formal parameters",
            ));
        }
        Ok(params)
    }
}

/// Parses the rest parameter: `...` followed by a binding.
#[derive(Debug, Clone, Copy)]
pub struct BindingRestElement {
    pub allow_yield: bool,
    pub allow_await: bool,
}

impl BindingRestElement {
    /// Creates a new rest-parameter parser.
    pub fn new(allow_yield: bool, allow_await: bool) -> (r: BindingRestElement)
        ensures
            r.allow_yield == allow_yield,
            r.allow_await == allow_await,
    {
        BindingRestElement { allow_yield, allow_await }
    }

    /// Parses one rest parameter.
    pub fn parse(self, cursor: &mut Cursor, interner: &mut Interner, depth: u64) -> (r: Result<
        FormalParameterNode,
        Error,
    >)
        requires
            old(cursor).wf(),
            old(interner).wf(),
        ensures
            parse_step(*old(cursor), *final(cursor), *old(interner), *final(interner)),
            final(cursor).strict_mode() == old(cursor).strict_mode(),
            r matches Ok(p) ==> final(cursor).remaining() < old(cursor).remaining(),
            r matches Ok(p) ==> p.is_rest_param == true,
            (old(cursor).lookahead().len() > 0 && old(cursor).lookahead()[0].kind
                != TokenKind::Punctuator(Punctuator::Spread)) ==> (r is Err),
            (depth >= 2 && old(cursor).lookahead().len() >= 3 && old(cursor).lookahead()[0].kind
                == TokenKind::Punctuator(Punctuator::Spread) && (old(
                cursor,
            ).lookahead()[1].kind is IdentifierName) && !strict_reserved(
                ident_sym(old(cursor).lookahead()[1].kind),
                old(cursor).strict_mode(),
            ) && old(cursor).lookahead()[2].kind != TokenKind::Punctuator(Punctuator::Assign))
                ==> (r matches Ok(p) && p == (FormalParameterNode {
                variable: Variable {
                    binding: crate::ast::Binding::Identifier(Identifier {
                        sym: ident_sym(old(cursor).lookahead()[1].kind),
                        span: old(cursor).lookahead()[1].span,
                    }),
                    init: None,
                },
                is_rest_param: true,
            }) && final(cursor).lookahead() == old(cursor).lookahead().skip(2)),
        decreases depth,
    {
        if depth == 0 {
            return Err(Error::early(
                cursor.scan_position(),
                "nesting exceeds the supported depth",
            ));
        }
        let depth = depth - 1;
        match cursor.expect_punct(Punctuator::Spread, "rest parameter", interner) {
            Ok(_) => {},
            Err(e) => {
                return Err(e);
            },
        }
        let tok = match cursor.peek(0, interner) {
            Ok(Some(t)) => t,
            Ok(None) => {
                return Err(Error::abrupt_end(cursor.scan_position(), "rest parameter"));
            },
            Err(e) => {
                return Err(e);
            },
        };
        let declaration: Variable = if tok.kind == TokenKind::Punctuator(Punctuator::OpenBlock) {
            let p = match ObjectBindingPattern::new(self.allow_yield, self.allow_await)
                .parse(cursor, interner, depth) {
                Ok(p) => p,
                Err(e) => {
                    return Err(e);
                },
            };
            let init = match self.parse_optional_initializer(cursor, interner, depth) {
                Ok(i) => i,
                Err(e) => {
                    return Err(e);
                },
            };
            Variable::from_pattern(crate::ast::Pattern::Object(p), init)
        } else if tok.kind == TokenKind::Punctuator(Punctuator::OpenBracket) {
            let p = match ArrayBindingPattern::new(self.allow_yield, self.allow_await)
                .parse(cursor, interner, depth) {
                Ok(p) => p,
                Err(e) => {
                    return Err(e);
                },
            };
            Variable::from_pattern(crate::ast::Pattern::Array(p), None)
        } else {
            let ident = match BindingIdentifier::new(self.allow_yield, self.allow_await)
                .parse(cursor, interner) {
                Ok(id) => id,
                Err(e) => {
                    return Err(e);
                },
            };
            let init = match self.parse_optional_initializer(cursor, interner, depth) {
                Ok(i) => i,
                Err(e) => {
                    return Err(e);
                },
            };
            Variable::from_identifier(ident, init)
        };
        Ok(FormalParameterNode::new(declaration, true))
    }

    /// Parses an initializer when the next token is `=`.
    fn parse_optional_initializer(
        self,
        cursor: &mut Cursor,
        interner: &mut Interner,
        depth: u64,
    ) -> (r: Result<Option<crate::ast::Expression>, Error>)
        requires
            old(cursor).wf(),
            old(interner).wf(),
        ensures
            parse_step(*old(cursor), *final(cursor), *old(interner), *final(interner)),
            final(cursor).strict_mode() == old(cursor).strict_mode(),
            (depth > 0 && old(cursor).lookahead().len() > 0 && old(cursor).lookahead()[0].kind
                != TokenKind::Punctuator(Punctuator::Assign)) ==> (r matches Ok(init) && (init
                is None) && *final(cursor) == *old(cursor)),
            (depth >= 4 && self.allow_yield && old(cursor).lookahead().len() >= 3 && old(
                cursor,
            ).lookahead()[0].kind == TokenKind::Punctuator(Punctuator::Assign) && old(
                cursor,
            ).lookahead()[1].kind == TokenKind::Keyword(Keyword::Yield) && old(
                cursor,
            ).lookahead()[2].kind == TokenKind::Punctuator(Punctuator::CloseParen)) ==> (r
                matches Ok(init) && init == Some(Expression::Yield(YieldExpr {
                argument: None,
                delegate: false,
                span: old(cursor).lookahead()[1].span,
            })) && final(cursor).lookahead() == old(cursor).lookahead().skip(2)),
        decreases depth,
    {
        if depth == 0 {
            return Err(Error::early(
                cursor.scan_position(),
                "nesting exceeds the supported depth",
            ));
        }
        let depth = depth - 1;
        let has_init = match cursor.peek(0, interner) {
            Ok(Some(t)) => t.kind == TokenKind::Punctuator(Punctuator::Assign),
            Ok(None) => false,
            Err(e) => {
                return Err(e);
            },
        };
        if has_init {
            match Initializer::new(true, self.allow_yield, self.allow_await)
                .parse(cursor, interner, depth) {
                Ok(e) => Ok(Some(e)),
                Err(e) => Err(e),
            }
        } else {
            Ok(None)
        }
    }
}

/// Parses one formal parameter: an identifier or a destructuring pattern,
/// each with an optional default initializer.
#[derive(Debug, Clone, Copy)]
pub struct FormalParameter {
    pub allow_yield: bool,
    pub allow_await: bool,
}

impl FormalParameter {
    /// Creates a new formal-parameter parser.
    pub fn new(allow_yield: bool, allow_await: bool) -> (r: FormalParameter)
        ensures
            r.allow_yield == allow_yield,
            r.allow_await == allow_await,
    {
        FormalParameter { allow_yield, allow_await }
    }

    /// Parses one parameter.
    pub fn parse(self, cursor: &mut Cursor, interner: &mut Interner, depth: u64) -> (r: Result<
        FormalParameterNode,
        Error,
    >)
        requires
            old(cursor).wf(),
            old(interner).wf(),
        ensures
            parse_step(*old(cursor), *final(cursor), *old(interner), *final(interner)),
            final(cursor).strict_mode() == old(cursor).strict_mode(),
            r matches Ok(p) ==> final(cursor).remaining() < old(cursor).remaining(),
            r matches Ok(p) ==> p.is_rest_param == false,
            (depth >= 2 && plain_param_at(old(cursor).lookahead(), old(cursor).strict_mode()))
                ==> (r matches Ok(p) && p == (FormalParameterNode {
                variable: Variable {
                    binding: crate::ast::Binding::Identifier(Identifier {
                        sym: ident_sym(old(cursor).lookahead()[0].kind),
                        span: old(cursor).lookahead()[0].span,
                    }),
                    init: None,
                },
                is_rest_param: false,
            }) && final(cursor).lookahead() == old(cursor).lookahead().skip(1)),
            (depth >= 2 && old(cursor).lookahead().len() >= 3 && old(cursor).lookahead()[0].kind
                == TokenKind::Punctuator(Punctuator::OpenBlock) && old(
                cursor,
            ).lookahead()[1].kind == TokenKind::Punctuator(Punctuator::CloseBlock) && old(
                cursor,
            ).lookahead()[2].kind != TokenKind::Punctuator(Punctuator::Assign)) ==> (r matches Ok(
                p,
            ) && (p.variable.binding matches crate::ast::Binding::Pattern(
                crate::ast::Pattern::Object(op),
            ) && op.elements@.len() == 0 && op.span == (Span {
                start: old(cursor).lookahead()[0].span.start,
                end: old(cursor).lookahead()[1].span.end,
            })) && p.variable.init is None && p.is_rest_param == false
                && final(cursor).lookahead() == old(cursor).lookahead().skip(2)),
            (depth >= 2 && !old(cursor).strict_mode() && old(cursor).lookahead().len() >= 4
                && old(cursor).lookahead()[0].kind == TokenKind::Punctuator(Punctuator::OpenBlock)
                && (old(cursor).lookahead()[1].kind is IdentifierName) && old(
                cursor,
            ).lookahead()[2].kind == TokenKind::Punctuator(Punctuator::CloseBlock) && old(
                cursor,
            ).lookahead()[3].kind != TokenKind::Punctuator(Punctuator::Assign)) ==> (r matches Ok(
                p,
            ) && (p.variable.binding matches crate::ast::Binding::Pattern(
                crate::ast::Pattern::Object(op),
            ) && op.elements@.len() == 1 && op.elements@[0]
                == (crate::ast::ObjectPatternElement::SingleName {
                name: Identifier {
                    sym: ident_sym(old(cursor).lookahead()[1].kind),
                    span: old(cursor).lookahead()[1].span,
                },
                ident: Identifier {
                    sym: ident_sym(old(cursor).lookahead()[1].kind),
                    span: old(cursor).lookahead()[1].span,
                },
                default_init: None,
            })) && p.variable.init is None && p.is_rest_param == false
                && final(cursor).lookahead() == old(cursor).lookahead().skip(3)),
            (depth >= 5 && self.allow_yield && old(cursor).lookahead().len() >= 4 && (old(
                cursor,
            ).lookahead()[0].kind is IdentifierName) && !strict_reserved(
                ident_sym(old(cursor).lookahead()[0].kind),
                old(cursor).strict_mode(),
            ) && old(cursor).lookahead()[1].kind == TokenKind::Punctuator(Punctuator::Assign)
                && old(cursor).lookahead()[2].kind == TokenKind::Keyword(Keyword::Yield) && old(
                cursor,
            ).lookahead()[3].kind == TokenKind::Punctuator(Punctuator::CloseParen)) ==> (r
                matches Ok(p) && p == (FormalParameterNode {
                variable: Variable {
                    binding: crate::ast::Binding::Identifier(Identifier {
                        sym: ident_sym(old(cursor).lookahead()[0].kind),
                        span: old(cursor).lookahead()[0].span,
                    }),
                    init: Some(Expression::Yield(YieldExpr {
                        argument: None,
                        delegate: false,
                        span: old(cursor).lookahead()[2].span,
                    })),
                },
                is_rest_param: false,
            }) && final(cursor).lookahead() == old(cursor).lookahead().skip(3)),
        decreases depth,
    {
        if depth == 0 {
            return Err(Error::early(
                cursor.scan_position(),
                "nesting exceeds the supported depth",
            ));
        }
        let ghost toks = old(cursor).lookahead();
        let ghost fg = depth >= 2 && toks.len() >= 3 && toks[0].kind == TokenKind::Punctuator(
            Punctuator::OpenBlock,
        ) && toks[1].kind == TokenKind::Punctuator(Punctuator::CloseBlock) && toks[2].kind
            != TokenKind::Punctuator(Punctuator::Assign);
        let ghost fy = depth >= 5 && self.allow_yield && toks.len() >= 4 && (toks[0].kind
            is IdentifierName) && !strict_reserved(
            ident_sym(toks[0].kind),
            old(cursor).strict_mode(),
        ) && toks[1].kind == TokenKind::Punctuator(Punctuator::Assign) && toks[2].kind
            == TokenKind::Keyword(Keyword::Yield) && toks[3].kind == TokenKind::Punctuator(
            Punctuator::CloseParen,
        );
        let ghost fh = depth >= 2 && !old(cursor).strict_mode() && toks.len() >= 4 && toks[0].kind
            == TokenKind::Punctuator(Punctuator::OpenBlock) && (toks[1].kind is IdentifierName)
            && toks[2].kind == TokenKind::Punctuator(Punctuator::CloseBlock) && toks[3].kind
            != TokenKind::Punctuator(Punctuator::Assign);
        let depth = depth - 1;
        let tok = match cursor.peek(0, interner) {
            Ok(Some(t)) => t,
            Ok(None) => {
                return Err(Error::abrupt_end(cursor.scan_position(), "formal parameter"));
            },
            Err(e) => {
                return Err(e);
            },
        };
        let declaration: Variable = if tok.kind == TokenKind::Punctuator(Punctuator::OpenBlock) {
            let p = match ObjectBindingPattern::new(self.allow_yield, self.allow_await)
                .parse(cursor, interner, depth) {
                Ok(p) => p,
                Err(e) => {
                    proof {
                        if fg || fh {
                            assert(false);
                        }
                    }
                    return Err(e);
                },
            };
            proof {
                if fg {
                    assert(p.elements@.len() == 0);
                    assert(cursor.lookahead() == toks.skip(2));
                    assert(cursor.lookahead()[0] == toks[2]);
                }
                if fh {
                    assert(p.elements@.len() == 1);
                    assert(cursor.lookahead() == toks.skip(3));
                    assert(cursor.lookahead()[0] == toks[3]);
                }
            }
            let init = match BindingRestElement::new(self.allow_yield, self.allow_await)
                .parse_optional_initializer(cursor, interner, depth) {
                Ok(i) => i,
                Err(e) => {
                    proof {
                        if fg || fh {
                            assert(false);
                        }
                    }
                    return Err(e);
                },
            };
            Variable::from_pattern(crate::ast::Pattern::Object(p), init)
        } else if tok.kind == TokenKind::Punctuator(Punctuator::OpenBracket) {
            let p = match ArrayBindingPattern::new(self.allow_yield, self.allow_await)
                .parse(cursor, interner, depth) {
                Ok(p) => p,
                Err(e) => {
                    return Err(e);
                },
            };
            let init = match BindingRestElement::new(self.allow_yield, self.allow_await)
                .parse_optional_initializer(cursor, interner, depth) {
                Ok(i) => i,
                Err(e) => {
                    return Err(e);
                },
            };
            Variable::from_pattern(crate::ast::Pattern::Array(p), init)
        } else {
            let ident = match BindingIdentifier::new(self.allow_yield, self.allow_await)
                .parse(cursor, interner) {
                Ok(id) => id,
                Err(e) => {
                    proof {
                        if fy {
                            assert(false);
                        }
                    }
                    return Err(e);
                },
            };
            proof {
                if fy {
                    assert(ident.sym == ident_sym(toks[0].kind));
                    assert(ident.span == toks[0].span);
                    assert(cursor.lookahead() == toks.skip(1));
                    assert(cursor.lookahead()[0] == toks[1]);
                    assert(cursor.lookahead()[1] == toks[2]);
                    assert(cursor.lookahead()[2] == toks[3]);
                }
            }
            let init = match BindingRestElement::new(self.allow_yield, self.allow_await)
                .parse_optional_initializer(cursor, interner, depth) {
                Ok(i) => i,
                Err(e) => {
                    proof {
                        if fy {
                            assert(false);
                        }
                    }
                    return Err(e);
                },
            };
            proof {
                if fy {
                    assert(init == Some(Expression::Yield(YieldExpr {
                        argument: None,
                        delegate: false,
                        span: toks[2].span,
                    })));
                    assert(toks.skip(1).skip(2) =~= toks.skip(3));
                    assert(cursor.lookahead() == toks.skip(3));
                }
            }
            Variable::from_identifier(ident, init)
        };
        Ok(FormalParameterNode::new(declaration, false))
    }
}

/// Parses a function body: a brace-delimited statement list with a
/// directive prologue, validated against the early-error rules that read
/// the completed list.
#[derive(Debug, Clone, Copy)]
pub struct FunctionStatementList {
    pub allow_yield: bool,
    pub allow_await: bool,
    pub context: &'static str,
    pub parse_full_input: bool,
}

impl FunctionStatementList {
    /// Creates a new function-body parser.
    pub fn new(allow_yield: bool, allow_await: bool, context: &'static str) -> (r:
        FunctionStatementList)
        ensures
            r.allow_yield == allow_yield,
            r.allow_await == allow_await,
            r.context == context,
            r.parse_full_input == false,
    {
        FunctionStatementList { allow_yield, allow_await, context, parse_full_input: false }
    }

    /// Requests consuming the whole input, with no delimiting braces.
    pub fn parse_full_input(&mut self, parse_full_input: bool)
        ensures
            final(self).parse_full_input == parse_full_input,
            final(self).allow_yield == old(self).allow_yield,
            final(self).allow_await == old(self).allow_await,
            final(self).context == old(self).context,
    {
        self.parse_full_input = parse_full_input;
    }

    /// Parses the body. The strict flag of the result records whether the
    /// body's own directive prologue declares `"use strict"`; the
    /// enclosing scope's strict flag is restored afterwards.
    pub fn parse(self, cursor: &mut Cursor, interner: &mut Interner, depth: u64) -> (r: Result<
        FunctionBody,
        Error,
    >)
        requires
            old(cursor).wf(),
            old(interner).wf(),
        ensures
            parse_step(*old(cursor), *final(cursor), *old(interner), *final(interner)),
            final(cursor).strict_mode() == old(cursor).strict_mode(),
            r matches Ok(b) ==> b.statements.strict == ops::prologue_has_use_strict(
                b.statements.statements@,
            ),
            r matches Ok(b) ==> !ops::items_contain(
                b.statements.statements,
                ops::ContainsSymbol::InvalidCoverInitializedName,
                b.statements.statements@.len() as int,
            ),
            (depth >= 2 && !self.parse_full_input && old(cursor).lookahead().len() >= 2
                && old(cursor).lookahead()[0].kind == TokenKind::Punctuator(
                Punctuator::OpenBlock,
            ) && old(cursor).lookahead()[1].kind == TokenKind::Punctuator(
                Punctuator::CloseBlock,
            )) ==> (r matches Ok(b) && b.statements.statements@.len() == 0
                && b.statements.strict == false && b.span == (Span {
                start: old(cursor).lookahead()[0].span.start,
                end: old(cursor).lookahead()[1].span.end,
            }) && final(cursor).lookahead() == old(cursor).lookahead().skip(2)),
            (depth > 0 && !self.parse_full_input && old(cursor).lookahead().len() > 0 && old(
                cursor,
            ).lookahead()[0].kind != TokenKind::Punctuator(Punctuator::OpenBlock)) ==> (r matches
                Err(e) && e.kind == crate::error::ErrorKind::UnexpectedToken && e.position == old(
                cursor,
            ).lookahead()[0].span.start && e.context == self.context),
            (depth >= 7 && !self.parse_full_input && old(cursor).lookahead().len() >= 4 && old(
                cursor,
            ).lookahead()[0].kind == TokenKind::Punctuator(Punctuator::OpenBlock) && (old(
                cursor,
            ).lookahead()[1].kind matches TokenKind::StringLiteral(sym) && sym.id
                == SYM_USE_STRICT) && old(cursor).lookahead()[2].kind == TokenKind::Punctuator(
                Punctuator::Semicolon,
            ) && old(cursor).lookahead()[3].kind == TokenKind::Punctuator(Punctuator::CloseBlock))
                ==> (r matches Ok(b) && b.statements.strict == true
                && b.statements.statements@.len() == 1 && final(cursor).lookahead()
                == old(cursor).lookahead().skip(4) && final(cursor).strict_mode()
                == old(cursor).strict_mode()),
            (depth >= 7 && !self.parse_full_input && !old(cursor).strict_mode() && old(
                cursor,
            ).lookahead().len() >= 6 && old(cursor).lookahead()[0].kind == TokenKind::Punctuator(
                Punctuator::OpenBlock,
            ) && super_statement_form(old(cursor).lookahead().skip(1)) && old(
                cursor,
            ).lookahead()[5].kind == TokenKind::Punctuator(Punctuator::CloseBlock)) ==> (r
                matches Ok(b) && b.statements.statements@.len() == 1 && b.statements.statements@[0]
                == StatementListItem::Statement(Statement::Expression(super_dot_expr(
                old(cursor).lookahead().skip(1),
            ))) && b.statements.strict == false && final(cursor).lookahead()
                == old(cursor).lookahead().skip(6)),
        decreases depth,
    {
        if depth == 0 {
            return Err(Error::early(
                cursor.scan_position(),
                "nesting exceeds the supported depth",
            ));
        }
        let ghost toks = old(cursor).lookahead();
        let ghost bg = depth >= 7 && !self.parse_full_input && toks.len() >= 4 && toks[0].kind
            == TokenKind::Punctuator(Punctuator::OpenBlock) && (toks[1].kind matches
            TokenKind::StringLiteral(sym) && sym.id == SYM_USE_STRICT) && toks[2].kind
            == TokenKind::Punctuator(Punctuator::Semicolon) && toks[3].kind
            == TokenKind::Punctuator(Punctuator::CloseBlock);
        let ghost bsup = depth >= 7 && !self.parse_full_input && !old(cursor).strict_mode()
            && toks.len() >= 6 && toks[0].kind == TokenKind::Punctuator(Punctuator::OpenBlock)
            && super_statement_form(toks.skip(1)) && toks[5].kind == TokenKind::Punctuator(
            Punctuator::CloseBlock,
        );
        let depth = depth - 1;
        let outer_strict = cursor.strict();
        let start: Position = if self.parse_full_input {
            match cursor.peek(0, interner) {
                Ok(Some(t)) => t.span.start,
                Ok(None) => Position::new(1, 1),
                Err(e) => {
                    return Err(e);
                },
            }
        } else {
            match cursor.expect_punct(Punctuator::OpenBlock, self.context, interner) {
                Ok(t) => t.span.start,
                Err(e) => {
                    proof {
                        if bg || bsup {
                            assert(false);
                        }
                    }
                    return Err(e);
                },
            }
        };
        proof {
            if bg {
                assert(cursor.lookahead() == toks.skip(1));
                assert(cursor.lookahead()[0] == toks[1]);
                assert(cursor.lookahead()[1] == toks[2]);
                assert(cursor.lookahead()[2] == toks[3]);
            }
            if bsup {
                assert(cursor.lookahead() == toks.skip(1));
                assert(cursor.lookahead().len() >= 5);
                assert(cursor.lookahead()[4] == toks[5]);
            }
        }
        let body = match (StatementListParser::new(
            self.allow_yield,
            self.allow_await,
            !self.parse_full_input,
            false,
        )).parse(cursor, interner, depth) {
            Ok(sl) => sl,
            Err(e) => {
                proof {
                    if bg || bsup {
                        assert(false);
                    }
                }
                cursor.set_strict(outer_strict);
                return Err(e);
            },
        };
        proof {
            if bg {
                assert(body.strict == true);
                assert(body.statements@.len() == 1);
                assert(body.statements@[0] == StatementListItem::Statement(Statement::Expression(
                    atom_expr(toks[1]),
                )));
                assert(cursor.lookahead() == toks.skip(1).skip(2));
                assert(toks.skip(1).skip(2) =~= toks.skip(3));
            }
            if bsup {
                assert(body.strict == false);
                assert(body.statements@.len() == 1);
                assert(body.statements@[0] == StatementListItem::Statement(Statement::Expression(
                    super_dot_expr(toks.skip(1)),
                )));
                assert(cursor.lookahead() == toks.skip(1).skip(4));
                assert(toks.skip(1).skip(4) =~= toks.skip(5));
                assert(cursor.lookahead()[0] == toks[5]);
            }
        }
        cursor.set_strict(outer_strict);
        if ops::statement_items_contain(
            &body.statements,
            ops::ContainsSymbol::InvalidCoverInitializedName,
        ) {
            proof {
                if bg {
                    assert(!ops::items_contain(
                        body.statements,
                        ops::ContainsSymbol::InvalidCoverInitializedName,
                        0,
                    ));
                    assert(!ops::expr_contains(
                        atom_expr(toks[1]),
                        ops::ContainsSymbol::InvalidCoverInitializedName,
                    ));
                    assert(!ops::items_contain(
                        body.statements,
                        ops::ContainsSymbol::InvalidCoverInitializedName,
                        1,
                    ));
                    assert(false);
                }
                if bsup {
                    assert(!ops::items_contain(
                        body.statements,
                        ops::ContainsSymbol::InvalidCoverInitializedName,
                        0,
                    ));
                    assert(!ops::expr_contains(
                        super_dot_expr(toks.skip(1)),
                        ops::ContainsSymbol::InvalidCoverInitializedName,
                    ));
                    assert(!ops::items_contain(
                        body.statements,
                        ops::ContainsSymbol::InvalidCoverInitializedName,
                        1,
                    ));
                    assert(false);
                }
            }
            return Err(Error::early(
                Position::new(1, 1),
                "invalid object literal in function statement list",
            ));
        }
        let end: Position = if self.parse_full_input {
            cursor.scan_position()
        } else {
            match cursor.expect_punct(Punctuator::CloseBlock, self.context, interner) {
                Ok(t) => t.span.end,
                Err(e) => {
                    proof {
                        if bg {
                            assert(cursor.lookahead()[0] == toks[3]);
                            assert(false);
                        }
                        if bsup {
                            assert(cursor.lookahead()[0] == toks[5]);
                            assert(false);
                        }
                    }
                    return Err(e);
                },
            }
        };
        proof {
            if bg {
                assert(cursor.lookahead() =~= toks.skip(4));
            }
            if bsup {
                assert(cursor.lookahead() =~= toks.skip(6));
            }
        }
        Ok(FunctionBody::new(body, Span::new(start, end)))
    }
}

// ---------------------------------------------------------------------------

/// Parses the prefix of a generator expression: the `function` keyword,
/// the `*`, the optional binding identifier — read under the generator
/// grammar's own parameters — and the opening parenthesis.
fn parse_generator_prefix(cursor: &mut Cursor, interner: &mut Interner) -> (r: Result<
    (Token, Option<Identifier>, Span, Token),
    Error,
>)
    requires
        old(cursor).wf(),
        old(interner).wf(),
    ensures
        parse_step(*old(cursor), *final(cursor), *old(interner), *final(interner)),
        final(cursor).strict_mode() == old(cursor).strict_mode(),
        r matches Ok(pr) ==> final(cursor).remaining() < old(cursor).remaining(),
        (old(cursor).lookahead().len() >= 3 && old(cursor).lookahead()[0].kind
            == TokenKind::Keyword(Keyword::Function) && old(cursor).lookahead()[1].kind
            == TokenKind::Punctuator(Punctuator::Mul) && old(cursor).lookahead()[2].kind
            == TokenKind::Punctuator(Punctuator::OpenParen)) ==> (r matches Ok(pr) && (pr.1
            is None) && final(cursor).lookahead() == old(cursor).lookahead().skip(3)),
        (old(cursor).lookahead().len() >= 4 && old(cursor).lookahead()[0].kind
            == TokenKind::Keyword(Keyword::Function) && old(cursor).lookahead()[1].kind
            == TokenKind::Punctuator(Punctuator::Mul) && (old(cursor).lookahead()[2].kind
            is IdentifierName) && !strict_reserved(
            ident_sym(old(cursor).lookahead()[2].kind),
            old(cursor).strict_mode(),
        ) && old(cursor).lookahead()[3].kind == TokenKind::Punctuator(Punctuator::OpenParen))
            ==> (r matches Ok(pr) && (pr.1 matches Some(id) && id.sym == ident_sym(
            old(cursor).lookahead()[2].kind,
        )) && final(cursor).lookahead() == old(cursor).lookahead().skip(4)),
        (old(cursor).strict_mode() && old(cursor).lookahead().len() >= 3 && old(
            cursor,
        ).lookahead()[0].kind == TokenKind::Keyword(Keyword::Function) && old(
            cursor,
        ).lookahead()[1].kind == TokenKind::Punctuator(Punctuator::Mul) && (old(
            cursor,
        ).lookahead()[2].kind is IdentifierName) && strict_reserved(
            ident_sym(old(cursor).lookahead()[2].kind),
            old(cursor).strict_mode(),
        )) ==> (r matches Err(e) && e.kind == crate::error::ErrorKind::EarlyError),
{
    let ghost toks = old(cursor).lookahead();
    let ftok = match cursor.expect_keyword(Keyword::Function, "generator expression", interner) {
        Ok(t) => t,
        Err(e) => {
            return Err(e);
        },
    };
    match cursor.expect_punct(Punctuator::Mul, "generator expression", interner) {
        Ok(_) => {},
        Err(e) => {
            return Err(e);
        },
    }
    proof {
        if toks.len() >= 3 && toks[0].kind == TokenKind::Keyword(Keyword::Function)
            && toks[1].kind == TokenKind::Punctuator(Punctuator::Mul) {
            crate::parser::lemma_skip_skip(toks, 1, 1);
            assert(cursor.lookahead() =~= toks.skip(2));
            assert(cursor.lookahead()[0] == toks[2]);
            if toks.len() >= 4 {
                assert(cursor.lookahead()[1] == toks[3]);
            }
        }
    }
    let tok = match cursor.peek(0, interner) {
        Ok(Some(t)) => t,
        Ok(None) => {
            return Err(Error::abrupt_end(cursor.scan_position(), "generator expression"));
        },
        Err(e) => {
            return Err(e);
        },
    };
    let name_allowed = match tok.kind {
        TokenKind::IdentifierName(_) => true,
        TokenKind::Keyword(Keyword::Yield) => true,
        TokenKind::Keyword(Keyword::Await) => true,
        TokenKind::Keyword(Keyword::Async) => true,
        TokenKind::Keyword(Keyword::Of) => true,
        _ => false,
    };
    let name_span = tok.span;
    // the expression's own name is parsed with `yield` read as a keyword,
    // as the generator grammar prescribes for its binding identifier;
    // only the grammar parameters of the parameter list and body are the
    // generator's own
    let name = if name_allowed {
        match BindingIdentifier::new(true, false).parse(cursor, interner) {
            Ok(id) => Some(id),
            Err(e) => {
                return Err(e);
            },
        }
    } else {
        None
    };
    let open = match cursor.expect_punct(Punctuator::OpenParen, "generator expression", interner)
        {
        Ok(t) => t,
        Err(e) => {
            return Err(e);
        },
    };
    proof {
        if toks.len() >= 3 && toks[0].kind == TokenKind::Keyword(Keyword::Function)
            && toks[1].kind == TokenKind::Punctuator(Punctuator::Mul) {
            if toks[2].kind == TokenKind::Punctuator(Punctuator::OpenParen) {
                crate::parser::lemma_skip_skip(toks, 2, 1);
                assert(cursor.lookahead() =~= toks.skip(3));
            }
            if toks.len() >= 4 && (toks[2].kind is IdentifierName) && !strict_reserved(
                ident_sym(toks[2].kind),
                old(cursor).strict_mode(),
            ) && toks[3].kind == TokenKind::Punctuator(Punctuator::OpenParen) {
                crate::parser::lemma_skip_skip(toks, 2, 1);
                crate::parser::lemma_skip_skip(toks, 3, 1);
                assert(cursor.lookahead() =~= toks.skip(4));
            }
        }
    }
    Ok((ftok, name, name_span, open))
}

/// Applies the early-error rules of the generator production to a
/// completed fragment, in the source order of the constructs the rules
/// blame, and builds the node. A fragment with a simple parameter list,
/// an empty non-strict body and no strict mode in force is owed
/// acceptance; one with a duplicate name under strict mode from either
/// side is owed rejection.
fn generator_early_errors(
    enclosing_strict: bool,
    name: Option<Identifier>,
    name_position: Position,
    params: FormalParameterList,
    body: FunctionBody,
    params_start: Position,
    linear_span: crate::span::LinearSpan,
    span: Span,
) -> (r: Result<GeneratorExpressionNode, Error>)
    requires
        params.flags_ok(),
    ensures
        r matches Ok(node) ==> node == (GeneratorExpressionNode {
            name,
            parameters: params,
            body,
            linear_span,
            has_binding_identifier: name is Some,
            span,
        }),
        r matches Ok(node) ==> !((enclosing_strict || body.statements.strict)
            && params.has_duplicates_spec()),
        r matches Ok(node) ==> (body.statements.strict ==> params.is_simple_spec()),
        r matches Ok(node) ==> (name matches Some(id) ==> ((enclosing_strict
            || body.statements.strict) ==> id.sym.id != SYM_EVAL && id.sym.id
            != SYM_ARGUMENTS)),
        r matches Ok(node) ==> (body.statements.strict ==> !ops::names_have_eval_or_arguments(
            params.bound_names_spec(),
        )),
        r matches Ok(node) ==> !ops::sym_seqs_intersect(
            params.bound_names_spec(),
            ops::items_lex_names(
                body.statements.statements,
                body.statements.statements@.len() as int,
            ),
        ),
        r matches Ok(node) ==> !ops::params_list_contains(
            params,
            ops::ContainsSymbol::YieldExpression,
        ),
        r matches Ok(node) ==> !(ops::params_list_contains(
            params,
            ops::ContainsSymbol::SuperProperty,
        ) || ops::body_contains(body, ops::ContainsSymbol::SuperProperty)),
        (!enclosing_strict && !body.statements.strict && params.is_simple_spec()
            && body.statements.statements@.len() == 0) ==> (r is Ok),
        ((enclosing_strict || body.statements.strict) && params.has_duplicates_spec()) ==> (r
            matches Err(e) && e.kind == crate::error::ErrorKind::EarlyError && e.position
            == params_start),
        (!enclosing_strict && !body.statements.strict && (name is None)
            && body.statements.statements@.len() == 0 && ops::params_list_contains(
            params,
            ops::ContainsSymbol::YieldExpression,
        )) ==> (r matches Err(e) && e.kind == crate::error::ErrorKind::EarlyError && e.position
            == params_start),
        (!enclosing_strict && !body.statements.strict && (name is None)
            && params.parameters@.len() == 0 && ops::body_contains(
            body,
            ops::ContainsSymbol::SuperProperty,
        )) ==> (r matches Err(e) && e.kind == crate::error::ErrorKind::EarlyError && e.position
            == params_start),
{
    proof {
        if !enclosing_strict && !body.statements.strict && (name is None)
            && body.statements.statements@.len() == 0 {
            assert(ops::items_lex_names(body.statements.statements, 0)
                =~= Seq::<crate::interner::Sym>::empty());
        }
        if params.parameters@.len() == 0 {
            assert(ops::params_bound_names(params.parameters, 0)
                =~= Seq::<crate::interner::Sym>::empty());
            assert(params.bound_names_spec().len() == 0);
            assert(!ops::params_contain(
                params.parameters,
                ops::ContainsSymbol::YieldExpression,
                0,
            ));
            assert(!ops::params_list_contains(params, ops::ContainsSymbol::YieldExpression));
            assert(!params.has_duplicates_spec());
        }
        if !enclosing_strict && !body.statements.strict && params.is_simple_spec()
            && body.statements.statements@.len() == 0 {
            ops::lemma_simple_params_contain_nothing(
                params.parameters,
                ops::ContainsSymbol::YieldExpression,
                params.parameters@.len() as int,
            );
            ops::lemma_simple_params_contain_nothing(
                params.parameters,
                ops::ContainsSymbol::SuperProperty,
                params.parameters@.len() as int,
            );
        }
    }
    // where strict mode applies from either side, the rules for unique
    // formal parameters apply to the list
    if (enclosing_strict || body.strict()) && params.has_duplicates() {
        return Err(Error::early(
            params_start,
            "duplicate parameter name not allowed in this context",
        ));
    }
    // a body that declares "use strict" must have a simple parameter list
    if body.strict() && !params.is_simple() {
        return Err(Error::early(
            params_start,
            "illegal 'use strict' directive in function with non-simple parameter list",
        ));
    }
    // under strict mode from either side, the expression's own name must
    // not be `eval` or `arguments`
    match &name {
        Some(id) => {
            if (enclosing_strict || body.strict()) && (id.sym.id == SYM_EVAL || id.sym.id
                == SYM_ARGUMENTS) {
                return Err(Error::early(
                    name_position,
                    "unexpected identifier 'eval' or 'arguments' in strict mode",
                ));
            }
        },
        None => {},
    }
    // the same restriction applies to every binding of the parameter list
    // once the body declares "use strict"
    let bound = ops::bound_names(&params);
    if body.strict() && ops::names_contain_eval_or_arguments(&bound) {
        return Err(Error::early(
            params_start,
            "unexpected identifier 'eval' or 'arguments' in strict mode",
        ));
    }
    // no parameter name may also be lexically declared in the body
    let lex = ops::lexically_declared_names(&body);
    match name_in_lexically_declared_names(&bound, &lex, params_start) {
        Ok(()) => {},
        Err(e) => {
            return Err(e);
        },
    }
    // the generator's own parameter list can never embed a
    // yield-expression
    if ops::parameter_list_contains(&params, ops::ContainsSymbol::YieldExpression) {
        return Err(Error::early(
            params_start,
            "generator expression cannot contain yield expression in parameters",
        ));
    }
    let has_name = name.is_some();
    let node = GeneratorExpressionNode::new(name, params, body, linear_span, has_name, span);
    // a generator expression is no method: it legalizes no `super`
    // reference in its parameters or body
    if ops::parameter_list_contains(&node.parameters, ops::ContainsSymbol::SuperProperty)
        || ops::function_body_contains(&node.body, ops::ContainsSymbol::SuperProperty) {
        return Err(Error::early(params_start, "invalid super usage"));
    }
    Ok(node)
}

/// Parses a generator expression.
#[derive(Debug, Clone, Copy)]
pub struct GeneratorExpression {}

impl GeneratorExpression {
    /// Creates a new generator-expression parser.
    pub fn new() -> (r: GeneratorExpression) {
        GeneratorExpression {  }
    }

    /// Parses one generator expression. On success the returned node has
    /// passed every early-error rule of the production: no duplicate
    /// parameter name where strict mode applies from either side, no
    /// `"use strict"` body behind a non-simple parameter list, no
    /// reserved binding name under strict mode, no parameter name
    /// colliding with a lexically declared name of the body, no
    /// yield-expression inside the parameter list, and no `super`
    /// reference anywhere in the function.
    #[verifier::rlimit(100)]
    pub fn parse(self, cursor: &mut Cursor, interner: &mut Interner, depth: u64) -> (r: Result<
        GeneratorExpressionNode,
        Error,
    >)
        requires
            old(cursor).wf(),
            old(interner).wf(),
        ensures
            parse_step(*old(cursor), *final(cursor), *old(interner), *final(interner)),
            final(cursor).strict_mode() == old(cursor).strict_mode(),
            r matches Ok(node) ==> final(cursor).remaining() < old(cursor).remaining(),
            r matches Ok(node) ==> node.parameters.flags_ok(),
            r matches Ok(node) ==> node.body.statements.strict == ops::prologue_has_use_strict(
                node.body.statements.statements@,
            ),
            r matches Ok(node) ==> !((old(cursor).strict_mode() || node.body.statements.strict)
                && node.parameters.has_duplicates_spec()),
            r matches Ok(node) ==> (node.body.statements.strict
                ==> node.parameters.is_simple_spec()),
            r matches Ok(node) ==> (node.name matches Some(id) ==> ((old(cursor).strict_mode()
                || node.body.statements.strict) ==> id.sym.id != SYM_EVAL && id.sym.id
                != SYM_ARGUMENTS)),
            r matches Ok(node) ==> (node.body.statements.strict
                ==> !ops::names_have_eval_or_arguments(node.parameters.bound_names_spec())),
            r matches Ok(node) ==> !ops::sym_seqs_intersect(
                node.parameters.bound_names_spec(),
                ops::items_lex_names(
                    node.body.statements.statements,
                    node.body.statements.statements@.len() as int,
                ),
            ),
            r matches Ok(node) ==> !ops::params_list_contains(
                node.parameters,
                ops::ContainsSymbol::YieldExpression,
            ),
            r matches Ok(node) ==> !(ops::params_list_contains(
                node.parameters,
                ops::ContainsSymbol::SuperProperty,
            ) || ops::body_contains(node.body, ops::ContainsSymbol::SuperProperty)),
            r matches Ok(node) ==> node.has_binding_identifier == (node.name is Some),
            forall|k: int|
                (depth >= 6 && !old(cursor).strict_mode() && #[trigger] anonymous_generator_form(
                    old(cursor).lookahead(),
                    k,
                    false,
                )) ==> (r matches Ok(node) && (node.name is None)
                    && node.parameters.parameters@.len() == k && node.parameters.is_simple_spec()
                    && node.parameters.bound_names_spec() == ident_seq(
                    old(cursor).lookahead().skip(3),
                    k,
                ) && node.body.statements.statements@.len() == 0 && node.body.statements.strict
                    == false),
            forall|k: int|
                (depth >= 6 && !old(cursor).strict_mode() && #[trigger] named_generator_form(
                    old(cursor).lookahead(),
                    k,
                )) ==> (r matches Ok(node) && (node.name matches Some(id) && id.sym == ident_sym(
                    old(cursor).lookahead()[2].kind,
                )) && node.parameters.parameters@.len() == k && node.parameters.is_simple_spec()
                    && node.body.statements.statements@.len() == 0 && node.body.statements.strict
                    == false),
            forall|k: int|
                (depth >= 6 && old(cursor).strict_mode() && #[trigger] anonymous_generator_form(
                    old(cursor).lookahead(),
                    k,
                    old(cursor).strict_mode(),
                ) && ops::sym_seq_has_dup(ident_seq(old(cursor).lookahead().skip(3), k))) ==> (r
                is Err),
            (depth >= 6 && old(cursor).strict_mode() && old(cursor).lookahead().len() >= 3
                && old(cursor).lookahead()[0].kind == TokenKind::Keyword(Keyword::Function)
                && old(cursor).lookahead()[1].kind == TokenKind::Punctuator(Punctuator::Mul)
                && (old(cursor).lookahead()[2].kind is IdentifierName) && strict_reserved(
                ident_sym(old(cursor).lookahead()[2].kind),
                old(cursor).strict_mode(),
            )) ==> (r matches Err(e) && e.kind == crate::error::ErrorKind::EarlyError),
            forall|k: int|
                (depth >= 8 && !old(cursor).strict_mode() && #[trigger] directive_generator_form(
                    old(cursor).lookahead(),
                    k,
                ) && ops::sym_seq_has_dup(ident_seq(old(cursor).lookahead().skip(3), k))) ==> (r
                matches Err(e) && e.kind == crate::error::ErrorKind::EarlyError),
            (depth >= 7 && !old(cursor).strict_mode() && old(cursor).lookahead().len() >= 9
                && old(cursor).lookahead()[0].kind == TokenKind::Keyword(Keyword::Function)
                && old(cursor).lookahead()[1].kind == TokenKind::Punctuator(Punctuator::Mul)
                && old(cursor).lookahead()[2].kind == TokenKind::Punctuator(Punctuator::OpenParen)
                && (old(cursor).lookahead()[3].kind is IdentifierName) && !strict_reserved(
                ident_sym(old(cursor).lookahead()[3].kind),
                false,
            ) && old(cursor).lookahead()[4].kind == TokenKind::Punctuator(Punctuator::Assign)
                && old(cursor).lookahead()[5].kind == TokenKind::Keyword(Keyword::Yield) && old(
                cursor,
            ).lookahead()[6].kind == TokenKind::Punctuator(Punctuator::CloseParen) && old(
                cursor,
            ).lookahead()[7].kind == TokenKind::Punctuator(Punctuator::OpenBlock) && old(
                cursor,
            ).lookahead()[8].kind == TokenKind::Punctuator(Punctuator::CloseBlock)) ==> (r
                matches Err(e) && e.kind == crate::error::ErrorKind::EarlyError),
            (depth >= 8 && !old(cursor).strict_mode() && old(cursor).lookahead().len() >= 10
                && old(cursor).lookahead()[0].kind == TokenKind::Keyword(Keyword::Function)
                && old(cursor).lookahead()[1].kind == TokenKind::Punctuator(Punctuator::Mul)
                && old(cursor).lookahead()[2].kind == TokenKind::Punctuator(Punctuator::OpenParen)
                && old(cursor).lookahead()[3].kind == TokenKind::Punctuator(
                Punctuator::CloseParen,
            ) && old(cursor).lookahead()[4].kind == TokenKind::Punctuator(Punctuator::OpenBlock)
                && super_statement_form(old(cursor).lookahead().skip(5)) && old(
                cursor,
            ).lookahead()[9].kind == TokenKind::Punctuator(Punctuator::CloseBlock)) ==> (r
                matches Err(e) && e.kind == crate::error::ErrorKind::EarlyError),
        decreases depth,
    {
        if depth == 0 {
            return Err(Error::early(
                cursor.scan_position(),
                "nesting exceeds the supported depth",
            ));
        }
        let ghost depth0 = depth;
        let depth = depth - 1;
        let ghost toks = old(cursor).lookahead();
        let ghost s0 = old(cursor).strict_mode();
        let ghost has_g = exists|k: int| anonymous_generator_form(toks, k, false);
        let ghost gg = depth0 >= 6 && !s0 && has_g;
        let ghost gk: int = if has_g {
            choose|k: int| anonymous_generator_form(toks, k, false)
        } else {
            0int
        };
        let ghost ge = depth0 >= 6 && s0 && toks.len() >= 3 && toks[0].kind
            == TokenKind::Keyword(Keyword::Function) && toks[1].kind == TokenKind::Punctuator(
            Punctuator::Mul,
        ) && (toks[2].kind is IdentifierName) && strict_reserved(ident_sym(toks[2].kind), s0);
        let ghost has_s = exists|k: int|
            anonymous_generator_form(toks, k, s0) && ops::sym_seq_has_dup(
                ident_seq(toks.skip(3), k),
            );
        let ghost gs = depth0 >= 6 && s0 && has_s;
        let ghost sk: int = if has_s {
            choose|k: int|
                anonymous_generator_form(toks, k, s0) && ops::sym_seq_has_dup(
                    ident_seq(toks.skip(3), k),
                )
        } else {
            0int
        };
        let ghost has_n = exists|k: int| named_generator_form(toks, k);
        let ghost gn = depth0 >= 6 && !s0 && has_n;
        let ghost nk: int = if has_n {
            choose|k: int| named_generator_form(toks, k)
        } else {
            0int
        };
        let ghost has_d = exists|k: int|
            directive_generator_form(toks, k) && ops::sym_seq_has_dup(
                ident_seq(toks.skip(3), k),
            );
        let ghost gd = depth0 >= 8 && !s0 && has_d;
        let ghost dk: int = if has_d {
            choose|k: int|
                directive_generator_form(toks, k) && ops::sym_seq_has_dup(
                    ident_seq(toks.skip(3), k),
                )
        } else {
            0int
        };
        let ghost gy = depth0 >= 7 && !s0 && toks.len() >= 9 && toks[0].kind
            == TokenKind::Keyword(Keyword::Function) && toks[1].kind == TokenKind::Punctuator(
            Punctuator::Mul,
        ) && toks[2].kind == TokenKind::Punctuator(Punctuator::OpenParen) && (toks[3].kind
            is IdentifierName) && !strict_reserved(ident_sym(toks[3].kind), false) && toks[4].kind
            == TokenKind::Punctuator(Punctuator::Assign) && toks[5].kind == TokenKind::Keyword(
            Keyword::Yield,
        ) && toks[6].kind == TokenKind::Punctuator(Punctuator::CloseParen) && toks[7].kind
            == TokenKind::Punctuator(Punctuator::OpenBlock) && toks[8].kind
            == TokenKind::Punctuator(Punctuator::CloseBlock);
        let ghost gsup = depth0 >= 8 && !s0 && toks.len() >= 10 && toks[0].kind
            == TokenKind::Keyword(Keyword::Function) && toks[1].kind == TokenKind::Punctuator(
            Punctuator::Mul,
        ) && toks[2].kind == TokenKind::Punctuator(Punctuator::OpenParen) && toks[3].kind
            == TokenKind::Punctuator(Punctuator::CloseParen) && toks[4].kind
            == TokenKind::Punctuator(Punctuator::OpenBlock) && super_statement_form(
            toks.skip(5),
        ) && toks[9].kind == TokenKind::Punctuator(Punctuator::CloseBlock);
        proof {
            if gg {
                assert(anonymous_generator_form(toks, gk, false));
                assert(simple_ident_list(toks.skip(3), gk, false));
                assert(1 <= gk);
                assert(toks.skip(3).len() >= 2 * gk);
                assert(toks.len() >= 2 * gk + 5);
                assert(toks.len() > 0);
            }
            if gs {
                assert(anonymous_generator_form(toks, sk, s0));
                assert(simple_ident_list(toks.skip(3), sk, s0));
                assert(1 <= sk);
                assert(toks.skip(3).len() >= 2 * sk);
                assert(toks.len() >= 2 * sk + 5);
                assert(toks.len() > 0);
            }
            if gn {
                assert(named_generator_form(toks, nk));
                assert(simple_ident_list(toks.skip(4), nk, false));
                assert(1 <= nk);
                assert(toks.skip(4).len() >= 2 * nk);
                assert(toks.len() >= 2 * nk + 6);
                assert(toks.len() > 0);
            }
            if gd {
                assert(directive_generator_form(toks, dk));
                assert(simple_ident_list(toks.skip(3), dk, false));
                assert(1 <= dk);
                assert(toks.skip(3).len() >= 2 * dk);
                assert(toks.len() >= 2 * dk + 7);
                assert(toks.len() > 0);
            }
        }
        let (ftok, name, name_span, open) = match parse_generator_prefix(cursor, interner) {
            Ok(pr) => pr,
            Err(e) => {
                proof {
                    if gg {
                        assert(false);
                    }
                    if gn {
                        assert(false);
                    }
                    if gs {
                        assert(false);
                    }
                    if gd {
                        assert(false);
                    }
                    if gy {
                        assert(false);
                    }
                    if gsup {
                        assert(false);
                    }
                }
                return Err(e);
            },
        };
        let start_linear = ftok.linear_span();
        let function_span_start = ftok.span.start;
        proof {
            if gg {
                assert(cursor.lookahead() == toks.skip(3));
                assert(simple_ident_list(cursor.lookahead(), gk, cursor.strict_mode()));
            }
            if gn {
                assert(cursor.lookahead() == toks.skip(4));
                assert(simple_ident_list(cursor.lookahead(), nk, cursor.strict_mode()));
            }
            if gs {
                assert(cursor.lookahead() == toks.skip(3));
                assert(simple_ident_list(cursor.lookahead(), sk, cursor.strict_mode()));
            }
            if gd {
                assert(cursor.lookahead() == toks.skip(3));
                assert(simple_ident_list(cursor.lookahead(), dk, cursor.strict_mode()));
            }
            if gy {
                assert(cursor.lookahead() == toks.skip(3));
                assert(cursor.lookahead()[0] == toks[3]);
                assert(cursor.lookahead()[1] == toks[4]);
                assert(cursor.lookahead()[2] == toks[5]);
                assert(cursor.lookahead()[3] == toks[6]);
                assert(cursor.lookahead().len() >= 4);
            }
            if gsup {
                assert(cursor.lookahead() == toks.skip(3));
                assert(cursor.lookahead().len() > 0);
                assert(cursor.lookahead()[0] == toks[3]);
            }
            if ge {
                assert(false);
            }
        }
        let params_start = open.span.end;
        let params = match FormalParameters::new(true, false).parse(cursor, interner, depth) {
            Ok(p) => p,
            Err(e) => {
                proof {
                    if gg {
                        assert(false);
                    }
                    if gn {
                        assert(false);
                    }
                    if gd {
                        assert(false);
                    }
                    if gy {
                        assert(false);
                    }
                    if gsup {
                        assert(false);
                    }
                }
                return Err(e);
            },
        };
        proof {
            if gg {
                crate::parser::lemma_skip_skip(toks, 3, 2 * gk - 1);
                assert(cursor.lookahead() =~= toks.skip(2 * gk + 2));
                assert(toks.skip(3)[2 * gk - 1] == toks[2 * gk + 2]);
                assert(cursor.lookahead()[0] == toks[2 * gk + 2]);
            }
            if gn {
                crate::parser::lemma_skip_skip(toks, 4, 2 * nk - 1);
                assert(cursor.lookahead() =~= toks.skip(2 * nk + 3));
                assert(toks.skip(4)[2 * nk - 1] == toks[2 * nk + 3]);
                assert(cursor.lookahead()[0] == toks[2 * nk + 3]);
            }
            if gs {
                crate::parser::lemma_skip_skip(toks, 3, 2 * sk - 1);
                assert(cursor.lookahead() =~= toks.skip(2 * sk + 2));
                assert(toks.skip(3)[2 * sk - 1] == toks[2 * sk + 2]);
                assert(cursor.lookahead()[0] == toks[2 * sk + 2]);
            }
            if gd {
                crate::parser::lemma_skip_skip(toks, 3, 2 * dk - 1);
                assert(cursor.lookahead() =~= toks.skip(2 * dk + 2));
                assert(toks.skip(3)[2 * dk - 1] == toks[2 * dk + 2]);
                assert(cursor.lookahead()[0] == toks[2 * dk + 2]);
            }
            if gy {
                assert(toks.skip(3).skip(3) =~= toks.skip(6));
                assert(cursor.lookahead() == toks.skip(6));
                assert(cursor.lookahead()[0] == toks[6]);
            }
            if gsup {
                assert(params.parameters@.len() == 0);
                assert(cursor.lookahead() == toks.skip(3));
                assert(cursor.lookahead()[0] == toks[3]);
            }
        }
        match cursor.expect_punct(Punctuator::CloseParen, "generator expression", interner) {
            Ok(_) => {},
            Err(e) => {
                proof {
                    if gg {
                        assert(false);
                    }
                    if gn {
                        assert(false);
                    }
                    if gd {
                        assert(false);
                    }
                    if gy {
                        assert(false);
                    }
                    if gsup {
                        assert(false);
                    }
                }
                return Err(e);
            },
        }
        proof {
            if gg {
                crate::parser::lemma_skip_skip(toks, 2 * gk + 2, 1);
                assert(cursor.lookahead() =~= toks.skip(2 * gk + 3));
                assert(cursor.lookahead()[0] == toks[2 * gk + 3]);
                assert(cursor.lookahead()[1] == toks[2 * gk + 4]);
                assert(cursor.lookahead().len() >= 2);
            }
            if gn {
                crate::parser::lemma_skip_skip(toks, 2 * nk + 3, 1);
                assert(cursor.lookahead() =~= toks.skip(2 * nk + 4));
                assert(cursor.lookahead()[0] == toks[2 * nk + 4]);
                assert(cursor.lookahead()[1] == toks[2 * nk + 5]);
                assert(cursor.lookahead().len() >= 2);
            }
            if gs {
                crate::parser::lemma_skip_skip(toks, 2 * sk + 2, 1);
                assert(cursor.lookahead() =~= toks.skip(2 * sk + 3));
                assert(cursor.lookahead()[0] == toks[2 * sk + 3]);
                assert(cursor.lookahead()[1] == toks[2 * sk + 4]);
                assert(cursor.lookahead().len() >= 2);
            }
            if gd {
                crate::parser::lemma_skip_skip(toks, 2 * dk + 2, 1);
                assert(cursor.lookahead() =~= toks.skip(2 * dk + 3));
                assert(cursor.lookahead()[0] == toks[2 * dk + 3]);
                assert(cursor.lookahead()[1] == toks[2 * dk + 4]);
                assert(cursor.lookahead()[2] == toks[2 * dk + 5]);
                assert(cursor.lookahead()[3] == toks[2 * dk + 6]);
                assert(cursor.lookahead().len() >= 4);
            }
            if gy {
                assert(toks.skip(6).skip(1) =~= toks.skip(7));
                assert(cursor.lookahead() == toks.skip(7));
                assert(cursor.lookahead()[0] == toks[7]);
                assert(cursor.lookahead()[1] == toks[8]);
                assert(cursor.lookahead().len() >= 2);
            }
            if gsup {
                assert(toks.skip(3).skip(1) =~= toks.skip(4));
                assert(cursor.lookahead() == toks.skip(4));
                assert(cursor.lookahead()[0] == toks[4]);
                assert(cursor.lookahead().skip(1) =~= toks.skip(5));
                assert(cursor.lookahead()[5] == toks[9]);
                assert(cursor.lookahead().len() >= 6);
            }
        }
        let body = match FunctionStatementList::new(true, false, "generator expression")
            .parse(cursor, interner, depth) {
            Ok(b) => b,
            Err(e) => {
                proof {
                    if gg {
                        assert(false);
                    }
                    if gn {
                        assert(false);
                    }
                    if gd {
                        assert(false);
                    }
                    if gy {
                        assert(false);
                    }
                    if gsup {
                        assert(false);
                    }
                }
                return Err(e);
            },
        };
        let function_span_end = body.span().end;
        let r = generator_early_errors(
            cursor.strict(),
            name,
            name_span.start,
            params,
            body,
            params_start,
            start_linear.union(cursor.linear_pos_end()),
            Span::new(function_span_start, function_span_end),
        );
        proof {
            if gg {
                assert(r is Ok);
                assert forall|k: int| #[trigger] anonymous_generator_form(toks, k, false)
                    implies k == gk by {
                    crate::parser::lemma_simple_ident_list_unique(toks.skip(3), false, k, gk);
                }
            }
            if gn {
                assert(r is Ok);
                assert forall|k: int| #[trigger] named_generator_form(toks, k) implies k
                    == nk by {
                    crate::parser::lemma_simple_ident_list_unique(toks.skip(4), false, k, nk);
                }
            }
            if gs {
                // a strict duplicate list is owed rejection by the
                // early-error rules
                assert(params.bound_names_spec() == ident_seq(toks.skip(3), sk));
                assert(params.has_duplicates_spec());
                assert(r is Err);
            }
            if gd {
                // a directive-made-strict body owes the same rejection of
                // a duplicate parameter list
                assert(params.bound_names_spec() == ident_seq(toks.skip(3), dk));
                assert(params.has_duplicates_spec());
                assert(body.statements.strict);
                assert(r matches Err(e) && e.kind == crate::error::ErrorKind::EarlyError);
            }
            if gy {
                // a parameter default holding a yield-expression owes
                // rejection inside a generator's parameter list
                let v = params.parameters;
                assert(v@.len() == 1);
                assert(ops::var_contains(v[0].variable, ops::ContainsSymbol::YieldExpression));
                assert(ops::params_contain(v, ops::ContainsSymbol::YieldExpression, 1));
                assert(ops::params_list_contains(
                    params,
                    ops::ContainsSymbol::YieldExpression,
                ));
                assert(body.statements.statements@.len() == 0);
                assert(!body.statements.strict);
                assert(name is None);
                assert(r matches Err(e) && e.kind == crate::error::ErrorKind::EarlyError);
            }
            if gsup {
                // a body reading `super` owes rejection: a generator
                // expression legalizes no super reference
                assert(body.statements.statements@.len() == 1);
                assert(body.statements.statements@[0] == StatementListItem::Statement(
                    Statement::Expression(super_dot_expr(toks.skip(5))),
                ));
                assert(ops::expr_contains(
                    super_dot_expr(toks.skip(5)),
                    ops::ContainsSymbol::SuperProperty,
                ));
                assert(!ops::items_contain(
                    body.statements.statements,
                    ops::ContainsSymbol::SuperProperty,
                    0,
                ));
                assert(ops::items_contain(
                    body.statements.statements,
                    ops::ContainsSymbol::SuperProperty,
                    1,
                ));
                assert(ops::body_contains(body, ops::ContainsSymbol::SuperProperty));
                assert(!body.statements.strict);
                assert(name is None);
                assert(params.parameters@.len() == 0);
                assert(r matches Err(e) && e.kind == crate::error::ErrorKind::EarlyError);
            }
        }
        r
    }
}

// ---------------------------------------------------------------------------

/// Parses a list of statements and declarations up to end of input or, in
/// a braced scope, up to the closing brace.
#[derive(Debug, Clone, Copy)]
pub struct StatementListParser {
    pub allow_yield: bool,
    pub allow_await: bool,
    pub stop_on_close_block: bool,
    pub strict: bool,
}

impl StatementListParser {
    /// Creates a new statement-list parser. `strict` is the strictness the
    /// list starts under independently of its own prologue, true for
    /// module scopes.
    pub fn new(allow_yield: bool, allow_await: bool, stop_on_close_block: bool, strict: bool)
        -> (r: StatementListParser)
        ensures
            r.allow_yield == allow_yield,
            r.allow_await == allow_await,
            r.stop_on_close_block == stop_on_close_block,
            r.strict == strict,
    {
        StatementListParser { allow_yield, allow_await, stop_on_close_block, strict }
    }

    /// Parses the list. The strict flag of the result records whether the
    /// initial strictness or the list's own directive prologue makes the
    /// scope strict; discovering the directive also sets the cursor's
    /// strict flag for the remaining statements.
    #[verifier::loop_isolation(false)]
    pub fn parse(self, cursor: &mut Cursor, interner: &mut Interner, depth: u64) -> (r: Result<
        StatementList,
        Error,
    >)
        requires
            old(cursor).wf(),
            old(interner).wf(),
        ensures
            parse_step(*old(cursor), *final(cursor), *old(interner), *final(interner)),
            old(cursor).strict_mode() ==> final(cursor).strict_mode(),
            r matches Ok(sl) ==> sl.strict == (self.strict || ops::prologue_has_use_strict(
                sl.statements@,
            )),
            r matches Ok(sl) ==> final(cursor).strict_mode() == (old(cursor).strict_mode()
                || ops::prologue_has_use_strict(sl.statements@)),
            (depth > 0 && self.stop_on_close_block && old(cursor).lookahead().len() > 0
                && old(cursor).lookahead()[0].kind == TokenKind::Punctuator(
                Punctuator::CloseBlock,
            )) ==> (r matches Ok(sl) && sl.statements@.len() == 0 && sl.strict == self.strict
                && *final(cursor) == *old(cursor)),
            (depth > 0 && old(cursor).lookahead().len() == 0 && old(cursor).lex_pos() == old(
                cursor,
            ).src_view().len()) ==> (r matches Ok(sl) && sl.statements@.len() == 0 && sl.strict
                == self.strict),
            (depth >= 2 && old(cursor).lookahead().len() == 1 && old(cursor).lookahead()[0].kind
                == TokenKind::Punctuator(Punctuator::Semicolon) && old(cursor).lex_pos() == old(
                cursor,
            ).src_view().len()) ==> (r matches Ok(sl) && sl.statements@.len() == 1
                && sl.statements@[0] == StatementListItem::Statement(Statement::Empty)
                && sl.strict == self.strict),
            (depth >= 6 && self.stop_on_close_block && old(cursor).lookahead().len() >= 3 && (old(
                cursor,
            ).lookahead()[0].kind matches TokenKind::StringLiteral(sym) && sym.id
                == SYM_USE_STRICT) && old(cursor).lookahead()[1].kind == TokenKind::Punctuator(
                Punctuator::Semicolon,
            ) && old(cursor).lookahead()[2].kind == TokenKind::Punctuator(Punctuator::CloseBlock))
                ==> (r matches Ok(sl) && sl.statements@.len() == 1 && sl.statements@[0]
                == StatementListItem::Statement(Statement::Expression(atom_expr(
                old(cursor).lookahead()[0],
            ))) && sl.strict == true && final(cursor).lookahead()
                == old(cursor).lookahead().skip(2)),
            (depth >= 6 && self.stop_on_close_block && old(cursor).lookahead().len() >= 5
                && super_statement_form(old(cursor).lookahead()) && old(
                cursor,
            ).lookahead()[4].kind == TokenKind::Punctuator(Punctuator::CloseBlock)) ==> (r
                matches Ok(sl) && sl.statements@.len() == 1 && sl.statements@[0]
                == StatementListItem::Statement(Statement::Expression(super_dot_expr(
                old(cursor).lookahead(),
            ))) && sl.strict == self.strict && final(cursor).lookahead()
                == old(cursor).lookahead().skip(4)),
        decreases depth,
    {
        if depth == 0 {
            return Err(Error::early(
                cursor.scan_position(),
                "nesting exceeds the supported depth",
            ));
        }
        let ghost sg = depth >= 2 && old(cursor).lookahead().len() == 1 && old(
            cursor,
        ).lookahead()[0].kind == TokenKind::Punctuator(Punctuator::Semicolon) && old(
            cursor,
        ).lex_pos() == old(cursor).src_view().len();
        let ghost dg = depth >= 6 && self.stop_on_close_block && old(cursor).lookahead().len()
            >= 3 && (old(cursor).lookahead()[0].kind matches TokenKind::StringLiteral(sym)
            && sym.id == SYM_USE_STRICT) && old(cursor).lookahead()[1].kind
            == TokenKind::Punctuator(Punctuator::Semicolon) && old(cursor).lookahead()[2].kind
            == TokenKind::Punctuator(Punctuator::CloseBlock);
        let ghost sup_g = depth >= 6 && self.stop_on_close_block && old(
            cursor,
        ).lookahead().len() >= 5 && super_statement_form(old(cursor).lookahead()) && old(
            cursor,
        ).lookahead()[4].kind == TokenKind::Punctuator(Punctuator::CloseBlock);
        let depth = depth - 1;
        let mut items: Vec<StatementListItem> = Vec::new();
        let mut in_prologue = true;
        let mut found = false;
        loop
            invariant
                cursor.wf(),
                interner.wf(),
                parse_step(*old(cursor), *cursor, *old(interner), *interner),
                (self.stop_on_close_block && old(cursor).lookahead().len() > 0 && old(
                    cursor,
                ).lookahead()[0].kind == TokenKind::Punctuator(Punctuator::CloseBlock)) ==> (
                items@.len() == 0 && *cursor == *old(cursor) && !found),
                (old(cursor).lookahead().len() == 0 && old(cursor).lex_pos() == old(
                    cursor,
                ).src_view().len()) ==> (items@.len() == 0 && !found
                    && cursor.lookahead().len() == 0 && cursor.lex_pos()
                    == cursor.src_view().len()),
                in_prologue ==> (forall|j: int|
                    0 <= j < items@.len() ==> ops::is_string_literal_statement(
                        #[trigger] items@[j],
                    )),
                !in_prologue ==> (exists|j: int|
                    0 <= j < items@.len() && !ops::is_string_literal_statement(
                        #[trigger] items@[j],
                    )),
                found == ops::prologue_has_use_strict(items@),
                cursor.strict_mode() == (old(cursor).strict_mode() || found),
                sg ==> ((items@.len() == 0 && !found && in_prologue && cursor.lookahead() == old(
                    cursor,
                ).lookahead() && cursor.lex_pos() == old(cursor).lex_pos()) || (items@.len() == 1
                    && items@[0] == StatementListItem::Statement(Statement::Empty) && !found
                    && cursor.lookahead().len() == 0 && cursor.lex_pos()
                    == cursor.src_view().len())),
                dg ==> ((items@.len() == 0 && !found && in_prologue && cursor.lookahead() == old(
                    cursor,
                ).lookahead()) || (items@.len() == 1 && items@[0]
                    == StatementListItem::Statement(Statement::Expression(atom_expr(
                    old(cursor).lookahead()[0],
                ))) && found && cursor.lookahead() == old(cursor).lookahead().skip(2))),
                sup_g ==> ((items@.len() == 0 && !found && cursor.lookahead() == old(
                    cursor,
                ).lookahead()) || (items@.len() == 1 && items@[0]
                    == StatementListItem::Statement(Statement::Expression(super_dot_expr(
                    old(cursor).lookahead(),
                ))) && !found && cursor.lookahead() == old(cursor).lookahead().skip(4))),
            decreases cursor.remaining(),
        {
            let ghost sg_first = items@.len() == 0;
            let tok = match cursor.peek(0, interner) {
                Ok(Some(t)) => t,
                Ok(None) => {
                    proof {
                        if sg && sg_first {
                            assert(cursor.lookahead().len() > 0);
                            assert(false);
                        }
                        if dg {
                            assert(cursor.lookahead().len() > 0);
                            assert(false);
                        }
                        if sup_g {
                            assert(cursor.lookahead().len() > 0);
                            assert(false);
                        }
                    }
                    break;
                },
                Err(e) => {
                    proof {
                        if sg {
                            assert(false);
                        }
                        if dg {
                            assert(false);
                        }
                        if sup_g {
                            assert(false);
                        }
                    }
                    return Err(e);
                },
            };
            proof {
                if sg {
                    if sg_first {
                        assert(tok == old(cursor).lookahead()[0]);
                    } else {
                        assert(false);
                    }
                }
                if dg {
                    if sg_first {
                        assert(tok == old(cursor).lookahead()[0]);
                    } else {
                        assert(tok == old(cursor).lookahead()[2]);
                    }
                }
                if sup_g {
                    if sg_first {
                        assert(tok == old(cursor).lookahead()[0]);
                    } else {
                        assert(tok == old(cursor).lookahead()[4]);
                    }
                }
            }
            if self.stop_on_close_block && tok.kind == TokenKind::Punctuator(
                Punctuator::CloseBlock,
            ) {
                proof {
                    if dg && sg_first {
                        assert(false);
                    }
                    if sup_g && sg_first {
                        assert(false);
                    }
                }
                break;
            }
            cursor.set_goal(InputElement::RegExp);
            let item = match parse_statement_list_item(
                self.allow_yield,
                self.allow_await,
                cursor,
                interner,
                depth,
            ) {
                Ok(it) => it,
                Err(e) => {
                    proof {
                        if sg || dg || sup_g {
                            assert(false);
                        }
                    }
                    return Err(e);
                },
            };
            let ghost items_before = items@;
            let ghost in_prologue_before = in_prologue;
            // the directive is recognized by its cooked contents, so an
            // escaped spelling of it counts as the directive too
            let is_string_item = match &item {
                StatementListItem::Statement(Statement::Expression(Expression::Literal(lit)))
                    => match lit.kind {
                    LiteralKind::String(_) => true,
                    _ => false,
                },
                _ => false,
            };
            let is_directive = match &item {
                StatementListItem::Statement(Statement::Expression(Expression::Literal(lit)))
                    => match lit.kind {
                    LiteralKind::String(s) => s.id == SYM_USE_STRICT,
                    _ => false,
                },
                _ => false,
            };
            proof {
                assert(is_string_item == ops::is_string_literal_statement(item));
                assert(is_directive == ops::is_use_strict_directive(item));
            }
            if in_prologue {
                if is_directive {
                    cursor.set_strict(true);
                    found = true;
                }
                if !is_string_item {
                    in_prologue = false;
                }
            }
            items.push(item);
            proof {
                let n0 = items_before.len() as int;
                assert(items@ =~= items_before.push(item));
                assert(items@[n0] == item);
                assert forall|k: int| 0 <= k < n0 implies items@[k] == items_before[k] by {}
                if found {
                    if ops::prologue_has_use_strict(items_before) {
                        let j = choose|j: int|
                            0 <= j < items_before.len() && ops::is_use_strict_directive(
                                #[trigger] items_before[j],
                            ) && (forall|k: int|
                                0 <= k < j ==> ops::is_string_literal_statement(
                                    #[trigger] items_before[k],
                                ));
                        assert(ops::is_use_strict_directive(items@[j]));
                        assert(forall|k: int|
                            0 <= k < j ==> ops::is_string_literal_statement(#[trigger] items@[k]));
                        assert(ops::prologue_has_use_strict(items@));
                    } else {
                        // the pushed item is the directive: the whole
                        // prologue before it is string literals
                        assert(in_prologue_before && is_directive);
                        assert(forall|k: int|
                            0 <= k < n0 ==> ops::is_string_literal_statement(
                                #[trigger] items@[k],
                            ));
                        assert(ops::is_use_strict_directive(items@[n0]));
                        assert(ops::prologue_has_use_strict(items@));
                    }
                } else {
                    assert(!ops::prologue_has_use_strict(items@)) by {
                        if ops::prologue_has_use_strict(items@) {
                            let j = choose|j: int|
                                0 <= j < items@.len() && ops::is_use_strict_directive(
                                    #[trigger] items@[j],
                                ) && (forall|k: int|
                                    0 <= k < j ==> ops::is_string_literal_statement(
                                        #[trigger] items@[k],
                                    ));
                            if j < n0 {
                                assert(ops::is_use_strict_directive(items_before[j]));
                                assert(forall|k: int|
                                    0 <= k < j ==> ops::is_string_literal_statement(
                                        #[trigger] items_before[k],
                                    ));
                                assert(ops::prologue_has_use_strict(items_before));
                                assert(false);
                            } else {
                                assert(j == n0);
                                assert(ops::is_use_strict_directive(item));
                                // every earlier item is a string literal,
                                // so the prologue scan was still running
                                // and would have recognized the directive
                                if in_prologue_before {
                                    assert(false);
                                } else {
                                    let j0 = choose|j0: int|
                                        0 <= j0 < items_before.len()
                                            && !ops::is_string_literal_statement(
                                            #[trigger] items_before[j0],
                                        );
                                    assert(ops::is_string_literal_statement(items@[j0]));
                                    assert(false);
                                }
                            }
                        }
                    }
                }
                if !in_prologue {
                    if in_prologue_before {
                        assert(!ops::is_string_literal_statement(items@[n0]));
                    } else {
                        let j0 = choose|j0: int|
                            0 <= j0 < items_before.len() && !ops::is_string_literal_statement(
                                #[trigger] items_before[j0],
                            );
                        assert(!ops::is_string_literal_statement(items@[j0]));
                    }
                }
            }
        }
        let strict_flag = self.strict || found;
        Ok(StatementList::new(items, strict_flag))
    }
}

/// Parses one statement-list item: a declaration or a statement.
fn parse_statement_list_item(
    allow_yield: bool,
    allow_await: bool,
    cursor: &mut Cursor,
    interner: &mut Interner,
    depth: u64,
) -> (r: Result<StatementListItem, Error>)
    requires
        old(cursor).wf(),
        old(interner).wf(),
    ensures
        parse_step(*old(cursor), *final(cursor), *old(interner), *final(interner)),
        final(cursor).strict_mode() == old(cursor).strict_mode(),
        r matches Ok(it) ==> final(cursor).remaining() < old(cursor).remaining(),
        (depth > 0 && old(cursor).lookahead().len() > 0 && old(cursor).lookahead()[0].kind
            == TokenKind::Punctuator(Punctuator::Semicolon)) ==> (r matches Ok(it) && it
            == StatementListItem::Statement(Statement::Empty) && final(cursor).lookahead() == old(
            cursor,
        ).lookahead().skip(1) && final(cursor).lex_pos() == old(cursor).lex_pos()),
        (depth >= 5 && old(cursor).lookahead().len() >= 2 && is_atom(
            old(cursor).lookahead()[0].kind,
        ) && old(cursor).lookahead()[1].kind == TokenKind::Punctuator(Punctuator::Semicolon))
            ==> (r matches Ok(it) && it == StatementListItem::Statement(Statement::Expression(
            atom_expr(old(cursor).lookahead()[0]),
        )) && final(cursor).lookahead() == old(cursor).lookahead().skip(2)),
        (depth >= 5 && super_statement_form(old(cursor).lookahead())) ==> (r matches Ok(it)
            && it == StatementListItem::Statement(Statement::Expression(super_dot_expr(
            old(cursor).lookahead(),
        ))) && final(cursor).lookahead() == old(cursor).lookahead().skip(4)),
    decreases depth,
{
    if depth == 0 {
        return Err(Error::early(cursor.scan_position(), "nesting exceeds the supported depth"));
    }
    let ghost toks = old(cursor).lookahead();
    let ghost eg = depth >= 5 && toks.len() >= 2 && is_atom(toks[0].kind) && toks[1].kind
        == TokenKind::Punctuator(Punctuator::Semicolon);
    let ghost eg_super = depth >= 5 && super_statement_form(toks);
    let depth = depth - 1;
    let tok = match cursor.peek(0, interner) {
        Ok(Some(t)) => t,
        Ok(None) => {
            return Err(Error::abrupt_end(cursor.scan_position(), "statement"));
        },
        Err(e) => {
            return Err(e);
        },
    };
    if tok.kind == TokenKind::Keyword(Keyword::Const) {
        return parse_lexical_declaration(true, allow_yield, allow_await, cursor, interner, depth);
    }
    if tok.kind == TokenKind::Keyword(Keyword::Let) {
        return parse_lexical_declaration(false, allow_yield, allow_await, cursor, interner, depth);
    }
    if tok.kind == TokenKind::Punctuator(Punctuator::Semicolon) {
        cursor.advance();
        return Ok(StatementListItem::Statement(Statement::Empty));
    }
    let ctx = GrammarContext { allow_in: true, allow_yield, allow_await };
    let expr = match parse_expression(ctx, cursor, interner, depth) {
        Ok(e) => e,
        Err(e) => {
            proof {
                if eg || eg_super {
                    assert(false);
                }
            }
            return Err(e);
        },
    };
    proof {
        if eg {
            assert(expr == atom_expr(toks[0]));
            assert(cursor.lookahead() == toks.skip(1));
            assert(cursor.lookahead()[0] == toks[1]);
        }
        if eg_super {
            assert(expr == super_dot_expr(toks));
            assert(cursor.lookahead() == toks.skip(3));
            assert(cursor.lookahead()[0] == toks[3]);
        }
    }
    match end_statement(cursor, interner, "expression statement") {
        Ok(()) => {},
        Err(e) => {
            proof {
                if eg || eg_super {
                    assert(false);
                }
            }
            return Err(e);
        },
    }
    proof {
        if eg {
            assert(cursor.lookahead() =~= toks.skip(2));
        }
        if eg_super {
            assert(toks.skip(3).skip(1) =~= toks.skip(4));
            assert(cursor.lookahead() == toks.skip(4));
        }
    }
    Ok(StatementListItem::Statement(Statement::Expression(expr)))
}

/// Ends a statement: consumes `;`, or applies automatic semicolon
/// insertion before `}`, at end of input, or after a line terminator.
fn end_statement(cursor: &mut Cursor, interner: &mut Interner, context: &'static str) -> (r:
    Result<(), Error>)
    requires
        old(cursor).wf(),
        old(interner).wf(),
    ensures
        parse_step(*old(cursor), *final(cursor), *old(interner), *final(interner)),
        final(cursor).strict_mode() == old(cursor).strict_mode(),
        (old(cursor).lookahead().len() > 0 && old(cursor).lookahead()[0].kind
            == TokenKind::Punctuator(Punctuator::Semicolon)) ==> (r is Ok
            && final(cursor).lookahead() == old(cursor).lookahead().skip(1)),
{
    let tok = match cursor.peek(0, interner) {
        Ok(Some(t)) => t,
        Ok(None) => {
            return Ok(());
        },
        Err(e) => {
            return Err(e);
        },
    };
    if tok.kind == TokenKind::Punctuator(Punctuator::Semicolon) {
        cursor.advance();
        Ok(())
    } else if tok.kind == TokenKind::Punctuator(Punctuator::CloseBlock) || tok.lt_before {
        Ok(())
    } else {
        Err(Error::unexpected(tok.span.start, context))
    }
}

/// Parses a `const` or `let` declaration, the terminating semicolon
/// included. Every `const` variable must carry an initializer.
#[verifier::loop_isolation(false)]
fn parse_lexical_declaration(
    is_const: bool,
    allow_yield: bool,
    allow_await: bool,
    cursor: &mut Cursor,
    interner: &mut Interner,
    depth: u64,
) -> (r: Result<StatementListItem, Error>)
    requires
        old(cursor).wf(),
        old(interner).wf(),
    ensures
        parse_step(*old(cursor), *final(cursor), *old(interner), *final(interner)),
        final(cursor).strict_mode() == old(cursor).strict_mode(),
        r matches Ok(it) ==> final(cursor).remaining() < old(cursor).remaining(),
    decreases depth,
{
    if depth == 0 {
        return Err(Error::early(cursor.scan_position(), "nesting exceeds the supported depth"));
    }
    let depth = depth - 1;
    let kw = if is_const {
        Keyword::Const
    } else {
        Keyword::Let
    };
    match cursor.expect_keyword(kw, "lexical declaration", interner) {
        Ok(_) => {},
        Err(e) => {
            return Err(e);
        },
    }
    let mut variables: Vec<Variable> = Vec::new();
    loop
        invariant
            cursor.wf(),
            interner.wf(),
            parse_step(*old(cursor), *cursor, *old(interner), *interner),
            cursor.strict_mode() == old(cursor).strict_mode(),
            cursor.remaining() < old(cursor).remaining(),
        decreases cursor.remaining(),
    {
        let tok = match cursor.peek(0, interner) {
            Ok(Some(t)) => t,
            Ok(None) => {
                return Err(Error::abrupt_end(cursor.scan_position(), "lexical declaration"));
            },
            Err(e) => {
                return Err(e);
            },
        };
        let variable: Variable = if tok.kind == TokenKind::Punctuator(Punctuator::OpenBlock) {
            let p = match ObjectBindingPattern::new(allow_yield, allow_await)
                .parse(cursor, interner, depth) {
                Ok(p) => p,
                Err(e) => {
                    return Err(e);
                },
            };
            let init = match parse_declaration_initializer(
                allow_yield,
                allow_await,
                cursor,
                interner,
                depth,
            ) {
                Ok(i) => i,
                Err(e) => {
                    return Err(e);
                },
            };
            Variable::from_pattern(crate::ast::Pattern::Object(p), init)
        } else if tok.kind == TokenKind::Punctuator(Punctuator::OpenBracket) {
            let p = match ArrayBindingPattern::new(allow_yield, allow_await)
                .parse(cursor, interner, depth) {
                Ok(p) => p,
                Err(e) => {
                    return Err(e);
                },
            };
            let init = match parse_declaration_initializer(
                allow_yield,
                allow_await,
                cursor,
                interner,
                depth,
            ) {
                Ok(i) => i,
                Err(e) => {
                    return Err(e);
                },
            };
            Variable::from_pattern(crate::ast::Pattern::Array(p), init)
        } else {
            let ident = match BindingIdentifier::new(allow_yield, allow_await)
                .parse(cursor, interner) {
                Ok(id) => id,
                Err(e) => {
                    return Err(e);
                },
            };
            let init = match parse_declaration_initializer(
                allow_yield,
                allow_await,
                cursor,
                interner,
                depth,
            ) {
                Ok(i) => i,
                Err(e) => {
                    return Err(e);
                },
            };
            Variable::from_identifier(ident, init)
        };
        if is_const && variable.init().is_none() {
            return Err(Error::early(
                tok.span.start,
                "missing initializer in const declaration",
            ));
        }
        variables.push(variable);
        let sep = match cursor.peek(0, interner) {
            Ok(Some(t)) => Some(t),
            Ok(None) => None,
            Err(e) => {
                return Err(e);
            },
        };
        match sep {
            Some(t) if t.kind == TokenKind::Punctuator(Punctuator::Comma) => {
                cursor.advance();
            },
            _ => {
                break;
            },
        }
    }
    match end_statement(cursor, interner, "lexical declaration") {
        Ok(()) => {},
        Err(e) => {
            return Err(e);
        },
    }
    let decl = if is_const {
        LexicalDeclaration::Const(variables)
    } else {
        LexicalDeclaration::Let(variables)
    };
    Ok(StatementListItem::Declaration(Declaration::Lexical(decl)))
}

/// Parses the initializer of one declared variable when `=` follows.
fn parse_declaration_initializer(
    allow_yield: bool,
    allow_await: bool,
    cursor: &mut Cursor,
    interner: &mut Interner,
    depth: u64,
) -> (r: Result<Option<Expression>, Error>)
    requires
        old(cursor).wf(),
        old(interner).wf(),
    ensures
        parse_step(*old(cursor), *final(cursor), *old(interner), *final(interner)),
        final(cursor).strict_mode() == old(cursor).strict_mode(),
    decreases depth,
{
    if depth == 0 {
        return Err(Error::early(cursor.scan_position(), "nesting exceeds the supported depth"));
    }
    let depth = depth - 1;
    let has_init = match cursor.peek(0, interner) {
        Ok(Some(t)) => t.kind == TokenKind::Punctuator(Punctuator::Assign),
        Ok(None) => false,
        Err(e) => {
            return Err(e);
        },
    };
    if has_init {
        match Initializer::new(true, allow_yield, allow_await).parse(cursor, interner, depth) {
            Ok(e) => Ok(Some(e)),
            Err(e) => Err(e),
        }
    } else {
        Ok(None)
    }
}

} // verus!
