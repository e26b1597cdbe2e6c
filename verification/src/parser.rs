//! Shared parser plumbing: the contract every production parser maintains
//! on the cursor and the interner, and small helpers the productions share.

use vstd::prelude::*;
use crate::cursor::{interner_extends, Cursor};
use crate::error::Error;
use crate::interner::{
    Interner, Sym, SYM_ARGUMENTS, SYM_ASYNC, SYM_AWAIT, SYM_CONST, SYM_EVAL, SYM_FUNCTION,
    SYM_LET, SYM_OF, SYM_SUPER, SYM_USE_STRICT, SYM_YIELD,
};
use crate::ast::{Expression, Identifier, Literal, LiteralKind, SuperPropertyAccess};
use crate::ops;
use crate::span::Position;
use crate::tokens::{Keyword, Punctuator, Token, TokenKind};

verus! {

/// The grammar parameters threaded through every production parser. A
/// child parse derives a new context rather than mutating a shared one.
#[derive(Debug, Clone, Copy, PartialEq, Eq, Structural)]
pub struct GrammarContext {
    /// Whether the `in` operator may appear at this point.
    pub allow_in: bool,
    /// Whether `yield` is read as a keyword introducing a yield-expression
    /// rather than as an ordinary identifier.
    pub allow_yield: bool,
    /// Whether `await` is read as a keyword introducing an
    /// await-expression rather than as an ordinary identifier.
    pub allow_await: bool,
}

/// The interned name carried by an identifier-name token; a dummy handle
/// for any other kind.
pub open spec fn ident_sym(k: TokenKind) -> Sym {
    match k {
        TokenKind::IdentifierName(s) => s,
        _ => Sym { id: 0 },
    }
}

/// Whether a name is reserved as a binding under the given strictness:
/// `eval` and `arguments` are, in strict mode only.
pub open spec fn strict_reserved(s: Sym, strict: bool) -> bool {
    strict && (s.id == SYM_EVAL || s.id == SYM_ARGUMENTS)
}

/// Whether the buffered tokens begin with one plain parameter: an
/// identifier that strict mode admits, not followed by a default
/// initializer.
pub open spec fn plain_param_at(toks: Seq<Token>, strict: bool) -> bool {
    &&& toks.len() >= 2
    &&& toks[0].kind is IdentifierName
    &&& !strict_reserved(ident_sym(toks[0].kind), strict)
    &&& toks[1].kind != TokenKind::Punctuator(Punctuator::Assign)
}

/// Whether the first `2 * k` buffered tokens form a simple parameter
/// list: `k` plain identifier names that strict mode admits, separated by
/// commas and closed by `)`. Duplicate names are allowed by the form.
pub open spec fn simple_ident_list(toks: Seq<Token>, k: int, strict: bool) -> bool {
    &&& 1 <= k
    &&& toks.len() >= 2 * k
    &&& forall|j: int|
        0 <= j < 2 * k - 1 && j % 2 == 0 ==> ((#[trigger] toks[j]).kind is IdentifierName
            && !strict_reserved(ident_sym(toks[j].kind), strict))
    &&& forall|j: int|
        0 <= j < 2 * k - 1 && j % 2 == 1 ==> (#[trigger] toks[j]).kind == TokenKind::Punctuator(
            Punctuator::Comma,
        )
    &&& toks[2 * k - 1].kind == TokenKind::Punctuator(Punctuator::CloseParen)
}

/// The names of the identifier tokens at the even positions, in order.
pub open spec fn ident_seq(toks: Seq<Token>, k: int) -> Seq<Sym> {
    Seq::new(k as nat, |i: int| ident_sym(toks[2 * i].kind))
}

/// Whether the buffered tokens begin with a named generator expression
/// whose parameter list is `k` plain identifier names and whose body is
/// empty: `function* name(a1, ..., ak) {}`.
pub open spec fn named_generator_form(toks: Seq<Token>, k: int) -> bool {
    &&& toks.len() >= 2 * k + 6
    &&& toks[0].kind == TokenKind::Keyword(Keyword::Function)
    &&& toks[1].kind == TokenKind::Punctuator(Punctuator::Mul)
    &&& toks[2].kind is IdentifierName
    &&& toks[3].kind == TokenKind::Punctuator(Punctuator::OpenParen)
    &&& simple_ident_list(toks.skip(4), k, false)
    &&& toks[2 * k + 4].kind == TokenKind::Punctuator(Punctuator::OpenBlock)
    &&& toks[2 * k + 5].kind == TokenKind::Punctuator(Punctuator::CloseBlock)
}

/// Whether the buffered tokens begin with an anonymous generator
/// expression whose parameter list is `k` plain identifier names that
/// the given strictness admits and whose body is empty:
/// `function* (a1, ..., ak) {}`.
pub open spec fn anonymous_generator_form(toks: Seq<Token>, k: int, strict: bool) -> bool {
    &&& toks.len() >= 2 * k + 5
    &&& toks[0].kind == TokenKind::Keyword(Keyword::Function)
    &&& toks[1].kind == TokenKind::Punctuator(Punctuator::Mul)
    &&& toks[2].kind == TokenKind::Punctuator(Punctuator::OpenParen)
    &&& simple_ident_list(toks.skip(3), k, strict)
    &&& toks[2 * k + 3].kind == TokenKind::Punctuator(Punctuator::OpenBlock)
    &&& toks[2 * k + 4].kind == TokenKind::Punctuator(Punctuator::CloseBlock)
}

/// Whether the buffered tokens begin with an anonymous generator
/// expression whose parameter list is `k` plain identifier names and
/// whose body is exactly the `"use strict"` directive:
/// `function* (a1, ..., ak) { "use strict" ; }`.
pub open spec fn directive_generator_form(toks: Seq<Token>, k: int) -> bool {
    &&& toks.len() >= 2 * k + 7
    &&& toks[0].kind == TokenKind::Keyword(Keyword::Function)
    &&& toks[1].kind == TokenKind::Punctuator(Punctuator::Mul)
    &&& toks[2].kind == TokenKind::Punctuator(Punctuator::OpenParen)
    &&& simple_ident_list(toks.skip(3), k, false)
    &&& toks[2 * k + 3].kind == TokenKind::Punctuator(Punctuator::OpenBlock)
    &&& (toks[2 * k + 4].kind matches TokenKind::StringLiteral(sym) && sym.id == SYM_USE_STRICT)
    &&& toks[2 * k + 5].kind == TokenKind::Punctuator(Punctuator::Semicolon)
    &&& toks[2 * k + 6].kind == TokenKind::Punctuator(Punctuator::CloseBlock)
}

/// The member-access expression that a leading `super . name` parses to.
pub open spec fn super_dot_expr(toks: Seq<Token>) -> Expression {
    Expression::SuperPropertyAccess(SuperPropertyAccess {
        field: Identifier { sym: ident_sym(toks[2].kind), span: toks[2].span },
        span: crate::span::Span { start: toks[0].span.start, end: toks[2].span.end },
    })
}

/// Whether the buffered tokens begin with the statement `super . name ;`.
pub open spec fn super_statement_form(toks: Seq<Token>) -> bool {
    &&& toks.len() >= 4
    &&& toks[0].kind == TokenKind::Keyword(Keyword::Super)
    &&& toks[1].kind == TokenKind::Punctuator(Punctuator::Dot)
    &&& toks[2].kind is IdentifierName
    &&& toks[3].kind == TokenKind::Punctuator(Punctuator::Semicolon)
}

/// Whether a formal parameter is the destructuring pattern `{ a }` for
/// the identifier carried by the given token: a single shorthand
/// property, no default, not the rest parameter.
pub open spec fn single_name_pattern_param(p: crate::function::FormalParameter, t: Token) -> bool {
    &&& (p.variable.binding matches crate::ast::Binding::Pattern(crate::ast::Pattern::Object(op))
        && op.elements@.len() == 1 && op.elements@[0]
        == (crate::ast::ObjectPatternElement::SingleName {
        name: Identifier { sym: ident_sym(t.kind), span: t.span },
        ident: Identifier { sym: ident_sym(t.kind), span: t.span },
        default_init: None,
    }))
    &&& p.variable.init is None
    &&& p.is_rest_param == false
}

/// A token sequence forms a simple identifier list for at most one
/// count: the closing parenthesis fixes where the list ends.
pub proof fn lemma_simple_ident_list_unique(toks: Seq<Token>, strict: bool, k1: int, k2: int)
    requires
        simple_ident_list(toks, k1, strict),
        simple_ident_list(toks, k2, strict),
    ensures
        k1 == k2,
{
    if k1 < k2 {
        assert(toks[2 * k1 - 1].kind == TokenKind::Punctuator(Punctuator::Comma));
        assert(false);
    }
    if k2 < k1 {
        assert(toks[2 * k2 - 1].kind == TokenKind::Punctuator(Punctuator::Comma));
        assert(false);
    }
}

/// Whether a token is an atomic expression: an identifier reference or
/// a literal.
pub open spec fn is_atom(k: TokenKind) -> bool {
    ||| k is IdentifierName
    ||| k is NumericLiteral
    ||| k is StringLiteral
    ||| k is BooleanLiteral
    ||| k is NullLiteral
}

/// The expression an atomic token parses to.
pub open spec fn atom_expr(t: Token) -> Expression {
    match t.kind {
        TokenKind::IdentifierName(s) => Expression::Identifier(
            Identifier { sym: s, span: t.span },
        ),
        TokenKind::NumericLiteral(v) => Expression::Literal(
            Literal { kind: LiteralKind::Int(v), span: t.span },
        ),
        TokenKind::StringLiteral(s) => Expression::Literal(
            Literal { kind: LiteralKind::String(s), span: t.span },
        ),
        TokenKind::BooleanLiteral(b) => Expression::Literal(
            Literal { kind: LiteralKind::Bool(b), span: t.span },
        ),
        _ => Expression::Literal(Literal { kind: LiteralKind::Null, span: t.span }),
    }
}

/// Whether a token always ends an assignment expression: it neither
/// continues a member access nor begins an assignment operator.
pub open spec fn ends_expression(k: TokenKind) -> bool {
    ||| k == TokenKind::Punctuator(Punctuator::Semicolon)
    ||| k == TokenKind::Punctuator(Punctuator::CloseParen)
    ||| k == TokenKind::Punctuator(Punctuator::CloseBracket)
    ||| k == TokenKind::Punctuator(Punctuator::CloseBlock)
    ||| k == TokenKind::Punctuator(Punctuator::Comma)
    ||| k == TokenKind::Punctuator(Punctuator::Colon)
}

/// Skipping twice skips the sum.
pub proof fn lemma_skip_skip(s: Seq<Token>, a: int, b: int)
    requires
        0 <= a,
        0 <= b,
        a + b <= s.len(),
    ensures
        s.skip(a).skip(b) =~= s.skip(a + b),
{
    assert forall|i: int|
        0 <= i < s.skip(a).skip(b).len() implies (#[trigger] s.skip(a).skip(b)[i]) == s.skip(
        a + b,
    )[i] by {
        assert(s.skip(a)[b + i] == s[a + b + i]);
    }
}

/// What every production parser guarantees of a cursor/interner pair: both
/// stay well formed, interned names stay valid, the source is untouched,
/// and the unconsumed input never grows.
pub open spec fn parse_step(c0: Cursor, c1: Cursor, i0: Interner, i1: Interner) -> bool {
    &&& c1.wf()
    &&& i1.wf()
    &&& interner_extends(i0, i1)
    &&& c1.src_view() == c0.src_view()
    &&& c1.remaining() <= c0.remaining()
}

/// The preloaded handle a reserved word resolves to when used as a name.
pub open spec fn keyword_sym_id(k: Keyword) -> usize {
    match k {
        Keyword::Function => SYM_FUNCTION,
        Keyword::Const => SYM_CONST,
        Keyword::Let => SYM_LET,
        Keyword::Yield => SYM_YIELD,
        Keyword::Await => SYM_AWAIT,
        Keyword::Async => SYM_ASYNC,
        Keyword::Of => SYM_OF,
        Keyword::Super => SYM_SUPER,
    }
}

/// The interned name of a reserved word, for the positions where a
/// reserved word is read as a plain name.
pub fn keyword_sym(k: Keyword) -> (r: Sym)
    ensures
        r.id == keyword_sym_id(k),
{
    match k {
        Keyword::Function => Sym::new(SYM_FUNCTION),
        Keyword::Const => Sym::new(SYM_CONST),
        Keyword::Let => Sym::new(SYM_LET),
        Keyword::Yield => Sym::new(SYM_YIELD),
        Keyword::Await => Sym::new(SYM_AWAIT),
        Keyword::Async => Sym::new(SYM_ASYNC),
        Keyword::Of => Sym::new(SYM_OF),
        Keyword::Super => Sym::new(SYM_SUPER),
    }
}

/// Parses a complete script. The result is strict exactly when the
/// script's directive prologue declares `"use strict"`, and holds no
/// object literal with a cover-initialized name that was never
/// reclassified as a destructuring pattern.
pub fn parse_script(source: Vec<u8>, interner: &mut Interner) -> (r: Result<
    crate::ast::StatementList,
    Error,
>)
    requires
        old(interner).wf(),
        source@.len() + 2 < 0x1_0000_0000,
    ensures
        final(interner).wf(),
        interner_extends(*old(interner), *final(interner)),
        r matches Ok(sl) ==> sl.strict == ops::prologue_has_use_strict(sl.statements@),
        r matches Ok(sl) ==> !ops::items_contain(
            sl.statements,
            ops::ContainsSymbol::InvalidCoverInitializedName,
            sl.statements@.len() as int,
        ),
        source@.len() == 0 ==> (r matches Ok(sl) && sl.statements@.len() == 0 && sl.strict
            == false),
        (source@.len() == 1 && source@[0] == 59) ==> (r matches Ok(sl) && sl.statements@.len()
            == 1 && sl.statements@[0] == crate::ast::StatementListItem::Statement(
            crate::ast::Statement::Empty,
        ) && sl.strict == false),
{
    let ghost pg = source@.len() == 1 && source@[0] == 59;
    let depth = 64 + 16 * (source.len() as u64);
    let mut cursor = Cursor::new(source);
    let first = cursor.peek(0, interner);
    proof {
        if pg {
            assert(first matches Ok(Some(t)) && t.kind == TokenKind::Punctuator(
                Punctuator::Semicolon,
            ));
            assert(cursor.lookahead().len() == 1);
            assert(cursor.lex_pos() == cursor.src_view().len());
        }
    }
    let sl = match (crate::parse::StatementListParser::new(false, false, false, false)).parse(
        &mut cursor,
        interner,
        depth,
    ) {
        Ok(sl) => sl,
        Err(e) => {
            proof {
                if pg {
                    assert(false);
                }
            }
            return Err(e);
        },
    };
    if ops::statement_items_contain(
        &sl.statements,
        ops::ContainsSymbol::InvalidCoverInitializedName,
    ) {
        proof {
            if pg {
                assert(!ops::items_contain(
                    sl.statements,
                    ops::ContainsSymbol::InvalidCoverInitializedName,
                    0,
                ));
                assert(!ops::items_contain(
                    sl.statements,
                    ops::ContainsSymbol::InvalidCoverInitializedName,
                    1,
                ));
                assert(false);
            }
        }
        return Err(Error::early(
            Position::new(1, 1),
            "invalid object literal in statement list",
        ));
    }
    Ok(sl)
}

/// Parses a complete module. Module code is strict from the outset and
/// reads `await` as a keyword at its top level.
pub fn parse_module(source: Vec<u8>, interner: &mut Interner) -> (r: Result<
    crate::ast::StatementList,
    Error,
>)
    requires
        old(interner).wf(),
        source@.len() + 2 < 0x1_0000_0000,
    ensures
        final(interner).wf(),
        interner_extends(*old(interner), *final(interner)),
        r matches Ok(sl) ==> sl.strict == true,
        r matches Ok(sl) ==> !ops::items_contain(
            sl.statements,
            ops::ContainsSymbol::InvalidCoverInitializedName,
            sl.statements@.len() as int,
        ),
        source@.len() == 0 ==> (r matches Ok(sl) && sl.statements@.len() == 0),
        (source@.len() == 1 && source@[0] == 59) ==> (r matches Ok(sl) && sl.statements@.len()
            == 1 && sl.statements@[0] == crate::ast::StatementListItem::Statement(
            crate::ast::Statement::Empty,
        ) && sl.strict == true),
{
    let ghost pg = source@.len() == 1 && source@[0] == 59;
    let depth = 64 + 16 * (source.len() as u64);
    let mut cursor = Cursor::new(source);
    cursor.set_strict(true);
    let first = cursor.peek(0, interner);
    proof {
        if pg {
            assert(first matches Ok(Some(t)) && t.kind == TokenKind::Punctuator(
                Punctuator::Semicolon,
            ));
            assert(cursor.lookahead().len() == 1);
            assert(cursor.lex_pos() == cursor.src_view().len());
        }
    }
    let sl = match (crate::parse::StatementListParser::new(false, true, false, true)).parse(
        &mut cursor,
        interner,
        depth,
    ) {
        Ok(sl) => sl,
        Err(e) => {
            proof {
                if pg {
                    assert(false);
                }
            }
            return Err(e);
        },
    };
    if ops::statement_items_contain(
        &sl.statements,
        ops::ContainsSymbol::InvalidCoverInitializedName,
    ) {
        proof {
            if pg {
                assert(!ops::items_contain(
                    sl.statements,
                    ops::ContainsSymbol::InvalidCoverInitializedName,
                    0,
                ));
                assert(!ops::items_contain(
                    sl.statements,
                    ops::ContainsSymbol::InvalidCoverInitializedName,
                    1,
                ));
                assert(false);
            }
        }
        return Err(Error::early(
            Position::new(1, 1),
            "invalid object literal in statement list",
        ));
    }
    Ok(sl)
}

/// Rejects a parameter list whose bound names collide with the body's
/// lexically declared names, anchored at the parameter list's start.
pub fn name_in_lexically_declared_names(
    bound: &Vec<Sym>,
    lex: &Vec<Sym>,
    position: Position,
) -> (r: Result<(), Error>)
    ensures
        (r is Ok) <==> !ops::sym_seqs_intersect(bound@, lex@),
{
    if ops::sym_vecs_intersect(bound, lex) {
        Err(Error::early(position, "formal parameter declared in lexically declared names"))
    } else {
        Ok(())
    }
}

} // verus!
