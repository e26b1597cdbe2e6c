//! Tests for primary-expression parsing: string literals and
//! destructuring assignment, valid and invalid forms.

use boa_parser::ast::{
    ArrayLiteral, ArrayPattern, ArrayPatternElement, Assign, AssignOp, AssignTarget, Expression,
    Identifier, Literal, LiteralKind, ObjectPattern, ObjectPatternElement, Parenthesized, Pattern,
    Statement, StatementListItem,
};
use boa_parser::interner::{Interner, Sym, SYM_EMPTY_STRING};
use boa_parser::parser::parse_script;
use boa_parser::span::{Position, Span};

fn sp(l1: u32, c1: u32, l2: u32, c2: u32) -> Span {
    Span::new(Position::new(l1, c1), Position::new(l2, c2))
}

#[test]
fn check_string() {
    // empty string
    let mut interner = Interner::new();
    let sl = parse_script("\"\"".as_bytes().to_vec(), &mut interner).unwrap();
    assert_eq!(
        sl.statements,
        vec![StatementListItem::Statement(Statement::Expression(Expression::Literal(
            Literal::new(LiteralKind::String(Sym::new(SYM_EMPTY_STRING)), sp(1, 1, 1, 3)),
        )))]
    );

    // non-empty string
    let mut interner = Interner::new();
    let hello = interner.get_or_intern(&"hello".as_bytes().to_vec());
    let sl = parse_script("\"hello\"".as_bytes().to_vec(), &mut interner).unwrap();
    assert_eq!(
        sl.statements,
        vec![StatementListItem::Statement(Statement::Expression(Expression::Literal(
            Literal::new(LiteralKind::String(hello), sp(1, 1, 1, 8)),
        )))]
    );
}

#[test]
fn check_destructuring_assignment_object_assignment_operator() {
    let mut interner = Interner::new();
    let a = interner.get_or_intern(&"a".as_bytes().to_vec());
    let sl = parse_script("({ a: a = 0 } = 0);".as_bytes().to_vec(), &mut interner).unwrap();
    let expected = vec![StatementListItem::Statement(Statement::Expression(
        Expression::Parenthesized(Parenthesized::new(
            Expression::Assign(Assign::new(
                AssignOp::Assign,
                AssignTarget::Pattern(Pattern::Object(ObjectPattern::new(
                    vec![ObjectPatternElement::SingleName {
                        name: Identifier::new(a, sp(1, 4, 1, 5)),
                        ident: Identifier::new(a, sp(1, 7, 1, 8)),
                        default_init: Some(Expression::Literal(Literal::new(
                            LiteralKind::Int(0),
                            sp(1, 11, 1, 12),
                        ))),
                    }],
                    sp(1, 2, 1, 14),
                ))),
                Expression::Literal(Literal::new(LiteralKind::Int(0), sp(1, 17, 1, 18))),
            )),
            sp(1, 1, 1, 19),
        )),
    ))];
    assert_eq!(sl.statements, expected);
}

#[test]
fn check_destructuring_assignment_object_invalid_assignment_operators() {
    let sources = [
        "({ a: a &&= 0 } = 0);",
        "({ a: a ||= 0 } = 0);",
        "({ a: a ??= 0 } = 0);",
        "({ a: a *= 0 } = 0);",
        "({ a: a /= 0 } = 0);",
        "({ a: a %= 0 } = 0);",
        "({ a: a += 0 } = 0);",
        "({ a: a -= 0 } = 0);",
        "({ a: a <<= 0 } = 0);",
        "({ a: a >>= 0 } = 0);",
        "({ a: a >>>= 0 } = 0);",
        "({ a: a &= 0 } = 0);",
        "({ a: a ^= 0 } = 0);",
        "({ a: a |= 0 } = 0);",
        "({ a: a **= 0 } = 0);",
    ];
    for src in sources {
        let mut interner = Interner::new();
        assert!(
            parse_script(src.as_bytes().to_vec(), &mut interner).is_err(),
            "expected rejection: {src}"
        );
    }
}

#[test]
fn check_destructuring_assignment_array_assignment_operator() {
    let mut interner = Interner::new();
    let a = interner.get_or_intern(&"a".as_bytes().to_vec());
    let sl = parse_script("([ a = 0 ] = []);".as_bytes().to_vec(), &mut interner).unwrap();
    let expected = vec![StatementListItem::Statement(Statement::Expression(
        Expression::Parenthesized(Parenthesized::new(
            Expression::Assign(Assign::new(
                AssignOp::Assign,
                AssignTarget::Pattern(Pattern::Array(ArrayPattern::new(
                    vec![ArrayPatternElement::SingleName {
                        ident: Identifier::new(a, sp(1, 4, 1, 5)),
                        default_init: Some(Expression::Literal(Literal::new(
                            LiteralKind::Int(0),
                            sp(1, 8, 1, 9),
                        ))),
                    }],
                    sp(1, 2, 1, 11),
                ))),
                Expression::ArrayLiteral(ArrayLiteral::new(vec![], false, sp(1, 14, 1, 16))),
            )),
            sp(1, 1, 1, 17),
        )),
    ))];
    assert_eq!(sl.statements, expected);
}

#[test]
fn check_destructuring_assignment_array_invalid_assignment_operators() {
    let sources = [
        "([ a &&= 0 ] = []);",
        "([ a ||= 0 ] = []);",
        "([ a ??= 0 ] = []);",
        "([ a *= 0 ] = []);",
        "([ a /= 0 ] = []);",
        "([ a %= 0 ] = []);",
        "([ a += 0 ] = []);",
        "([ a -= 0 ] = []);",
        "([ a <<= 0 ] = []);",
        "([ a >>= 0 ] = []);",
        "([ a >>>= 0 ] = []);",
        "([ a &= 0 ] = []);",
        "([ a ^= 0 ] = []);",
        "([ a |= 0 ] = []);",
        "([ a **= 0 ] = []);",
    ];
    for src in sources {
        let mut interner = Interner::new();
        assert!(
            parse_script(src.as_bytes().to_vec(), &mut interner).is_err(),
            "expected rejection: {src}"
        );
    }
}
