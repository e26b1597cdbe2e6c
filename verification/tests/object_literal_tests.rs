//! Tests for object literal parsing: plain properties, shorthand
//! properties, spread properties, and every method form.

use boa_parser::ast::{
    Declaration, Expression, Identifier, LexicalDeclaration, Literal, LiteralKind,
    MethodDefinitionKind, ObjectLiteral, ObjectMethodDefinition, PropertyDefinition, Statement,
    StatementList, StatementListItem, Variable,
};
use boa_parser::function::{FormalParameter, FormalParameterList, FormalParameterListFlags,
    FunctionBody};
use boa_parser::interner::{Interner, Sym, SYM_GET, SYM_SET};
use boa_parser::parser::parse_script;
use boa_parser::span::{Position, Span};

fn span4(l1: u32, c1: u32, l2: u32, c2: u32) -> Span {
    Span::new(Position::new(l1, c1), Position::new(l2, c2))
}

fn const_x(interner: &mut Interner, lit: ObjectLiteral, x_span: Span) -> Vec<StatementListItem> {
    let x = interner.get_or_intern(&"x".as_bytes().to_vec());
    vec![StatementListItem::Declaration(Declaration::Lexical(LexicalDeclaration::Const(vec![
        Variable::from_identifier(
            Identifier::new(x, x_span),
            Some(Expression::ObjectLiteral(lit)),
        ),
    ])))]
}

#[test]
fn check_object_literal() {
    let mut interner = Interner::new();
    let a = interner.get_or_intern(&"a".as_bytes().to_vec());
    let b = interner.get_or_intern(&"b".as_bytes().to_vec());
    let src = "const x = {\n    a: true,\n    b: false,\n};\n";
    let sl = parse_script(src.as_bytes().to_vec(), &mut interner).unwrap();
    let object_properties = vec![
        PropertyDefinition::Property(
            Identifier::new(a, span4(2, 5, 2, 6)),
            Expression::Literal(Literal::new(LiteralKind::Bool(true), span4(2, 8, 2, 12))),
        ),
        PropertyDefinition::Property(
            Identifier::new(b, span4(3, 5, 3, 6)),
            Expression::Literal(Literal::new(LiteralKind::Bool(false), span4(3, 8, 3, 13))),
        ),
    ];
    let expected = const_x(
        &mut interner,
        ObjectLiteral::new(object_properties, span4(1, 11, 4, 2)),
        span4(1, 7, 1, 8),
    );
    assert_eq!(sl.statements, expected);
}

#[test]
fn check_object_short_function() {
    let mut interner = Interner::new();
    let a = interner.get_or_intern(&"a".as_bytes().to_vec());
    let b = interner.get_or_intern(&"b".as_bytes().to_vec());
    let src = "const x = {\n    a: true,\n    b() {},\n};\n";
    let sl = parse_script(src.as_bytes().to_vec(), &mut interner).unwrap();
    let object_properties = vec![
        PropertyDefinition::Property(
            Identifier::new(a, span4(2, 5, 2, 6)),
            Expression::Literal(Literal::new(LiteralKind::Bool(true), span4(2, 8, 2, 12))),
        ),
        PropertyDefinition::MethodDefinition(ObjectMethodDefinition::new(
            Identifier::new(b, span4(3, 5, 3, 6)),
            FormalParameterList::default(),
            FunctionBody::new(StatementList::default(), span4(3, 9, 3, 11)),
            MethodDefinitionKind::Ordinary,
        )),
    ];
    let expected = const_x(
        &mut interner,
        ObjectLiteral::new(object_properties, span4(1, 11, 4, 2)),
        span4(1, 7, 1, 8),
    );
    assert_eq!(sl.statements, expected);
}

#[test]
fn check_object_short_function_arguments() {
    let mut interner = Interner::new();
    let a = interner.get_or_intern(&"a".as_bytes().to_vec());
    let b = interner.get_or_intern(&"b".as_bytes().to_vec());
    let test = interner.get_or_intern(&"test".as_bytes().to_vec());
    let src = "const x = {\n    a: true,\n    b(test) {}\n};\n";
    let sl = parse_script(src.as_bytes().to_vec(), &mut interner).unwrap();

    let parameters = FormalParameterList::from_parameters(vec![FormalParameter::new(
        Variable::from_identifier(Identifier::new(test, span4(3, 7, 3, 11)), None),
        false,
    )]);
    assert_eq!(parameters.flags(), FormalParameterListFlags::default());
    assert_eq!(parameters.length(), 1);

    let object_properties = vec![
        PropertyDefinition::Property(
            Identifier::new(a, span4(2, 5, 2, 6)),
            Expression::Literal(Literal::new(LiteralKind::Bool(true), span4(2, 8, 2, 12))),
        ),
        PropertyDefinition::MethodDefinition(ObjectMethodDefinition::new(
            Identifier::new(b, span4(3, 5, 3, 6)),
            parameters,
            FunctionBody::new(StatementList::default(), span4(3, 13, 3, 15)),
            MethodDefinitionKind::Ordinary,
        )),
    ];
    let expected = const_x(
        &mut interner,
        ObjectLiteral::new(object_properties, span4(1, 11, 4, 2)),
        span4(1, 7, 1, 8),
    );
    assert_eq!(sl.statements, expected);
}

#[test]
fn check_object_getter() {
    let mut interner = Interner::new();
    let a = interner.get_or_intern(&"a".as_bytes().to_vec());
    let b = interner.get_or_intern(&"b".as_bytes().to_vec());
    let src = "const x = {\n    a: true,\n    get b() {}\n};\n";
    let sl = parse_script(src.as_bytes().to_vec(), &mut interner).unwrap();
    let object_properties = vec![
        PropertyDefinition::Property(
            Identifier::new(a, span4(2, 5, 2, 6)),
            Expression::Literal(Literal::new(LiteralKind::Bool(true), span4(2, 8, 2, 12))),
        ),
        PropertyDefinition::MethodDefinition(ObjectMethodDefinition::new(
            Identifier::new(b, span4(3, 9, 3, 10)),
            FormalParameterList::default(),
            FunctionBody::new(StatementList::default(), span4(3, 13, 3, 15)),
            MethodDefinitionKind::Getter,
        )),
    ];
    let expected = const_x(
        &mut interner,
        ObjectLiteral::new(object_properties, span4(1, 11, 4, 2)),
        span4(1, 7, 1, 8),
    );
    assert_eq!(sl.statements, expected);
}

#[test]
fn check_object_setter() {
    let mut interner = Interner::new();
    let a = interner.get_or_intern(&"a".as_bytes().to_vec());
    let b = interner.get_or_intern(&"b".as_bytes().to_vec());
    let test = interner.get_or_intern(&"test".as_bytes().to_vec());
    let src = "const x = {\n    a: true,\n    set b(test) {}\n};\n";
    let sl = parse_script(src.as_bytes().to_vec(), &mut interner).unwrap();

    let params = FormalParameterList::from_parameters(vec![FormalParameter::new(
        Variable::from_identifier(Identifier::new(test, span4(3, 11, 3, 15)), None),
        false,
    )]);
    assert_eq!(params.flags(), FormalParameterListFlags::default());
    assert_eq!(params.length(), 1);

    let object_properties = vec![
        PropertyDefinition::Property(
            Identifier::new(a, span4(2, 5, 2, 6)),
            Expression::Literal(Literal::new(LiteralKind::Bool(true), span4(2, 8, 2, 12))),
        ),
        PropertyDefinition::MethodDefinition(ObjectMethodDefinition::new(
            Identifier::new(b, span4(3, 9, 3, 10)),
            params,
            FunctionBody::new(StatementList::default(), span4(3, 17, 3, 19)),
            MethodDefinitionKind::Setter,
        )),
    ];
    let expected = const_x(
        &mut interner,
        ObjectLiteral::new(object_properties, span4(1, 11, 4, 2)),
        span4(1, 7, 1, 8),
    );
    assert_eq!(sl.statements, expected);
}

#[test]
fn check_object_short_function_get() {
    let mut interner = Interner::new();
    let src = "const x = {\n    get() {}\n};\n";
    let sl = parse_script(src.as_bytes().to_vec(), &mut interner).unwrap();
    let object_properties = vec![PropertyDefinition::MethodDefinition(
        ObjectMethodDefinition::new(
            Identifier::new(Sym::new(SYM_GET), span4(2, 5, 2, 8)),
            FormalParameterList::default(),
            FunctionBody::new(StatementList::default(), span4(2, 11, 2, 13)),
            MethodDefinitionKind::Ordinary,
        ),
    )];
    let expected = const_x(
        &mut interner,
        ObjectLiteral::new(object_properties, span4(1, 11, 3, 2)),
        span4(1, 7, 1, 8),
    );
    assert_eq!(sl.statements, expected);
}

#[test]
fn check_object_short_function_set() {
    let mut interner = Interner::new();
    let src = "const x = {\n    set() {}\n};\n";
    let sl = parse_script(src.as_bytes().to_vec(), &mut interner).unwrap();
    let object_properties = vec![PropertyDefinition::MethodDefinition(
        ObjectMethodDefinition::new(
            Identifier::new(Sym::new(SYM_SET), span4(2, 5, 2, 8)),
            FormalParameterList::default(),
            FunctionBody::new(StatementList::default(), span4(2, 11, 2, 13)),
            MethodDefinitionKind::Ordinary,
        ),
    )];
    let expected = const_x(
        &mut interner,
        ObjectLiteral::new(object_properties, span4(1, 11, 3, 2)),
        span4(1, 7, 1, 8),
    );
    assert_eq!(sl.statements, expected);
}

#[test]
fn check_object_shorthand_property_names() {
    let mut interner = Interner::new();
    let a = interner.get_or_intern(&"a".as_bytes().to_vec());
    let x = interner.get_or_intern(&"x".as_bytes().to_vec());
    let src = "const a = true;\nconst x = { a };\n";
    let sl = parse_script(src.as_bytes().to_vec(), &mut interner).unwrap();
    let expected = vec![
        StatementListItem::Declaration(Declaration::Lexical(LexicalDeclaration::Const(vec![
            Variable::from_identifier(
                Identifier::new(a, span4(1, 7, 1, 8)),
                Some(Expression::Literal(Literal::new(
                    LiteralKind::Bool(true),
                    span4(1, 11, 1, 15),
                ))),
            ),
        ]))),
        StatementListItem::Declaration(Declaration::Lexical(LexicalDeclaration::Const(vec![
            Variable::from_identifier(
                Identifier::new(x, span4(2, 7, 2, 8)),
                Some(Expression::ObjectLiteral(ObjectLiteral::new(
                    vec![PropertyDefinition::IdentifierReference(Identifier::new(
                        a,
                        span4(2, 13, 2, 14),
                    ))],
                    span4(2, 11, 2, 16),
                ))),
            ),
        ]))),
    ];
    assert_eq!(sl.statements, expected);
}

#[test]
fn check_object_shorthand_multiple_properties() {
    let mut interner = Interner::new();
    let a = interner.get_or_intern(&"a".as_bytes().to_vec());
    let b = interner.get_or_intern(&"b".as_bytes().to_vec());
    let x = interner.get_or_intern(&"x".as_bytes().to_vec());
    let src = "const a = true;\nconst b = false;\nconst x = { a, b, };\n";
    let sl = parse_script(src.as_bytes().to_vec(), &mut interner).unwrap();
    let expected = vec![
        StatementListItem::Declaration(Declaration::Lexical(LexicalDeclaration::Const(vec![
            Variable::from_identifier(
                Identifier::new(a, span4(1, 7, 1, 8)),
                Some(Expression::Literal(Literal::new(
                    LiteralKind::Bool(true),
                    span4(1, 11, 1, 15),
                ))),
            ),
        ]))),
        StatementListItem::Declaration(Declaration::Lexical(LexicalDeclaration::Const(vec![
            Variable::from_identifier(
                Identifier::new(b, span4(2, 7, 2, 8)),
                Some(Expression::Literal(Literal::new(
                    LiteralKind::Bool(false),
                    span4(2, 11, 2, 16),
                ))),
            ),
        ]))),
        StatementListItem::Declaration(Declaration::Lexical(LexicalDeclaration::Const(vec![
            Variable::from_identifier(
                Identifier::new(x, span4(3, 7, 3, 8)),
                Some(Expression::ObjectLiteral(ObjectLiteral::new(
                    vec![
                        PropertyDefinition::IdentifierReference(Identifier::new(
                            a,
                            span4(3, 13, 3, 14),
                        )),
                        PropertyDefinition::IdentifierReference(Identifier::new(
                            b,
                            span4(3, 16, 3, 17),
                        )),
                    ],
                    span4(3, 11, 3, 20),
                ))),
            ),
        ]))),
    ];
    assert_eq!(sl.statements, expected);
}

#[test]
fn check_object_spread() {
    let mut interner = Interner::new();
    let a = interner.get_or_intern(&"a".as_bytes().to_vec());
    let b = interner.get_or_intern(&"b".as_bytes().to_vec());
    let src = "const x = { a: 1, ...b };";
    let sl = parse_script(src.as_bytes().to_vec(), &mut interner).unwrap();
    let object_properties = vec![
        PropertyDefinition::Property(
            Identifier::new(a, span4(1, 13, 1, 14)),
            Expression::Literal(Literal::new(LiteralKind::Int(1), span4(1, 16, 1, 17))),
        ),
        PropertyDefinition::SpreadObject(Expression::Identifier(Identifier::new(
            b,
            span4(1, 22, 1, 23),
        ))),
    ];
    let expected = const_x(
        &mut interner,
        ObjectLiteral::new(object_properties, span4(1, 11, 1, 25)),
        span4(1, 7, 1, 8),
    );
    assert_eq!(sl.statements, expected);
}

#[test]
fn check_async_method() {
    let mut interner = Interner::new();
    let dive = interner.get_or_intern(&"dive".as_bytes().to_vec());
    let src = "const x = {\n    async dive() {}\n};\n";
    let sl = parse_script(src.as_bytes().to_vec(), &mut interner).unwrap();
    let object_properties = vec![PropertyDefinition::MethodDefinition(
        ObjectMethodDefinition::new(
            Identifier::new(dive, span4(2, 11, 2, 15)),
            FormalParameterList::default(),
            FunctionBody::new(StatementList::default(), span4(2, 18, 2, 20)),
            MethodDefinitionKind::Async,
        ),
    )];
    let expected = const_x(
        &mut interner,
        ObjectLiteral::new(object_properties, span4(1, 11, 3, 2)),
        span4(1, 7, 1, 8),
    );
    assert_eq!(sl.statements, expected);
}

#[test]
fn check_async_generator_method() {
    let mut interner = Interner::new();
    let vroom = interner.get_or_intern(&"vroom".as_bytes().to_vec());
    let src = "const x = {\n    async* vroom() {}\n};\n";
    let sl = parse_script(src.as_bytes().to_vec(), &mut interner).unwrap();
    let object_properties = vec![PropertyDefinition::MethodDefinition(
        ObjectMethodDefinition::new(
            Identifier::new(vroom, span4(2, 12, 2, 17)),
            FormalParameterList::default(),
            FunctionBody::new(StatementList::default(), span4(2, 20, 2, 22)),
            MethodDefinitionKind::AsyncGenerator,
        ),
    )];
    let expected = const_x(
        &mut interner,
        ObjectLiteral::new(object_properties, span4(1, 11, 3, 2)),
        span4(1, 7, 1, 8),
    );
    assert_eq!(sl.statements, expected);
}

#[test]
fn check_async_method_lineterminator() {
    let mut interner = Interner::new();
    let src = "const x = {\n            async\n            dive(){}\n        };\n        ";
    assert!(parse_script(src.as_bytes().to_vec(), &mut interner).is_err());
}

#[test]
fn check_async_gen_method_lineterminator() {
    let mut interner = Interner::new();
    let src = "const x = {\n            async\n            * vroom() {}\n        };\n        ";
    assert!(parse_script(src.as_bytes().to_vec(), &mut interner).is_err());
}

#[test]
fn check_async_ordinary_method() {
    let mut interner = Interner::new();
    let src = "const x = {\n    async() {}\n};\n";
    let sl = parse_script(src.as_bytes().to_vec(), &mut interner).unwrap();
    let async_sym = interner.get_or_intern(&"async".as_bytes().to_vec());
    let object_properties = vec![PropertyDefinition::MethodDefinition(
        ObjectMethodDefinition::new(
            Identifier::new(async_sym, span4(2, 5, 2, 10)),
            FormalParameterList::default(),
            FunctionBody::new(StatementList::default(), span4(2, 13, 2, 15)),
            MethodDefinitionKind::Ordinary,
        ),
    )];
    let expected = const_x(
        &mut interner,
        ObjectLiteral::new(object_properties, span4(1, 11, 3, 2)),
        span4(1, 7, 1, 8),
    );
    assert_eq!(sl.statements, expected);
}

#[test]
fn check_async_property() {
    let mut interner = Interner::new();
    let src = "const x = {\n    async: true\n};\n";
    let sl = parse_script(src.as_bytes().to_vec(), &mut interner).unwrap();
    let async_sym = interner.get_or_intern(&"async".as_bytes().to_vec());
    let object_properties = vec![PropertyDefinition::Property(
        Identifier::new(async_sym, span4(2, 5, 2, 10)),
        Expression::Literal(Literal::new(LiteralKind::Bool(true), span4(2, 12, 2, 16))),
    )];
    let expected = const_x(
        &mut interner,
        ObjectLiteral::new(object_properties, span4(1, 11, 3, 2)),
        span4(1, 7, 1, 8),
    );
    assert_eq!(sl.statements, expected);
}
