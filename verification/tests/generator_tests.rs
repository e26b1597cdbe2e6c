//! Tests for generator expressions and their early-error rules.

use boa_parser::ast::{Expression, Statement, StatementListItem};
use boa_parser::function::GeneratorExpression;
use boa_parser::interner::Interner;
use boa_parser::parser::parse_script;

fn first_generator(src: &str) -> GeneratorExpression {
    let mut interner = Interner::new();
    let sl = parse_script(src.as_bytes().to_vec(), &mut interner).unwrap();
    match sl.statements.into_iter().next().unwrap() {
        StatementListItem::Statement(Statement::Expression(Expression::GeneratorExpression(g))) => {
            g
        },
        other => panic!("expected a generator expression, got {other:?}"),
    }
}

#[test]
fn generator_duplicate_names_tolerated_outside_strict() {
    // a simple parameter list tolerates duplicate names in non-strict code
    let g = first_generator("function* (a, a) {}");
    assert!(g.parameters.flags().has_duplicates);
    assert!(g.parameters.flags().is_simple);
    assert!(g.name.is_none());
    assert!(!g.has_binding_identifier);
}

#[test]
fn generator_duplicate_names_rejected_under_own_directive() {
    let mut interner = Interner::new();
    let src = "function* (a, a) { \"use strict\"; }";
    assert!(parse_script(src.as_bytes().to_vec(), &mut interner).is_err());
}

#[test]
fn generator_duplicate_names_rejected_under_enclosing_strict() {
    let mut interner = Interner::new();
    let src = "\"use strict\"; function* (a, a) {}";
    assert!(parse_script(src.as_bytes().to_vec(), &mut interner).is_err());
}

#[test]
fn generator_nonsimple_duplicates_rejected_unconditionally() {
    // duplicate-equivalent check forced because the list is non-simple,
    // strict mode does not matter
    let mut interner = Interner::new();
    let src = "function* ({a}, {a}) {}";
    assert!(parse_script(src.as_bytes().to_vec(), &mut interner).is_err());
}

#[test]
fn generator_yield_in_parameters_rejected() {
    let mut interner = Interner::new();
    let src = "function* gen(a = yield 1) {}";
    assert!(parse_script(src.as_bytes().to_vec(), &mut interner).is_err());
}

#[test]
fn generator_yield_as_identifier_allowed_outside() {
    // the surrounding scope reads `yield` as an ordinary identifier
    let mut interner = Interner::new();
    let src = "const y = yield;";
    assert!(parse_script(src.as_bytes().to_vec(), &mut interner).is_ok());
}

#[test]
fn generator_eval_name_rejected_in_strict_scope() {
    let mut interner = Interner::new();
    let src = "\"use strict\"; function* eval() {}";
    assert!(parse_script(src.as_bytes().to_vec(), &mut interner).is_err());
}

#[test]
fn generator_arguments_name_rejected_under_own_directive() {
    let mut interner = Interner::new();
    let src = "function* arguments() { \"use strict\"; }";
    assert!(parse_script(src.as_bytes().to_vec(), &mut interner).is_err());
}

#[test]
fn generator_eval_name_accepted_outside_strict() {
    let g = first_generator("function* eval() {}");
    assert!(g.name.is_some());
    assert!(g.has_binding_identifier);
}

#[test]
fn generator_super_in_body_rejected() {
    let mut interner = Interner::new();
    let src = "function* gen() { super.x; }";
    assert!(parse_script(src.as_bytes().to_vec(), &mut interner).is_err());
}

#[test]
fn generator_super_in_parameters_rejected() {
    let mut interner = Interner::new();
    let src = "function* gen(a = super.x) {}";
    assert!(parse_script(src.as_bytes().to_vec(), &mut interner).is_err());
}

#[test]
fn super_inside_method_is_legal() {
    // a method is a valid `super` context, so the generator check must
    // not descend into it
    let mut interner = Interner::new();
    let src = "function* gen() { const o = { m() { super.x; } }; }";
    assert!(parse_script(src.as_bytes().to_vec(), &mut interner).is_ok());
}

#[test]
fn generator_body_may_yield() {
    let g = first_generator("function* gen(a) { yield a; }");
    assert_eq!(g.body.statements.statements.len(), 1);
    assert!(!g.body.statements.strict);
}

#[test]
fn generator_param_lexical_collision_rejected() {
    let mut interner = Interner::new();
    let src = "function* gen(a) { const a = 1; }";
    assert!(parse_script(src.as_bytes().to_vec(), &mut interner).is_err());
}

#[test]
fn generator_rest_parameter_must_be_last() {
    let mut interner = Interner::new();
    assert!(parse_script("function* g(...r) {}".as_bytes().to_vec(), &mut interner).is_ok());
    let mut interner = Interner::new();
    assert!(parse_script("function* g(...r, b) {}".as_bytes().to_vec(), &mut interner).is_err());
    let mut interner = Interner::new();
    assert!(parse_script("function* g(a, ...r, b) {}".as_bytes().to_vec(), &mut interner)
        .is_err());
}

#[test]
fn generator_rest_parameter_rejects_default() {
    let mut interner = Interner::new();
    assert!(parse_script("function* g(...r = 1) {}".as_bytes().to_vec(), &mut interner).is_err());
}

#[test]
fn generator_nonsimple_use_strict_directive_rejected() {
    // a body can only declare "use strict" behind a simple parameter list
    let mut interner = Interner::new();
    let src = "function* g(a = 1) { \"use strict\"; }";
    assert!(parse_script(src.as_bytes().to_vec(), &mut interner).is_err());
    let mut interner = Interner::new();
    let ok = "function* g(a) { \"use strict\"; }";
    assert!(parse_script(ok.as_bytes().to_vec(), &mut interner).is_ok());
}

#[test]
fn generator_body_strict_flag_follows_directive() {
    let g = first_generator("function* gen() { \"use strict\"; }");
    assert!(g.body.statements.strict);
    let g2 = first_generator("function* gen() {}");
    assert!(!g2.body.statements.strict);
}

#[test]
fn getter_takes_no_parameters_setter_takes_one() {
    let mut interner = Interner::new();
    assert!(parse_script("const x = { get g(a) {} };".as_bytes().to_vec(), &mut interner)
        .is_err());
    let mut interner = Interner::new();
    assert!(parse_script("const x = { set s() {} };".as_bytes().to_vec(), &mut interner)
        .is_err());
    let mut interner = Interner::new();
    assert!(parse_script("const x = { set s(a, b) {} };".as_bytes().to_vec(), &mut interner)
        .is_err());
}

#[test]
fn method_duplicate_parameters_always_rejected() {
    // unique formal parameters tolerate no duplicate, strict or not
    let mut interner = Interner::new();
    assert!(parse_script("const x = { m(a, a) {} };".as_bytes().to_vec(), &mut interner)
        .is_err());
}

#[test]
fn generator_method_yield_in_parameters_rejected() {
    let mut interner = Interner::new();
    let src = "const x = { *m(a = yield 1) {} };";
    assert!(parse_script(src.as_bytes().to_vec(), &mut interner).is_err());
}
