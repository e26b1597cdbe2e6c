//! Tests for the symbol interner, the parameter-list flags, the date/time
//! option resolution, the hour-cycle reader, and the for-in iterator
//! opcode model.

use boa_parser::ast::{Binding, Identifier, Variable};
use boa_parser::error::ErrorKind;
use boa_parser::for_in::{CreateForInIterator, IteratorRecord, JsValueKind, VmFrame};
use boa_parser::function::{FormalParameter, FormalParameterList};
use boa_parser::interner::{Interner, Sym, SYM_ARGUMENTS, SYM_EVAL, SYM_USE_STRICT};
use boa_parser::intl::{to_date_time_options, DateTimeOptions, DateTimeReqs, HourCycle};
use boa_parser::parser::parse_script;
use boa_parser::span::{Position, Span};

fn ident(interner: &mut Interner, name: &str) -> Identifier {
    let sym = interner.get_or_intern(&name.as_bytes().to_vec());
    Identifier::new(sym, Span::new(Position::new(1, 1), Position::new(1, 1)))
}

fn empty_options() -> DateTimeOptions {
    DateTimeOptions {
        weekday: None,
        year: None,
        month: None,
        day: None,
        day_period: None,
        hour: None,
        minute: None,
        second: None,
        fractional_second_digits: None,
        date_style: None,
        time_style: None,
    }
}

#[test]
fn interner_handles_are_identity() {
    let mut interner = Interner::new();
    let a1 = interner.get_or_intern(&"gadget".as_bytes().to_vec());
    let a2 = interner.get_or_intern(&"gadget".as_bytes().to_vec());
    let b = interner.get_or_intern(&"widget".as_bytes().to_vec());
    assert_eq!(a1, a2);
    assert_ne!(a1, b);
    assert_eq!(interner.resolve(a1).unwrap(), &"gadget".as_bytes().to_vec());
    assert_eq!(interner.resolve(b).unwrap(), &"widget".as_bytes().to_vec());
    // the well-known names sit at their preloaded handles
    assert_eq!(interner.get_or_intern(&"eval".as_bytes().to_vec()), Sym::new(SYM_EVAL));
    assert_eq!(interner.get_or_intern(&"arguments".as_bytes().to_vec()), Sym::new(SYM_ARGUMENTS));
    assert_eq!(interner.get_or_intern(&"use strict".as_bytes().to_vec()), Sym::new(SYM_USE_STRICT));
}

#[test]
fn parameter_list_flags_follow_shape() {
    let mut interner = Interner::new();
    // simple list with a duplicate
    let params = FormalParameterList::from_parameters(vec![
        FormalParameter::new(Variable::from_identifier(ident(&mut interner, "a"), None), false),
        FormalParameter::new(Variable::from_identifier(ident(&mut interner, "a"), None), false),
    ]);
    assert!(params.flags().is_simple);
    assert!(params.flags().has_duplicates);
    assert!(!params.flags().has_rest_parameter);
    assert!(!params.flags().has_expressions);
    assert_eq!(params.length(), 2);

    // a rest parameter ends the simple shape and the counted length
    let params = FormalParameterList::from_parameters(vec![
        FormalParameter::new(Variable::from_identifier(ident(&mut interner, "a"), None), false),
        FormalParameter::new(Variable::from_identifier(ident(&mut interner, "r"), None), true),
    ]);
    assert!(!params.flags().is_simple);
    assert!(params.flags().has_rest_parameter);
    assert_eq!(params.length(), 1);

    // a default initializer ends the simple shape too
    let init = boa_parser::ast::Expression::Literal(boa_parser::ast::Literal::new(
        boa_parser::ast::LiteralKind::Int(1),
        Span::new(Position::new(1, 1), Position::new(1, 2)),
    ));
    let params = FormalParameterList::from_parameters(vec![FormalParameter::new(
        Variable::from_identifier(ident(&mut interner, "a"), Some(init)),
        false,
    )]);
    assert!(!params.flags().is_simple);
    assert!(params.flags().has_expressions);
    assert_eq!(params.length(), 0);

    match &params.parameters[0].variable.binding {
        Binding::Identifier(_) => {},
        Binding::Pattern(_) => panic!("expected a plain name"),
    }
}

#[test]
fn error_kinds_and_positions_are_reported() {
    let mut interner = Interner::new();
    let err = parse_script("const ;".as_bytes().to_vec(), &mut interner).unwrap_err();
    assert_eq!(err.kind, ErrorKind::UnexpectedToken);
    assert_eq!(err.position, Position::new(1, 7));

    let err = parse_script("const x = \"abc".as_bytes().to_vec(), &mut interner).unwrap_err();
    assert_eq!(err.kind, ErrorKind::UnterminatedConstruct);

    let err = parse_script("const x = 1e9;".as_bytes().to_vec(), &mut interner).unwrap_err();
    assert_eq!(err.kind, ErrorKind::TokenError);

    let err =
        parse_script("function* (a, a) { \"use strict\"; }".as_bytes().to_vec(), &mut interner)
            .unwrap_err();
    assert_eq!(err.kind, ErrorKind::EarlyError);
    // the early error is anchored at the parameter list, not at the
    // top of the construct
    assert_eq!(err.position, Position::new(1, 12));
}

#[test]
fn date_time_options_fill_defaults_when_nothing_is_requested() {
    let out =
        to_date_time_options(empty_options(), DateTimeReqs::AnyAll, DateTimeReqs::AnyAll).unwrap();
    let numeric = "numeric".as_bytes().to_vec();
    assert_eq!(out.year, Some(numeric.clone()));
    assert_eq!(out.month, Some(numeric.clone()));
    assert_eq!(out.day, Some(numeric.clone()));
    assert_eq!(out.hour, Some(numeric.clone()));
    assert_eq!(out.minute, Some(numeric.clone()));
    assert_eq!(out.second, Some(numeric.clone()));
    assert_eq!(out.weekday, None);
    assert_eq!(out.day_period, None);
}

#[test]
fn date_time_options_keep_requested_fields() {
    let mut options = empty_options();
    options.month = Some("long".as_bytes().to_vec());
    let out = to_date_time_options(options, DateTimeReqs::Date, DateTimeReqs::Date).unwrap();
    // a requested date component was present, so no defaults apply
    assert_eq!(out.month, Some("long".as_bytes().to_vec()));
    assert_eq!(out.year, None);
    assert_eq!(out.day, None);
    assert_eq!(out.hour, None);

    // a time component does not count for a date request
    let mut options = empty_options();
    options.hour = Some("numeric".as_bytes().to_vec());
    let out = to_date_time_options(options, DateTimeReqs::Date, DateTimeReqs::Date).unwrap();
    assert_eq!(out.year, Some("numeric".as_bytes().to_vec()));
    assert_eq!(out.minute, None);
}

#[test]
fn date_time_options_reject_contradicting_styles() {
    let mut options = empty_options();
    options.time_style = Some("full".as_bytes().to_vec());
    assert!(to_date_time_options(options, DateTimeReqs::Date, DateTimeReqs::Date).is_err());

    let mut options = empty_options();
    options.date_style = Some("full".as_bytes().to_vec());
    assert!(to_date_time_options(options, DateTimeReqs::Time, DateTimeReqs::Time).is_err());

    // a style property also suppresses the defaults
    let mut options = empty_options();
    options.date_style = Some("full".as_bytes().to_vec());
    let out = to_date_time_options(options, DateTimeReqs::Date, DateTimeReqs::AnyAll).unwrap();
    assert_eq!(out.year, None);
    assert_eq!(out.hour, None);
    assert_eq!(out.date_style, Some("full".as_bytes().to_vec()));
}

#[test]
fn hour_cycle_reads_exactly_three_values() {
    assert_eq!(HourCycle::from_value(&"h11".as_bytes().to_vec()), Ok(HourCycle::H11));
    assert_eq!(HourCycle::from_value(&"h12".as_bytes().to_vec()), Ok(HourCycle::H12));
    assert_eq!(HourCycle::from_value(&"h23".as_bytes().to_vec()), Ok(HourCycle::H23));
    assert!(HourCycle::from_value(&"h24".as_bytes().to_vec()).is_err());
    assert!(HourCycle::from_value(&"".as_bytes().to_vec()).is_err());
}

#[test]
fn for_in_iterator_operation_converts_and_pushes() {
    let mut frame = VmFrame {
        registers: vec![
            JsValueKind::Object(7),
            JsValueKind::Undefined,
            JsValueKind::Null,
            JsValueKind::Integer(3),
        ],
        iterators: vec![],
        next_object_id: 100,
    };
    // an object converts to itself
    CreateForInIterator::operation(0, &mut frame).unwrap();
    assert_eq!(frame.iterators, vec![IteratorRecord { iterator: 7, has_next_method: true }]);
    assert_eq!(frame.next_object_id, 100);

    // undefined and null convert to no object
    assert!(CreateForInIterator::operation(1, &mut frame).is_err());
    assert!(CreateForInIterator::operation(2, &mut frame).is_err());
    assert_eq!(frame.iterators.len(), 1);

    // a primitive is wrapped in a fresh object
    CreateForInIterator::operation(3, &mut frame).unwrap();
    assert_eq!(frame.iterators.len(), 2);
    assert_eq!(frame.iterators[1], IteratorRecord { iterator: 100, has_next_method: true });
    assert_eq!(frame.next_object_id, 101);
}

#[test]
fn template_literal_serializes_with_delimiters() {
    let mut interner = Interner::new();
    let chunk = interner.get_or_intern(&"hello ".as_bytes().to_vec());
    let who = ident(&mut interner, "who");
    let lit = boa_parser::template::TemplateLiteral::new(
        vec![
            boa_parser::template::TemplateElement::String(chunk),
            boa_parser::template::TemplateElement::Expr(boa_parser::ast::Expression::Identifier(
                who,
            )),
        ],
        Span::new(Position::new(1, 1), Position::new(1, 15)),
    );
    assert_eq!(lit.elements().len(), 2);
    assert_eq!(lit.span(), Span::new(Position::new(1, 1), Position::new(1, 15)));
    let out = lit.to_interned_string(&interner);
    assert_eq!(String::from_utf8(out).unwrap(), "`hello ${who}`");
}

#[test]
fn module_parsing_is_strict_from_the_outset() {
    let mut interner = Interner::new();
    let sl = boa_parser::parser::parse_module("const x = 1;".as_bytes().to_vec(), &mut interner)
        .unwrap();
    assert!(sl.strict);
    // strict mode applies without a directive: a generator may not be
    // named `eval`
    let mut interner = Interner::new();
    assert!(boa_parser::parser::parse_module(
        "function* eval() {};".as_bytes().to_vec(),
        &mut interner
    )
    .is_err());
}

#[test]
fn strict_assignment_to_eval_is_rejected() {
    let mut interner = Interner::new();
    let src = "\"use strict\"; eval = 1;";
    assert!(parse_script(src.as_bytes().to_vec(), &mut interner).is_err());
    let mut interner = Interner::new();
    let ok = "eval = 1;";
    assert!(parse_script(ok.as_bytes().to_vec(), &mut interner).is_ok());
}

#[test]
fn cover_initialized_name_only_lives_inside_patterns() {
    // `{ a = 0 }` can only be read as a destructuring pattern; as a
    // plain object literal it is rejected after the parse completes
    let mut interner = Interner::new();
    assert!(parse_script("({ a = 0 });".as_bytes().to_vec(), &mut interner).is_err());
    let mut interner = Interner::new();
    assert!(parse_script("({ a = 0 } = 1);".as_bytes().to_vec(), &mut interner).is_ok());
}
