//! Round-trip tests: re-serializing a parsed tree back to source text and
//! re-parsing it yields a structurally equal tree. On sources already in
//! the normalized form the text itself is reproduced, so even the spans
//! agree; on other sources the serialization is idempotent.

use boa_parser::interner::Interner;
use boa_parser::parser::parse_script;
use boa_parser::source_text::statement_list_to_source;

#[test]
fn roundtrip_normalized_sources_are_fixed_points() {
    let sources = [
        "const x = { a: true, b: false };",
        "const a = 1, b = [1, true, null];",
        "({ a: a = 0 } = 0);",
        "([a = 0] = []);",
        "function* gen(a, b) { yield a; };",
        "function* (a, a) {};",
        "\"use strict\"; const x = \"hello\";",
        "const x = { m(a) {}, get g() {}, set s(v) {}, async dive() {}, async * vroom() {} };",
        "a.b.c = 2;",
        "super.x;",
        "let q = /ab+c/gi;",
        "`hello`;",
        "const t = `a ${b} c`;",
        "`${a}${b}`;",
        "const u = `x ${`y`} z`;",
        "const { p: q = 3, ...rest } = { p: 1 };",
    ];
    for src in sources {
        let mut interner = Interner::new();
        let sl1 = parse_script(src.as_bytes().to_vec(), &mut interner)
            .unwrap_or_else(|e| panic!("{src}: {e:?}"));
        let out = statement_list_to_source(&sl1, &interner);
        assert_eq!(
            String::from_utf8(out.clone()).unwrap(),
            src,
            "normalized serialization differs"
        );
        let sl2 = parse_script(out, &mut interner).unwrap();
        assert_eq!(sl1, sl2, "re-parsing the serialization changed the tree: {src}");
    }
}

#[test]
fn roundtrip_serialization_is_idempotent() {
    // sources that are not in normalized form serialize to a fixed point
    let sources = [
        "const   x=1   ;",
        "const x = {\n    a: true,\n    b: false,\n};\n",
        "function*   gen( a , b ) {  yield  a ; } ;",
        "( { a : a = 0 } = 0 ) ;",
    ];
    for src in sources {
        let mut interner = Interner::new();
        let sl1 = parse_script(src.as_bytes().to_vec(), &mut interner)
            .unwrap_or_else(|e| panic!("{src}: {e:?}"));
        let out1 = statement_list_to_source(&sl1, &interner);
        let sl2 = parse_script(out1.clone(), &mut interner).unwrap();
        let out2 = statement_list_to_source(&sl2, &interner);
        assert_eq!(out1, out2, "serialization not idempotent: {src}");
        // node kinds, bound names and derived flags survive; only spans
        // can differ between the two trees
        assert_eq!(sl1.statements.len(), sl2.statements.len());
        assert_eq!(sl1.strict, sl2.strict);
    }
}

#[test]
fn roundtrip_strict_directive_is_kept() {
    let mut interner = Interner::new();
    let src = "\"use strict\"; const x = 1;";
    let sl1 = parse_script(src.as_bytes().to_vec(), &mut interner).unwrap();
    assert!(sl1.strict);
    let out = statement_list_to_source(&sl1, &interner);
    let sl2 = parse_script(out, &mut interner).unwrap();
    assert!(sl2.strict);
    assert_eq!(sl1, sl2);
}
