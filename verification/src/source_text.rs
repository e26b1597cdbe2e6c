//! Re-serialization of syntax-tree fragments back to source text.
//!
//! The output is normalized: single spaces around braces and operators,
//! one space after commas, statements terminated by `;`. Each writer is
//! specified against a specification of the text it emits, so the whole
//! serialization is pinned down to the byte; re-parsing the output yields
//! a structurally equal tree, with spans differing only where the
//! original spacing differed from the normalized form.

use vstd::prelude::*;
use vstd::string::StringSliceAdditionalSpecFns;
use crate::ast::{
    ArrayLiteral, ArrayPatternElement, AssignOp, AssignTarget, Binding, Declaration, Expression,
    LexicalDeclaration, LiteralKind, MethodDefinitionKind, ObjectLiteral,
    ObjectMethodDefinition, ObjectPatternElement, Pattern, PropertyDefinition, Statement,
    StatementList, StatementListItem, Variable,
};
use crate::function::{FormalParameter, FunctionBody, GeneratorExpression};
use crate::interner::{Interner, Sym};
use crate::template::{TemplateElement, TemplateLiteral};

verus! {

broadcast use vstd::std_specs::vec::group_vec_axioms;

/// The bytes of an ASCII text fragment.
pub open spec fn lit(s: &str) -> Seq<u8> {
    s.spec_bytes()
}

/// The text of an interned name under the given table; a handle the
/// table never produced contributes nothing.
pub open spec fn sym_text(sym: Sym, names: Seq<Seq<u8>>) -> Seq<u8> {
    if sym.id < names.len() {
        names[sym.id as int]
    } else {
        Seq::empty()
    }
}

/// The decimal digits of a positive number.
pub open spec fn nat_digits(v: int) -> Seq<u8>
    decreases v, when v >= 0
{
    if v <= 0 {
        Seq::empty()
    } else {
        nat_digits(v / 10) + seq![(48 + (v % 10)) as u8]
    }
}

/// The decimal text of a non-negative number.
pub open spec fn int_text(v: int) -> Seq<u8> {
    if v == 0 {
        seq![48u8]
    } else {
        nat_digits(v)
    }
}

/// The text of a literal.
pub open spec fn literal_text(k: LiteralKind, names: Seq<Seq<u8>>) -> Seq<u8> {
    match k {
        LiteralKind::String(s) => seq![34u8] + sym_text(s, names) + seq![34u8],
        LiteralKind::Int(v) => if v >= 0 {
            int_text(v as int)
        } else if v == i64::MIN {
            seq![45u8] + nat_digits(i64::MAX as int)
        } else {
            seq![45u8] + nat_digits(-v as int)
        },
        LiteralKind::Bool(b) => if b {
            lit("true")
        } else {
            lit("false")
        },
        LiteralKind::Null => lit("null"),
    }
}

/// The operator text of an assignment operator.
pub open spec fn op_text(op: AssignOp) -> Seq<u8> {
    match op {
        AssignOp::Assign => lit("="),
        AssignOp::Add => lit("+="),
        AssignOp::Sub => lit("-="),
        AssignOp::Mul => lit("*="),
        AssignOp::Div => lit("/="),
        AssignOp::Mod => lit("%="),
        AssignOp::Pow => lit("**="),
        AssignOp::Shl => lit("<<="),
        AssignOp::Shr => lit(">>="),
        AssignOp::Ushr => lit(">>>="),
        AssignOp::And => lit("&="),
        AssignOp::Or => lit("|="),
        AssignOp::Xor => lit("^="),
        AssignOp::BoolAnd => lit("&&="),
        AssignOp::BoolOr => lit("||="),
        AssignOp::Coalesce => lit("??="),
    }
}

/// The method-form prefix of a method definition.
pub open spec fn method_kind_text(k: MethodDefinitionKind) -> Seq<u8> {
    match k {
        MethodDefinitionKind::Ordinary => Seq::empty(),
        MethodDefinitionKind::Getter => lit("get "),
        MethodDefinitionKind::Setter => lit("set "),
        MethodDefinitionKind::Async => lit("async "),
        MethodDefinitionKind::Generator => lit("* "),
        MethodDefinitionKind::AsyncGenerator => lit("async * "),
    }
}

/// The text of one expression.
pub open spec fn expr_text(e: Expression, names: Seq<Seq<u8>>) -> Seq<u8>
    decreases e, 0int,
{
    match e {
        Expression::Identifier(id) => sym_text(id.sym, names),
        Expression::Literal(l) => literal_text(l.kind, names),
        Expression::RegExpLiteral(l) => seq![47u8] + sym_text(l.pattern, names) + seq![47u8]
            + sym_text(l.flags, names),
        Expression::TemplateLiteral(t) => seq![96u8] + template_elems_text(
            t.elements,
            names,
            t.elements@.len() as int,
        ) + seq![96u8],
        Expression::ArrayLiteral(a) => seq![91u8] + array_elems_text(
            a.elements,
            names,
            a.elements@.len() as int,
        ) + seq![93u8],
        Expression::ObjectLiteral(o) => object_text(o, names),
        Expression::Parenthesized(p) => seq![40u8] + expr_text(*p.expression, names)
            + seq![41u8],
        Expression::Assign(a) => target_text(a.lhs, names) + seq![32u8] + op_text(a.op)
            + seq![32u8] + expr_text(*a.rhs, names),
        Expression::Yield(y) => match y.argument {
            Some(arg) => if y.delegate {
                lit("yield* ") + expr_text(*arg, names)
            } else {
                lit("yield ") + expr_text(*arg, names)
            },
            None => lit("yield"),
        },
        Expression::Await(aw) => lit("await ") + expr_text(*aw.argument, names),
        Expression::GeneratorExpression(g) => generator_text(g, names),
        Expression::PropertyAccess(pa) => expr_text(*pa.target, names) + seq![46u8] + sym_text(
            pa.field.sym,
            names,
        ),
        Expression::SuperPropertyAccess(s) => lit("super.") + sym_text(s.field.sym, names),
    }
}

/// The text of the first `n` template elements.
pub open spec fn template_elems_text(v: Vec<TemplateElement>, names: Seq<Seq<u8>>, n: int)
    -> Seq<u8>
    decreases v, n, when 0 <= n <= v@.len()
{
    if 0 < n <= v@.len() {
        template_elems_text(v, names, n - 1) + (match v[n - 1] {
            TemplateElement::String(s) => sym_text(s, names),
            TemplateElement::Expr(e) => lit("${") + expr_text(e, names) + seq![125u8],
        })
    } else {
        Seq::empty()
    }
}

/// The comma-separated text of the first `n` array-literal elements.
pub open spec fn array_elems_text(v: Vec<Option<Expression>>, names: Seq<Seq<u8>>, n: int)
    -> Seq<u8>
    decreases v, n, when 0 <= n <= v@.len()
{
    if 0 < n <= v@.len() {
        let elem = match v[n - 1] {
            Some(e) => expr_text(e, names),
            None => Seq::empty(),
        };
        if n == 1 {
            elem
        } else {
            array_elems_text(v, names, n - 1) + lit(", ") + elem
        }
    } else {
        Seq::empty()
    }
}

/// The text of an object literal, braces included.
pub open spec fn object_text(o: ObjectLiteral, names: Seq<Seq<u8>>) -> Seq<u8>
    decreases o, 2int,
{
    if o.properties@.len() == 0 {
        lit("{}")
    } else {
        lit("{ ") + props_text(o.properties, names, o.properties@.len() as int) + lit(" }")
    }
}

/// The comma-separated text of the first `n` object-literal properties.
pub open spec fn props_text(v: Vec<PropertyDefinition>, names: Seq<Seq<u8>>, n: int) -> Seq<u8>
    decreases v, n, when 0 <= n <= v@.len()
{
    if 0 < n <= v@.len() {
        if n == 1 {
            prop_text(v[0], names)
        } else {
            props_text(v, names, n - 1) + lit(", ") + prop_text(v[n - 1], names)
        }
    } else {
        Seq::empty()
    }
}

/// The text of one object-literal property.
pub open spec fn prop_text(pd: PropertyDefinition, names: Seq<Seq<u8>>) -> Seq<u8>
    decreases pd, 1int,
{
    match pd {
        PropertyDefinition::IdentifierReference(id) => sym_text(id.sym, names),
        PropertyDefinition::Property(name, value) => sym_text(name.sym, names) + lit(": ")
            + expr_text(value, names),
        PropertyDefinition::MethodDefinition(md) => method_text(md, names),
        PropertyDefinition::SpreadObject(e) => lit("...") + expr_text(e, names),
        PropertyDefinition::CoverInitializedName(id, init) => sym_text(id.sym, names) + lit(
            " = ",
        ) + expr_text(init, names),
    }
}

/// The text of one method definition.
pub open spec fn method_text(md: ObjectMethodDefinition, names: Seq<Seq<u8>>) -> Seq<u8>
    decreases md, 0int,
{
    method_kind_text(md.kind) + sym_text(md.name.sym, names) + seq![40u8] + params_text(
        md.parameters.parameters,
        names,
        md.parameters.parameters@.len() as int,
    ) + seq![41u8] + seq![32u8] + body_text(md.body, names)
}

/// The text of an assignment target.
pub open spec fn target_text(t: AssignTarget, names: Seq<Seq<u8>>) -> Seq<u8>
    decreases t, 1int,
{
    match t {
        AssignTarget::Identifier(id) => sym_text(id.sym, names),
        AssignTarget::Access(pa) => expr_text(*pa.target, names) + seq![46u8] + sym_text(
            pa.field.sym,
            names,
        ),
        AssignTarget::SuperAccess(s) => lit("super.") + sym_text(s.field.sym, names),
        AssignTarget::Pattern(p) => pattern_text(p, names),
    }
}

/// The text of a destructuring pattern.
pub open spec fn pattern_text(p: Pattern, names: Seq<Seq<u8>>) -> Seq<u8>
    decreases p, 2int,
{
    match p {
        Pattern::Object(op) => if op.elements@.len() == 0 {
            lit("{}")
        } else {
            lit("{ ") + obj_pat_elems_text(op.elements, names, op.elements@.len() as int) + lit(
                " }",
            )
        },
        Pattern::Array(ap) => seq![91u8] + arr_pat_elems_text(
            ap.elements,
            names,
            ap.elements@.len() as int,
        ) + seq![93u8],
    }
}

/// The text of an optional default initializer.
pub open spec fn default_text(o: Option<Expression>, names: Seq<Seq<u8>>) -> Seq<u8>
    decreases o, 1int,
{
    match o {
        Some(e) => lit(" = ") + expr_text(e, names),
        None => Seq::empty(),
    }
}

/// The comma-separated text of the first `n` object-pattern elements.
pub open spec fn obj_pat_elems_text(v: Vec<ObjectPatternElement>, names: Seq<Seq<u8>>, n: int)
    -> Seq<u8>
    decreases v, n, when 0 <= n <= v@.len()
{
    if 0 < n <= v@.len() {
        if n == 1 {
            obj_pat_elem_text(v[0], names)
        } else {
            obj_pat_elems_text(v, names, n - 1) + lit(", ") + obj_pat_elem_text(v[n - 1], names)
        }
    } else {
        Seq::empty()
    }
}

/// The text of one object-pattern element.
pub open spec fn obj_pat_elem_text(el: ObjectPatternElement, names: Seq<Seq<u8>>) -> Seq<u8>
    decreases el, 2int,
{
    match el {
        ObjectPatternElement::SingleName { name, ident, default_init } => sym_text(
            name.sym,
            names,
        ) + lit(": ") + sym_text(ident.sym, names) + default_text(default_init, names),
        ObjectPatternElement::NestedPattern { name, pattern, default_init } => sym_text(
            name.sym,
            names,
        ) + lit(": ") + pattern_text(pattern, names) + default_text(default_init, names),
        ObjectPatternElement::RestProperty { ident } => lit("...") + sym_text(ident.sym, names),
    }
}

/// The comma-separated text of the first `n` array-pattern elements.
pub open spec fn arr_pat_elems_text(v: Vec<ArrayPatternElement>, names: Seq<Seq<u8>>, n: int)
    -> Seq<u8>
    decreases v, n, when 0 <= n <= v@.len()
{
    if 0 < n <= v@.len() {
        if n == 1 {
            arr_pat_elem_text(v[0], names)
        } else {
            arr_pat_elems_text(v, names, n - 1) + lit(", ") + arr_pat_elem_text(v[n - 1], names)
        }
    } else {
        Seq::empty()
    }
}

/// The text of one array-pattern element.
pub open spec fn arr_pat_elem_text(el: ArrayPatternElement, names: Seq<Seq<u8>>) -> Seq<u8>
    decreases el, 2int,
{
    match el {
        ArrayPatternElement::Elision => Seq::empty(),
        ArrayPatternElement::SingleName { ident, default_init } => sym_text(ident.sym, names)
            + default_text(default_init, names),
        ArrayPatternElement::NestedPattern { pattern, default_init } => pattern_text(
            pattern,
            names,
        ) + default_text(default_init, names),
        ArrayPatternElement::Rest { ident } => lit("...") + sym_text(ident.sym, names),
    }
}

/// The text of one declared variable.
pub open spec fn var_text(v: Variable, names: Seq<Seq<u8>>) -> Seq<u8>
    decreases v, 3int,
{
    (match v.binding {
        Binding::Identifier(id) => sym_text(id.sym, names),
        Binding::Pattern(p) => pattern_text(p, names),
    }) + default_text(v.init, names)
}

/// The comma-separated text of the first `n` declared variables.
pub open spec fn vars_text(v: Vec<Variable>, names: Seq<Seq<u8>>, n: int) -> Seq<u8>
    decreases v, n, when 0 <= n <= v@.len()
{
    if 0 < n <= v@.len() {
        if n == 1 {
            var_text(v[0], names)
        } else {
            vars_text(v, names, n - 1) + lit(", ") + var_text(v[n - 1], names)
        }
    } else {
        Seq::empty()
    }
}

/// The text of one formal parameter.
pub open spec fn param_text(p: FormalParameter, names: Seq<Seq<u8>>) -> Seq<u8>
    decreases p, 4int,
{
    if p.is_rest_param {
        lit("...") + var_text(p.variable, names)
    } else {
        var_text(p.variable, names)
    }
}

/// The parenthesized, comma-separated text of the first `n` formal
/// parameters.
pub open spec fn params_text(v: Vec<FormalParameter>, names: Seq<Seq<u8>>, n: int) -> Seq<u8>
    decreases v, n, when 0 <= n <= v@.len()
{
    if 0 < n <= v@.len() {
        if n == 1 {
            param_text(v[0], names)
        } else {
            params_text(v, names, n - 1) + lit(", ") + param_text(v[n - 1], names)
        }
    } else {
        Seq::empty()
    }
}

/// The braced text of a function body.
pub open spec fn body_text(b: FunctionBody, names: Seq<Seq<u8>>) -> Seq<u8>
    decreases b, 1int,
{
    if b.statements.statements@.len() == 0 {
        lit("{}")
    } else {
        lit("{ ") + items_text(
            b.statements.statements,
            names,
            b.statements.statements@.len() as int,
        ) + lit(" }")
    }
}

/// The text of a generator expression.
pub open spec fn generator_text(g: GeneratorExpression, names: Seq<Seq<u8>>) -> Seq<u8>
    decreases g, 2int,
{
    lit("function* ") + (match g.name {
        Some(id) => sym_text(id.sym, names),
        None => Seq::empty(),
    }) + seq![40u8] + params_text(
        g.parameters.parameters,
        names,
        g.parameters.parameters@.len() as int,
    ) + seq![41u8] + seq![32u8] + body_text(g.body, names)
}

/// The space-separated text of the first `n` statement-list items.
pub open spec fn items_text(v: Vec<StatementListItem>, names: Seq<Seq<u8>>, n: int) -> Seq<u8>
    decreases v, n, when 0 <= n <= v@.len()
{
    if 0 < n <= v@.len() {
        if n == 1 {
            item_text(v[0], names)
        } else {
            items_text(v, names, n - 1) + seq![32u8] + item_text(v[n - 1], names)
        }
    } else {
        Seq::empty()
    }
}

/// The text of one statement-list item, its terminator included.
pub open spec fn item_text(it: StatementListItem, names: Seq<Seq<u8>>) -> Seq<u8>
    decreases it, 5int,
{
    match it {
        StatementListItem::Statement(Statement::Empty) => seq![59u8],
        StatementListItem::Statement(Statement::Expression(e)) => expr_text(e, names)
            + seq![59u8],
        StatementListItem::Declaration(Declaration::Lexical(ld)) => match ld {
            LexicalDeclaration::Const(vars) => lit("const ") + vars_text(
                vars,
                names,
                vars@.len() as int,
            ) + seq![59u8],
            LexicalDeclaration::Let(vars) => lit("let ") + vars_text(
                vars,
                names,
                vars@.len() as int,
            ) + seq![59u8],
        },
    }
}

/// Appends the text of an interned name. A handle the interner never
/// produced contributes nothing.
fn write_sym(out: &mut Vec<u8>, sym: Sym, interner: &Interner)
    requires
        interner.wf(),
    ensures
        final(out)@ == old(out)@ + sym_text(sym, interner.view_names()),
{
    let ghost base = out@;
    let text = match interner.resolve(sym) {
        Some(t) => t,
        None => {
            proof {
                assert(out@ =~= base + sym_text(sym, interner.view_names()));
            }
            return ;
        },
    };
    let n = text.len();
    let mut i: usize = 0;
    while i < n
        invariant
            n == text@.len(),
            i <= n,
            text@ == sym_text(sym, interner.view_names()),
            out@ == base + text@.take(i as int),
        decreases n - i,
    {
        out.push(text[i]);
        proof {
            assert(out@ =~= base + text@.take(i as int + 1));
        }
        i = i + 1;
    }
    proof {
        assert(out@ =~= base + text@);
    }
}

/// Appends the bytes of an ASCII text fragment.
fn write_text(out: &mut Vec<u8>, text: &str)
    ensures
        final(out)@ == old(out)@ + lit(text),
{
    let ghost base = out@;
    let bytes = text.as_bytes();
    let n = bytes.len();
    let mut i: usize = 0;
    while i < n
        invariant
            n == bytes@.len(),
            i <= n,
            bytes@ == lit(text),
            out@ == base + bytes@.take(i as int),
        decreases n - i,
    {
        out.push(bytes[i]);
        proof {
            assert(out@ =~= base + bytes@.take(i as int + 1));
        }
        i = i + 1;
    }
    proof {
        assert(out@ =~= base + bytes@);
    }
}

/// Appends the decimal digits of a positive number.
fn write_digits(out: &mut Vec<u8>, v: i64)
    requires
        v > 0,
    ensures
        final(out)@ == old(out)@ + nat_digits(v as int),
    decreases v,
{
    if v >= 10 {
        write_digits(out, v / 10);
    }
    out.push(48 + ((v % 10) as u8));
    proof {
        assert(nat_digits(v as int) == nat_digits((v as int) / 10) + seq![
            (48 + ((v as int) % 10)) as u8,
        ]);
        assert(out@ =~= old(out)@ + nat_digits(v as int));
    }
}

/// Appends a non-negative integer in decimal.
fn write_int(out: &mut Vec<u8>, v: i64)
    requires
        v >= 0,
    ensures
        final(out)@ == old(out)@ + int_text(v as int),
{
    if v == 0 {
        out.push(48);
        proof {
            assert(out@ =~= old(out)@ + int_text(0));
        }
        return ;
    }
    write_digits(out, v);
}

/// The operator text of an assignment operator.
fn assign_op_str(op: AssignOp) -> (r: &'static str)
    ensures
        lit(r) == op_text(op),
{
    match op {
        AssignOp::Assign => "=",
        AssignOp::Add => "+=",
        AssignOp::Sub => "-=",
        AssignOp::Mul => "*=",
        AssignOp::Div => "/=",
        AssignOp::Mod => "%=",
        AssignOp::Pow => "**=",
        AssignOp::Shl => "<<=",
        AssignOp::Shr => ">>=",
        AssignOp::Ushr => ">>>=",
        AssignOp::And => "&=",
        AssignOp::Or => "|=",
        AssignOp::Xor => "^=",
        AssignOp::BoolAnd => "&&=",
        AssignOp::BoolOr => "||=",
        AssignOp::Coalesce => "??=",
    }
}

/// Appends the source of one expression.
#[verifier::rlimit(100)]
fn write_expression(out: &mut Vec<u8>, e: &Expression, interner: &Interner)
    requires
        interner.wf(),
    ensures
        final(out)@ == old(out)@ + expr_text(*e, interner.view_names()),
    decreases *e, 0int,
{
    let ghost base = out@;
    let ghost names = interner.view_names();
    match e {
        Expression::Identifier(id) => {
            write_sym(out, id.sym, interner);
        },
        Expression::Literal(l) => {
            match l.kind {
                LiteralKind::String(s) => {
                    out.push(34);
                    write_sym(out, s, interner);
                    out.push(34);
                    proof {
                        assert(out@ =~= base + expr_text(*e, names));
                    }
                },
                LiteralKind::Int(v) => {
                    if v >= 0 {
                        write_int(out, v);
                    } else {
                        out.push(45);
                        if v == i64::MIN {
                            // magnitude out of range for negation; the
                            // scanner never produces it
                            write_digits(out, i64::MAX);
                        } else {
                            write_digits(out, -v);
                        }
                        proof {
                            assert(out@ =~= base + expr_text(*e, names));
                        }
                    }
                },
                LiteralKind::Bool(b) => {
                    if b {
                        write_text(out, "true");
                    } else {
                        write_text(out, "false");
                    }
                },
                LiteralKind::Null => {
                    write_text(out, "null");
                },
            }
        },
        Expression::RegExpLiteral(l) => {
            out.push(47);
            write_sym(out, l.pattern, interner);
            out.push(47);
            write_sym(out, l.flags, interner);
            proof {
                assert(out@ =~= base + expr_text(*e, names));
            }
        },
        Expression::TemplateLiteral(t) => {
            out.push(96);
            write_template_elements(out, &t.elements, interner);
            out.push(96);
            proof {
                assert(out@ =~= base + expr_text(*e, names));
            }
        },
        Expression::ArrayLiteral(a) => {
            out.push(91);
            write_array_elements(out, &a.elements, interner);
            out.push(93);
            proof {
                assert(out@ =~= base + expr_text(*e, names));
            }
        },
        Expression::ObjectLiteral(o) => {
            if o.properties.len() == 0 {
                write_text(out, "{}");
                proof {
                    assert(object_text(*o, names) == lit("{}"));
                    assert(out@ =~= base + expr_text(*e, names));
                }
            } else {
                write_text(out, "{ ");
                write_properties(out, &o.properties, interner);
                write_text(out, " }");
                proof {
                    assert(object_text(*o, names) == lit("{ ") + props_text(
                        o.properties,
                        names,
                        o.properties@.len() as int,
                    ) + lit(" }"));
                    assert(out@ =~= base + expr_text(*e, names));
                }
            }
        },
        Expression::Parenthesized(p) => {
            out.push(40);
            write_expression(out, &p.expression, interner);
            out.push(41);
            proof {
                assert(out@ =~= base + expr_text(*e, names));
            }
        },
        Expression::Assign(a) => {
            write_assign_target(out, &a.lhs, interner);
            out.push(32);
            write_text(out, assign_op_str(a.op));
            out.push(32);
            write_expression(out, &a.rhs, interner);
            proof {
                assert(out@ =~= base + expr_text(*e, names));
            }
        },
        Expression::Yield(y) => {
            match &y.argument {
                Some(arg) => {
                    if y.delegate {
                        write_text(out, "yield* ");
                    } else {
                        write_text(out, "yield ");
                    }
                    write_expression(out, arg, interner);
                    proof {
                        assert(out@ =~= base + expr_text(*e, names));
                    }
                },
                None => {
                    write_text(out, "yield");
                },
            }
        },
        Expression::Await(aw) => {
            write_text(out, "await ");
            write_expression(out, &aw.argument, interner);
            proof {
                assert(out@ =~= base + expr_text(*e, names));
            }
        },
        Expression::GeneratorExpression(g) => {
            write_generator(out, g, interner);
        },
        Expression::PropertyAccess(pa) => {
            write_expression(out, &pa.target, interner);
            out.push(46);
            write_sym(out, pa.field.sym, interner);
            proof {
                assert(out@ =~= base + expr_text(*e, names));
            }
        },
        Expression::SuperPropertyAccess(s) => {
            write_text(out, "super.");
            write_sym(out, s.field.sym, interner);
            proof {
                assert(out@ =~= base + expr_text(*e, names));
            }
        },
    }
}

/// Appends the elements of a template literal, the backticks excluded.
fn write_template_elements(out: &mut Vec<u8>, v: &Vec<TemplateElement>, interner: &Interner)
    requires
        interner.wf(),
    ensures
        final(out)@ == old(out)@ + template_elems_text(*v, interner.view_names(), v@.len() as int),
    decreases *v, 0int,
{
    let ghost base = out@;
    let ghost names = interner.view_names();
    let n = v.len();
    let mut i: usize = 0;
    while i < n
        invariant
            n == v@.len(),
            i <= n,
            interner.wf(),
            names == interner.view_names(),
            out@ == base + template_elems_text(*v, names, i as int),
        decreases n - i,
    {
        proof {
            assert(decreases_to!(*v => v[i as int]));
        }
        match &v[i] {
            TemplateElement::String(s) => {
                write_sym(out, *s, interner);
            },
            TemplateElement::Expr(e) => {
                write_text(out, "${");
                write_expression(out, e, interner);
                out.push(125);
            },
        }
        proof {
            assert(out@ =~= base + template_elems_text(*v, names, i as int + 1));
        }
        i = i + 1;
    }
}

/// Appends the comma-separated elements of an array literal.
fn write_array_elements(out: &mut Vec<u8>, v: &Vec<Option<Expression>>, interner: &Interner)
    requires
        interner.wf(),
    ensures
        final(out)@ == old(out)@ + array_elems_text(*v, interner.view_names(), v@.len() as int),
    decreases *v, 0int,
{
    let ghost base = out@;
    let ghost names = interner.view_names();
    let n = v.len();
    let mut i: usize = 0;
    while i < n
        invariant
            n == v@.len(),
            i <= n,
            interner.wf(),
            names == interner.view_names(),
            out@ == base + array_elems_text(*v, names, i as int),
        decreases n - i,
    {
        proof {
            assert(decreases_to!(*v => v[i as int]));
        }
        if i > 0 {
            write_text(out, ", ");
        }
        match &v[i] {
            Some(inner) => {
                write_expression(out, inner, interner);
            },
            None => {},
        }
        proof {
            assert(out@ =~= base + array_elems_text(*v, names, i as int + 1));
        }
        i = i + 1;
    }
}

/// Appends the comma-separated properties of an object literal.
fn write_properties(out: &mut Vec<u8>, v: &Vec<PropertyDefinition>, interner: &Interner)
    requires
        interner.wf(),
    ensures
        final(out)@ == old(out)@ + props_text(*v, interner.view_names(), v@.len() as int),
    decreases *v, 0int,
{
    let ghost base = out@;
    let ghost names = interner.view_names();
    let n = v.len();
    let mut i: usize = 0;
    while i < n
        invariant
            n == v@.len(),
            i <= n,
            interner.wf(),
            names == interner.view_names(),
            out@ == base + props_text(*v, names, i as int),
        decreases n - i,
    {
        proof {
            assert(decreases_to!(*v => v[i as int]));
        }
        if i > 0 {
            write_text(out, ", ");
        }
        write_property(out, &v[i], interner);
        proof {
            assert(out@ =~= base + props_text(*v, names, i as int + 1));
        }
        i = i + 1;
    }
}

/// Appends the source of one object-literal property.
#[verifier::rlimit(100)]
fn write_property(out: &mut Vec<u8>, pd: &PropertyDefinition, interner: &Interner)
    requires
        interner.wf(),
    ensures
        final(out)@ == old(out)@ + prop_text(*pd, interner.view_names()),
    decreases *pd, 1int,
{
    let ghost base = out@;
    let ghost names = interner.view_names();
    match pd {
        PropertyDefinition::IdentifierReference(id) => {
            write_sym(out, id.sym, interner);
        },
        PropertyDefinition::Property(name, value) => {
            write_sym(out, name.sym, interner);
            write_text(out, ": ");
            write_expression(out, value, interner);
            proof {
                assert(out@ =~= base + prop_text(*pd, names));
            }
        },
        PropertyDefinition::MethodDefinition(md) => {
            match md.kind {
                MethodDefinitionKind::Ordinary => {},
                MethodDefinitionKind::Getter => {
                    write_text(out, "get ");
                },
                MethodDefinitionKind::Setter => {
                    write_text(out, "set ");
                },
                MethodDefinitionKind::Async => {
                    write_text(out, "async ");
                },
                MethodDefinitionKind::Generator => {
                    write_text(out, "* ");
                },
                MethodDefinitionKind::AsyncGenerator => {
                    write_text(out, "async * ");
                },
            }
            write_sym(out, md.name.sym, interner);
            out.push(40);
            write_param_vec(out, &md.parameters.parameters, interner);
            out.push(41);
            out.push(32);
            write_body(out, &md.body, interner);
            proof {
                assert(out@ =~= base + prop_text(*pd, names));
            }
        },
        PropertyDefinition::SpreadObject(e) => {
            write_text(out, "...");
            write_expression(out, e, interner);
            proof {
                assert(out@ =~= base + prop_text(*pd, names));
            }
        },
        PropertyDefinition::CoverInitializedName(id, init) => {
            write_sym(out, id.sym, interner);
            write_text(out, " = ");
            write_expression(out, init, interner);
            proof {
                assert(out@ =~= base + prop_text(*pd, names));
            }
        },
    }
}

/// Appends the source of an assignment target.
fn write_assign_target(out: &mut Vec<u8>, t: &AssignTarget, interner: &Interner)
    requires
        interner.wf(),
    ensures
        final(out)@ == old(out)@ + target_text(*t, interner.view_names()),
    decreases *t, 1int,
{
    let ghost base = out@;
    let ghost names = interner.view_names();
    match t {
        AssignTarget::Identifier(id) => {
            write_sym(out, id.sym, interner);
        },
        AssignTarget::Access(pa) => {
            write_expression(out, &pa.target, interner);
            out.push(46);
            write_sym(out, pa.field.sym, interner);
            proof {
                assert(out@ =~= base + target_text(*t, names));
            }
        },
        AssignTarget::SuperAccess(s) => {
            write_text(out, "super.");
            write_sym(out, s.field.sym, interner);
            proof {
                assert(out@ =~= base + target_text(*t, names));
            }
        },
        AssignTarget::Pattern(p) => {
            write_pattern(out, p, interner);
        },
    }
}

/// Appends the source of a destructuring pattern.
fn write_pattern(out: &mut Vec<u8>, p: &Pattern, interner: &Interner)
    requires
        interner.wf(),
    ensures
        final(out)@ == old(out)@ + pattern_text(*p, interner.view_names()),
    decreases *p, 2int,
{
    let ghost base = out@;
    let ghost names = interner.view_names();
    match p {
        Pattern::Object(op) => {
            if op.elements.len() == 0 {
                write_text(out, "{}");
            } else {
                write_text(out, "{ ");
                write_obj_pattern_elements(out, &op.elements, interner);
                write_text(out, " }");
                proof {
                    assert(out@ =~= base + pattern_text(*p, names));
                }
            }
        },
        Pattern::Array(ap) => {
            out.push(91);
            write_arr_pattern_elements(out, &ap.elements, interner);
            out.push(93);
            proof {
                assert(out@ =~= base + pattern_text(*p, names));
            }
        },
    }
}

/// Appends an optional default initializer.
fn write_default(out: &mut Vec<u8>, o: &Option<Expression>, interner: &Interner)
    requires
        interner.wf(),
    ensures
        final(out)@ == old(out)@ + default_text(*o, interner.view_names()),
    decreases *o, 1int,
{
    let ghost base = out@;
    let ghost names = interner.view_names();
    match o {
        Some(e) => {
            write_text(out, " = ");
            write_expression(out, e, interner);
            proof {
                assert(out@ =~= base + default_text(*o, names));
            }
        },
        None => {},
    }
}

/// Appends the comma-separated elements of an object pattern.
fn write_obj_pattern_elements(
    out: &mut Vec<u8>,
    v: &Vec<ObjectPatternElement>,
    interner: &Interner,
)
    requires
        interner.wf(),
    ensures
        final(out)@ == old(out)@ + obj_pat_elems_text(*v, interner.view_names(), v@.len() as int),
    decreases *v, 0int,
{
    let ghost base = out@;
    let ghost names = interner.view_names();
    let n = v.len();
    let mut i: usize = 0;
    while i < n
        invariant
            n == v@.len(),
            i <= n,
            interner.wf(),
            names == interner.view_names(),
            out@ == base + obj_pat_elems_text(*v, names, i as int),
        decreases n - i,
    {
        proof {
            assert(decreases_to!(*v => v[i as int]));
        }
        if i > 0 {
            write_text(out, ", ");
        }
        write_obj_pattern_element(out, &v[i], interner);
        proof {
            assert(out@ =~= base + obj_pat_elems_text(*v, names, i as int + 1));
        }
        i = i + 1;
    }
}

/// Appends one object-pattern element.
fn write_obj_pattern_element(out: &mut Vec<u8>, el: &ObjectPatternElement, interner: &Interner)
    requires
        interner.wf(),
    ensures
        final(out)@ == old(out)@ + obj_pat_elem_text(*el, interner.view_names()),
    decreases *el, 2int,
{
    let ghost base = out@;
    let ghost names = interner.view_names();
    match el {
        ObjectPatternElement::SingleName { name, ident, default_init } => {
            write_sym(out, name.sym, interner);
            write_text(out, ": ");
            write_sym(out, ident.sym, interner);
            write_default(out, default_init, interner);
            proof {
                assert(out@ =~= base + obj_pat_elem_text(*el, names));
            }
        },
        ObjectPatternElement::NestedPattern { name, pattern, default_init } => {
            write_sym(out, name.sym, interner);
            write_text(out, ": ");
            write_pattern(out, pattern, interner);
            write_default(out, default_init, interner);
            proof {
                assert(out@ =~= base + obj_pat_elem_text(*el, names));
            }
        },
        ObjectPatternElement::RestProperty { ident } => {
            write_text(out, "...");
            write_sym(out, ident.sym, interner);
            proof {
                assert(out@ =~= base + obj_pat_elem_text(*el, names));
            }
        },
    }
}

/// Appends the comma-separated elements of an array pattern.
fn write_arr_pattern_elements(
    out: &mut Vec<u8>,
    v: &Vec<ArrayPatternElement>,
    interner: &Interner,
)
    requires
        interner.wf(),
    ensures
        final(out)@ == old(out)@ + arr_pat_elems_text(*v, interner.view_names(), v@.len() as int),
    decreases *v, 0int,
{
    let ghost base = out@;
    let ghost names = interner.view_names();
    let n = v.len();
    let mut i: usize = 0;
    while i < n
        invariant
            n == v@.len(),
            i <= n,
            interner.wf(),
            names == interner.view_names(),
            out@ == base + arr_pat_elems_text(*v, names, i as int),
        decreases n - i,
    {
        proof {
            assert(decreases_to!(*v => v[i as int]));
        }
        if i > 0 {
            write_text(out, ", ");
        }
        write_arr_pattern_element(out, &v[i], interner);
        proof {
            assert(out@ =~= base + arr_pat_elems_text(*v, names, i as int + 1));
        }
        i = i + 1;
    }
}

/// Appends one array-pattern element.
fn write_arr_pattern_element(out: &mut Vec<u8>, el: &ArrayPatternElement, interner: &Interner)
    requires
        interner.wf(),
    ensures
        final(out)@ == old(out)@ + arr_pat_elem_text(*el, interner.view_names()),
    decreases *el, 2int,
{
    let ghost base = out@;
    let ghost names = interner.view_names();
    match el {
        ArrayPatternElement::Elision => {},
        ArrayPatternElement::SingleName { ident, default_init } => {
            write_sym(out, ident.sym, interner);
            write_default(out, default_init, interner);
            proof {
                assert(out@ =~= base + arr_pat_elem_text(*el, names));
            }
        },
        ArrayPatternElement::NestedPattern { pattern, default_init } => {
            write_pattern(out, pattern, interner);
            write_default(out, default_init, interner);
            proof {
                assert(out@ =~= base + arr_pat_elem_text(*el, names));
            }
        },
        ArrayPatternElement::Rest { ident } => {
            write_text(out, "...");
            write_sym(out, ident.sym, interner);
            proof {
                assert(out@ =~= base + arr_pat_elem_text(*el, names));
            }
        },
    }
}

/// Appends the source of one declared variable.
fn write_variable(out: &mut Vec<u8>, v: &Variable, interner: &Interner)
    requires
        interner.wf(),
    ensures
        final(out)@ == old(out)@ + var_text(*v, interner.view_names()),
    decreases *v, 3int,
{
    let ghost base = out@;
    let ghost names = interner.view_names();
    match &v.binding {
        Binding::Identifier(id) => {
            write_sym(out, id.sym, interner);
        },
        Binding::Pattern(p) => {
            write_pattern(out, p, interner);
        },
    }
    write_default(out, &v.init, interner);
    proof {
        assert(out@ =~= base + var_text(*v, names));
    }
}

/// Appends the comma-separated declared variables of a declaration.
fn write_vars(out: &mut Vec<u8>, v: &Vec<Variable>, interner: &Interner)
    requires
        interner.wf(),
    ensures
        final(out)@ == old(out)@ + vars_text(*v, interner.view_names(), v@.len() as int),
    decreases *v, 0int,
{
    let ghost base = out@;
    let ghost names = interner.view_names();
    let n = v.len();
    let mut i: usize = 0;
    while i < n
        invariant
            n == v@.len(),
            i <= n,
            interner.wf(),
            names == interner.view_names(),
            out@ == base + vars_text(*v, names, i as int),
        decreases n - i,
    {
        proof {
            assert(decreases_to!(*v => v[i as int]));
        }
        if i > 0 {
            write_text(out, ", ");
        }
        write_variable(out, &v[i], interner);
        proof {
            assert(out@ =~= base + vars_text(*v, names, i as int + 1));
        }
        i = i + 1;
    }
}

/// Appends the comma-separated formal parameters, parentheses excluded.
fn write_param_vec(out: &mut Vec<u8>, v: &Vec<FormalParameter>, interner: &Interner)
    requires
        interner.wf(),
    ensures
        final(out)@ == old(out)@ + params_text(*v, interner.view_names(), v@.len() as int),
    decreases *v, 0int,
{
    let ghost base = out@;
    let ghost names = interner.view_names();
    let n = v.len();
    let mut i: usize = 0;
    while i < n
        invariant
            n == v@.len(),
            i <= n,
            interner.wf(),
            names == interner.view_names(),
            out@ == base + params_text(*v, names, i as int),
        decreases n - i,
    {
        proof {
            assert(decreases_to!(*v => v[i as int]));
        }
        if i > 0 {
            write_text(out, ", ");
        }
        if v[i].is_rest_param {
            write_text(out, "...");
        }
        write_variable(out, &v[i].variable, interner);
        proof {
            if v[i as int].is_rest_param {
                assert(param_text(v[i as int], names) == lit("...") + var_text(
                    v[i as int].variable,
                    names,
                ));
            } else {
                assert(param_text(v[i as int], names) == var_text(v[i as int].variable, names));
            }
            assert(out@ =~= base + params_text(*v, names, i as int + 1));
        }
        i = i + 1;
    }
}

/// Appends a braced function body.
fn write_body(out: &mut Vec<u8>, body: &FunctionBody, interner: &Interner)
    requires
        interner.wf(),
    ensures
        final(out)@ == old(out)@ + body_text(*body, interner.view_names()),
    decreases *body, 1int,
{
    let ghost base = out@;
    let ghost names = interner.view_names();
    if body.statements.statements.len() == 0 {
        write_text(out, "{}");
        return ;
    }
    write_text(out, "{ ");
    write_items(out, &body.statements.statements, interner);
    write_text(out, " }");
    proof {
        assert(out@ =~= base + body_text(*body, names));
    }
}

/// Appends the source of a generator expression.
fn write_generator(out: &mut Vec<u8>, g: &GeneratorExpression, interner: &Interner)
    requires
        interner.wf(),
    ensures
        final(out)@ == old(out)@ + generator_text(*g, interner.view_names()),
    decreases *g, 2int,
{
    let ghost base = out@;
    let ghost names = interner.view_names();
    write_text(out, "function* ");
    match &g.name {
        Some(id) => {
            write_sym(out, id.sym, interner);
        },
        None => {},
    }
    out.push(40);
    write_param_vec(out, &g.parameters.parameters, interner);
    out.push(41);
    out.push(32);
    write_body(out, &g.body, interner);
    proof {
        assert(out@ =~= base + generator_text(*g, names));
    }
}

/// Appends the space-separated items of a statement list.
fn write_items(out: &mut Vec<u8>, v: &Vec<StatementListItem>, interner: &Interner)
    requires
        interner.wf(),
    ensures
        final(out)@ == old(out)@ + items_text(*v, interner.view_names(), v@.len() as int),
    decreases *v, 0int,
{
    let ghost base = out@;
    let ghost names = interner.view_names();
    let n = v.len();
    let mut i: usize = 0;
    while i < n
        invariant
            n == v@.len(),
            i <= n,
            interner.wf(),
            names == interner.view_names(),
            out@ == base + items_text(*v, names, i as int),
        decreases n - i,
    {
        proof {
            assert(decreases_to!(*v => v[i as int]));
        }
        if i > 0 {
            out.push(32);
        }
        write_item(out, &v[i], interner);
        proof {
            assert(out@ =~= base + items_text(*v, names, i as int + 1));
        }
        i = i + 1;
    }
}

/// Appends the source of one statement-list item, its terminator
/// included.
fn write_item(out: &mut Vec<u8>, it: &StatementListItem, interner: &Interner)
    requires
        interner.wf(),
    ensures
        final(out)@ == old(out)@ + item_text(*it, interner.view_names()),
    decreases *it, 5int,
{
    let ghost base = out@;
    let ghost names = interner.view_names();
    match it {
        StatementListItem::Statement(Statement::Empty) => {
            out.push(59);
            proof {
                assert(out@ =~= base + item_text(*it, names));
            }
        },
        StatementListItem::Statement(Statement::Expression(e)) => {
            write_expression(out, e, interner);
            out.push(59);
            proof {
                assert(out@ =~= base + item_text(*it, names));
            }
        },
        StatementListItem::Declaration(Declaration::Lexical(ld)) => {
            let vars = match ld {
                LexicalDeclaration::Const(vars) => {
                    write_text(out, "const ");
                    vars
                },
                LexicalDeclaration::Let(vars) => {
                    write_text(out, "let ");
                    vars
                },
            };
            write_vars(out, vars, interner);
            out.push(59);
            proof {
                assert(out@ =~= base + item_text(*it, names));
            }
        },
    }
}

/// Re-serializes a statement list to normalized source text: the items'
/// texts, separated by single spaces.
pub fn statement_list_to_source(sl: &StatementList, interner: &Interner) -> (r: Vec<u8>)
    requires
        interner.wf(),
    ensures
        r@ == items_text(sl.statements, interner.view_names(), sl.statements@.len() as int),
{
    let mut out: Vec<u8> = Vec::new();
    write_items(&mut out, &sl.statements, interner);
    proof {
        assert(out@ =~= items_text(
            sl.statements,
            interner.view_names(),
            sl.statements@.len() as int,
        ));
    }
    out
}

/// Re-serializes one expression to normalized source text.
pub fn expression_to_source(e: &Expression, interner: &Interner) -> (r: Vec<u8>)
    requires
        interner.wf(),
    ensures
        r@ == expr_text(*e, interner.view_names()),
{
    let mut out: Vec<u8> = Vec::new();
    write_expression(&mut out, e, interner);
    proof {
        assert(out@ =~= expr_text(*e, interner.view_names()));
    }
    out
}

impl TemplateLiteral {
    /// The template literal's source text: the backtick-delimited
    /// concatenation of the resolved string chunks and the `${`…`}`
    /// wrapped serialized expressions.
    pub fn to_interned_string(&self, interner: &Interner) -> (r: Vec<u8>)
        requires
            interner.wf(),
        ensures
            r@ == seq![96u8] + template_elems_text(
                self.elements,
                interner.view_names(),
                self.elements@.len() as int,
            ) + seq![96u8],
    {
        let mut out: Vec<u8> = Vec::new();
        out.push(96);
        write_template_elements(&mut out, &self.elements, interner);
        out.push(96);
        proof {
            assert(out@ =~= seq![96u8] + template_elems_text(
                self.elements,
                interner.view_names(),
                self.elements@.len() as int,
            ) + seq![96u8]);
        }
        out
    }
}

} // verus!
