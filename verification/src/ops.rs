//! Static-semantics operations.
//!
//! Pure read-only traversals over completed syntax-tree fragments:
//! bound-name extraction, contained-symbol search, lexically-declared-name
//! collection, duplicate detection, and directive-prologue inspection.
//! Each executable function is specified against a recursive specification
//! of the same query and runs right after the relevant fragment completes,
//! not as a separate whole-tree pass.

use vstd::prelude::*;
use crate::ast::{
    ArrayPatternElement, AssignTarget, Binding, Declaration, Expression, LexicalDeclaration,
    LiteralKind, ObjectPatternElement, Pattern, PropertyDefinition, Statement, StatementListItem,
    Variable,
};
use crate::function::{FormalParameter, FormalParameterList, FunctionBody};
use crate::interner::{Sym, SYM_ARGUMENTS, SYM_EVAL, SYM_USE_STRICT};
use crate::template::TemplateElement;

verus! {

broadcast use vstd::std_specs::vec::group_vec_axioms;

/// A construct kind that a contained-symbol search looks for.
#[derive(Debug, Clone, Copy, PartialEq, Eq, Structural)]
pub enum ContainsSymbol {
    /// A `yield`-expression. The search does not descend into nested
    /// function forms, whose own grammar governs `yield`.
    YieldExpression,
    /// An `await`-expression. The search does not descend into nested
    /// function forms, whose own grammar governs `await`.
    AwaitExpression,
    /// A `super` property reference. The search does not descend into
    /// method definitions, where `super` is legal.
    SuperProperty,
    /// A cover-initialized name (`{ a = expr }`) surviving in an object
    /// literal that was never reclassified as a destructuring pattern.
    /// Nested function bodies are checked at their own parse.
    InvalidCoverInitializedName,
}

// ---------------------------------------------------------------------------
// Bound names
// ---------------------------------------------------------------------------

/// Names bound by a binding.
pub open spec fn binding_bound_names(b: Binding) -> Seq<Sym>
    decreases b, 0int,
{
    match b {
        Binding::Identifier(id) => seq![id.sym],
        Binding::Pattern(p) => pattern_bound_names(p),
    }
}

/// Names bound by a destructuring pattern.
pub open spec fn pattern_bound_names(p: Pattern) -> Seq<Sym>
    decreases p, 0int,
{
    match p {
        Pattern::Object(op) => obj_elems_bound_names(op.elements, op.elements@.len() as int),
        Pattern::Array(ap) => arr_elems_bound_names(ap.elements, ap.elements@.len() as int),
    }
}

/// Names bound by the first `n` elements of an object pattern.
pub open spec fn obj_elems_bound_names(v: Vec<ObjectPatternElement>, n: int) -> Seq<Sym>
    decreases v, n, when 0 <= n <= v@.len()
{
    if 0 < n <= v@.len() {
        obj_elems_bound_names(v, n - 1) + obj_elem_bound_names(v[n - 1])
    } else {
        Seq::empty()
    }
}

/// Names bound by one object pattern element.
pub open spec fn obj_elem_bound_names(e: ObjectPatternElement) -> Seq<Sym>
    decreases e, 0int,
{
    match e {
        ObjectPatternElement::SingleName { ident, .. } => seq![ident.sym],
        ObjectPatternElement::NestedPattern { pattern, .. } => pattern_bound_names(pattern),
        ObjectPatternElement::RestProperty { ident } => seq![ident.sym],
    }
}

/// Names bound by the first `n` elements of an array pattern.
pub open spec fn arr_elems_bound_names(v: Vec<ArrayPatternElement>, n: int) -> Seq<Sym>
    decreases v, n, when 0 <= n <= v@.len()
{
    if 0 < n <= v@.len() {
        arr_elems_bound_names(v, n - 1) + arr_elem_bound_names(v[n - 1])
    } else {
        Seq::empty()
    }
}

/// Names bound by one array pattern element.
pub open spec fn arr_elem_bound_names(e: ArrayPatternElement) -> Seq<Sym>
    decreases e, 0int,
{
    match e {
        ArrayPatternElement::Elision => Seq::empty(),
        ArrayPatternElement::SingleName { ident, .. } => seq![ident.sym],
        ArrayPatternElement::NestedPattern { pattern, .. } => pattern_bound_names(pattern),
        ArrayPatternElement::Rest { ident } => seq![ident.sym],
    }
}

/// Names bound by one declared variable.
pub open spec fn var_bound_names(x: Variable) -> Seq<Sym>
    decreases x, 0int,
{
    binding_bound_names(x.binding)
}

/// Names bound by the first `n` variables of a declaration list.
pub open spec fn vars_bound_names(v: Vec<Variable>, n: int) -> Seq<Sym>
    decreases v, n, when 0 <= n <= v@.len()
{
    if 0 < n <= v@.len() {
        vars_bound_names(v, n - 1) + var_bound_names(v[n - 1])
    } else {
        Seq::empty()
    }
}

/// Names bound by one formal parameter.
pub open spec fn param_bound_names(p: FormalParameter) -> Seq<Sym>
    decreases p, 0int,
{
    binding_bound_names(p.variable.binding)
}

/// Names bound by the first `n` formal parameters.
pub open spec fn params_bound_names(v: Vec<FormalParameter>, n: int) -> Seq<Sym>
    decreases v, n, when 0 <= n <= v@.len()
{
    if 0 < n <= v@.len() {
        params_bound_names(v, n - 1) + param_bound_names(v[n - 1])
    } else {
        Seq::empty()
    }
}

/// Appends the names bound by a binding, in source order.
pub fn push_binding_bound_names(b: &Binding, out: &mut Vec<Sym>)
    ensures
        final(out)@ == old(out)@ + binding_bound_names(*b),
    decreases *b, 0int,
{
    match b {
        Binding::Identifier(id) => {
            out.push(id.sym);
            assert(final(out)@ =~= old(out)@ + binding_bound_names(*b));
        },
        Binding::Pattern(p) => {
            push_pattern_bound_names(p, out);
        },
    }
}

/// Appends the names bound by a pattern, in source order.
pub fn push_pattern_bound_names(p: &Pattern, out: &mut Vec<Sym>)
    ensures
        final(out)@ == old(out)@ + pattern_bound_names(*p),
    decreases *p, 0int,
{
    match p {
        Pattern::Object(op) => {
            push_obj_elems_bound_names(&op.elements, out);
        },
        Pattern::Array(ap) => {
            push_arr_elems_bound_names(&ap.elements, out);
        },
    }
}

/// Appends the names bound by the elements of an object pattern.
fn push_obj_elems_bound_names(v: &Vec<ObjectPatternElement>, out: &mut Vec<Sym>)
    ensures
        final(out)@ == old(out)@ + obj_elems_bound_names(*v, v@.len() as int),
    decreases *v, 0int,
{
    let ghost base: Seq<Sym> = out@;
    let n = v.len();
    let mut i: usize = 0;
    while i < n
        invariant
            n == v@.len(),
            i <= n,
            out@ == base + obj_elems_bound_names(*v, i as int),
        decreases n - i,
    {
        proof {
            assert(decreases_to!(*v => v[i as int]));
        }
        match &v[i] {
            ObjectPatternElement::SingleName { ident, .. } => {
                out.push(ident.sym);
            },
            ObjectPatternElement::NestedPattern { pattern, .. } => {
                push_pattern_bound_names(pattern, out);
            },
            ObjectPatternElement::RestProperty { ident } => {
                out.push(ident.sym);
            },
        }
        proof {
            assert(obj_elems_bound_names(*v, i as int + 1) == obj_elems_bound_names(*v, i as int) + obj_elem_bound_names(v[i as int]));
            assert(out@ =~= base + obj_elems_bound_names(*v, i as int + 1));
        }
        i = i + 1;
    }
}

/// Appends the names bound by the elements of an array pattern.
fn push_arr_elems_bound_names(v: &Vec<ArrayPatternElement>, out: &mut Vec<Sym>)
    ensures
        final(out)@ == old(out)@ + arr_elems_bound_names(*v, v@.len() as int),
    decreases *v, 0int,
{
    let ghost base: Seq<Sym> = out@;
    let n = v.len();
    let mut i: usize = 0;
    while i < n
        invariant
            n == v@.len(),
            i <= n,
            out@ == base + arr_elems_bound_names(*v, i as int),
        decreases n - i,
    {
        proof {
            assert(decreases_to!(*v => v[i as int]));
        }
        match &v[i] {
            ArrayPatternElement::Elision => {},
            ArrayPatternElement::SingleName { ident, .. } => {
                out.push(ident.sym);
            },
            ArrayPatternElement::NestedPattern { pattern, .. } => {
                push_pattern_bound_names(pattern, out);
            },
            ArrayPatternElement::Rest { ident } => {
                out.push(ident.sym);
            },
        }
        proof {
            assert(arr_elems_bound_names(*v, i as int + 1) == arr_elems_bound_names(*v, i as int) + arr_elem_bound_names(v[i as int]));
            assert(out@ =~= base + arr_elems_bound_names(*v, i as int + 1));
        }
        i = i + 1;
    }
}

/// The names bound by a formal parameter list, in source order.
pub fn bound_names(params: &FormalParameterList) -> (r: Vec<Sym>)
    ensures
        r@ == params_bound_names(params.parameters, params.parameters@.len() as int),
{
    let mut out: Vec<Sym> = Vec::new();
    let n = params.parameters.len();
    let mut i: usize = 0;
    while i < n
        invariant
            n == params.parameters@.len(),
            i <= n,
            out@ == params_bound_names(params.parameters, i as int),
        decreases n - i,
    {
        push_binding_bound_names(&params.parameters[i].variable.binding, &mut out);
        assert(out@ =~= params_bound_names(params.parameters, i + 1));
        i = i + 1;
    }
    out
}

// ---------------------------------------------------------------------------
// Lexically declared names
// ---------------------------------------------------------------------------

/// Names declared by one statement-list item at the top level of a scope.
/// Only block-scoped declarations contribute.
pub open spec fn item_lex_names(it: StatementListItem) -> Seq<Sym>
    decreases it, 0int,
{
    match it {
        StatementListItem::Statement(_) => Seq::empty(),
        StatementListItem::Declaration(Declaration::Lexical(ld)) => match ld {
            LexicalDeclaration::Const(vars) => vars_bound_names(vars, vars@.len() as int),
            LexicalDeclaration::Let(vars) => vars_bound_names(vars, vars@.len() as int),
        },
    }
}

/// Names declared by the first `n` items of a statement list.
pub open spec fn items_lex_names(v: Vec<StatementListItem>, n: int) -> Seq<Sym>
    decreases v, n, when 0 <= n <= v@.len()
{
    if 0 < n <= v@.len() {
        items_lex_names(v, n - 1) + item_lex_names(v[n - 1])
    } else {
        Seq::empty()
    }
}

/// The block-scoped names a function body declares at its top level.
pub fn lexically_declared_names(body: &FunctionBody) -> (r: Vec<Sym>)
    ensures
        r@ == items_lex_names(
            body.statements.statements,
            body.statements.statements@.len() as int,
        ),
{
    let mut out: Vec<Sym> = Vec::new();
    let items = &body.statements.statements;
    let n = items.len();
    let mut i: usize = 0;
    while i < n
        invariant
            n == items@.len(),
            i <= n,
            out@ == items_lex_names(*items, i as int),
        decreases n - i,
    {
        match &items[i] {
            StatementListItem::Statement(_) => {},
            StatementListItem::Declaration(Declaration::Lexical(ld)) => {
                let vars = match ld {
                    LexicalDeclaration::Const(vars) => vars,
                    LexicalDeclaration::Let(vars) => vars,
                };
                let m = vars.len();
                let mut j: usize = 0;
                while j < m
                    invariant
                        m == vars@.len(),
                        j <= m,
                        out@ == items_lex_names(*items, i as int) + vars_bound_names(
                            *vars,
                            j as int,
                        ),
                    decreases m - j,
                {
                    push_binding_bound_names(&vars[j].binding, &mut out);
                    assert(out@ =~= items_lex_names(*items, i as int) + vars_bound_names(
                        *vars,
                        j + 1,
                    ));
                    j = j + 1;
                }
            },
        }
        assert(out@ =~= items_lex_names(*items, i + 1));
        i = i + 1;
    }
    out
}

// ---------------------------------------------------------------------------
// Duplicates and intersections
// ---------------------------------------------------------------------------

/// Whether a name occurs twice in the sequence.
pub open spec fn sym_seq_has_dup(s: Seq<Sym>) -> bool {
    exists|a: int, b: int| 0 <= a < b < s.len() && s[a] == s[b]
}

/// Whether the two sequences share a name.
pub open spec fn sym_seqs_intersect(a: Seq<Sym>, b: Seq<Sym>) -> bool {
    exists|i: int, j: int| 0 <= i < a.len() && 0 <= j < b.len() && a[i] == b[j]
}

/// Whether the sequence holds `eval` or `arguments`.
pub open spec fn names_have_eval_or_arguments(s: Seq<Sym>) -> bool {
    exists|i: int| 0 <= i < s.len() && (s[i].id == SYM_EVAL || s[i].id == SYM_ARGUMENTS)
}

/// Reports whether any name occurs twice in the list.
pub fn sym_vec_has_dup(names: &Vec<Sym>) -> (r: bool)
    ensures
        r == sym_seq_has_dup(names@),
{
    let n = names.len();
    let mut i: usize = 0;
    while i < n
        invariant
            n == names@.len(),
            i <= n,
            forall|a: int, b: int| 0 <= a < b < n && a < i ==> names@[a] != names@[b],
        decreases n - i,
    {
        let mut j: usize = i + 1;
        while j < n
            invariant
                n == names@.len(),
                i < n,
                i < j <= n,
                forall|b: int| i < b < j ==> names@[i as int] != names@[b],
            decreases n - j,
        {
            if names[i] == names[j] {
                assert(sym_seq_has_dup(names@));
                return true;
            }
            j = j + 1;
        }
        i = i + 1;
    }
    false
}

/// Reports whether the two name lists share an entry.
pub fn sym_vecs_intersect(a: &Vec<Sym>, b: &Vec<Sym>) -> (r: bool)
    ensures
        r == sym_seqs_intersect(a@, b@),
{
    let n = a.len();
    let m = b.len();
    let mut i: usize = 0;
    while i < n
        invariant
            n == a@.len(),
            m == b@.len(),
            i <= n,
            forall|x: int, y: int| 0 <= x < i && 0 <= y < m ==> a@[x] != b@[y],
        decreases n - i,
    {
        let mut j: usize = 0;
        while j < m
            invariant
                n == a@.len(),
                m == b@.len(),
                i < n,
                j <= m,
                forall|y: int| 0 <= y < j ==> a@[i as int] != b@[y],
            decreases m - j,
        {
            if a[i] == b[j] {
                assert(sym_seqs_intersect(a@, b@));
                return true;
            }
            j = j + 1;
        }
        i = i + 1;
    }
    false
}

/// Reports whether the list holds `eval` or `arguments`.
pub fn names_contain_eval_or_arguments(names: &Vec<Sym>) -> (r: bool)
    ensures
        r == names_have_eval_or_arguments(names@),
{
    let n = names.len();
    let mut i: usize = 0;
    while i < n
        invariant
            n == names@.len(),
            i <= n,
            forall|k: int| 0 <= k < i ==> names@[k].id != SYM_EVAL && names@[k].id
                != SYM_ARGUMENTS,
        decreases n - i,
    {
        let s = names[i];
        if s.id == SYM_EVAL || s.id == SYM_ARGUMENTS {
            return true;
        }
        i = i + 1;
    }
    false
}

// ---------------------------------------------------------------------------
// Parameter list shape
// ---------------------------------------------------------------------------

/// A simple parameter: a plain name, no default, not a rest parameter.
pub open spec fn param_is_simple(p: FormalParameter) -> bool {
    &&& p.variable.binding is Identifier
    &&& p.variable.init is None
    &&& !p.is_rest_param
}

/// Whether every parameter of the list is simple.
pub open spec fn params_all_simple(v: Vec<FormalParameter>) -> bool {
    forall|i: int| 0 <= i < v@.len() ==> param_is_simple(#[trigger] v[i])
}

/// Whether some parameter is a rest parameter.
pub open spec fn params_any_rest(v: Vec<FormalParameter>) -> bool {
    exists|i: int| 0 <= i < v@.len() && (#[trigger] v[i]).is_rest_param
}

/// Whether some parameter carries a default initializer.
pub open spec fn params_any_init(v: Vec<FormalParameter>) -> bool {
    exists|i: int| 0 <= i < v@.len() && (#[trigger] v[i]).variable.init is Some
}

/// Whether a parameter ends the run counted by the list's length: the
/// first parameter with a default or the rest parameter stops it.
pub open spec fn param_stops_length(p: FormalParameter) -> bool {
    p.variable.init is Some || p.is_rest_param
}

/// The expected-argument count of the parameters from index `n` on.
pub open spec fn params_length_from(v: Vec<FormalParameter>, n: int) -> int
    decreases v@.len() - n, when 0 <= n <= v@.len()
{
    if 0 <= n < v@.len() {
        if param_stops_length(v[n]) {
            0
        } else {
            1 + params_length_from(v, n + 1)
        }
    } else {
        0
    }
}

// ---------------------------------------------------------------------------
// Contained-symbol search
// ---------------------------------------------------------------------------

/// Whether the expression contains the construct, without crossing the
/// boundaries the construct's own grammar governs.
pub open spec fn expr_contains(e: Expression, f: ContainsSymbol) -> bool
    decreases e, 0int,
{
    match e {
        Expression::Identifier(_) => false,
        Expression::Literal(_) => false,
        Expression::RegExpLiteral(_) => false,
        Expression::TemplateLiteral(t) => template_elems_contain(
            t.elements,
            f,
            t.elements@.len() as int,
        ),
        Expression::ArrayLiteral(a) => array_elems_contain(
            a.elements,
            f,
            a.elements@.len() as int,
        ),
        Expression::ObjectLiteral(o) => props_contain(
            o.properties,
            f,
            o.properties@.len() as int,
        ),
        Expression::Parenthesized(p) => expr_contains(*p.expression, f),
        Expression::Assign(a) => target_contains(a.lhs, f) || expr_contains(*a.rhs, f),
        Expression::Yield(y) => f == ContainsSymbol::YieldExpression || (match y.argument {
            Some(arg) => expr_contains(*arg, f),
            None => false,
        }),
        Expression::Await(aw) => f == ContainsSymbol::AwaitExpression || expr_contains(
            *aw.argument,
            f,
        ),
        Expression::GeneratorExpression(g) => match f {
            ContainsSymbol::YieldExpression => false,
            ContainsSymbol::AwaitExpression => false,
            ContainsSymbol::SuperProperty => params_list_contains(g.parameters, f)
                || body_contains(g.body, f),
            ContainsSymbol::InvalidCoverInitializedName => false,
        },
        Expression::PropertyAccess(pa) => expr_contains(*pa.target, f),
        Expression::SuperPropertyAccess(_) => f == ContainsSymbol::SuperProperty,
    }
}

/// Whether any of the first `n` template elements contains the construct.
pub open spec fn template_elems_contain(v: Vec<TemplateElement>, f: ContainsSymbol, n: int) -> bool
    decreases v, n, when 0 <= n <= v@.len()
{
    if 0 < n <= v@.len() {
        template_elems_contain(v, f, n - 1) || (match v[n - 1] {
            TemplateElement::String(_) => false,
            TemplateElement::Expr(e) => expr_contains(e, f),
        })
    } else {
        false
    }
}

/// Whether any of the first `n` array-literal elements contains the
/// construct.
pub open spec fn array_elems_contain(v: Vec<Option<Expression>>, f: ContainsSymbol, n: int) -> bool
    decreases v, n, when 0 <= n <= v@.len()
{
    if 0 < n <= v@.len() {
        array_elems_contain(v, f, n - 1) || (match v[n - 1] {
            Some(e) => expr_contains(e, f),
            None => false,
        })
    } else {
        false
    }
}

/// Whether any of the first `n` object-literal properties contains the
/// construct. Method definitions are boundaries: `super` is legal inside a
/// method, and a nested function's own grammar governs `yield`.
pub open spec fn props_contain(v: Vec<PropertyDefinition>, f: ContainsSymbol, n: int) -> bool
    decreases v, n, when 0 <= n <= v@.len()
{
    if 0 < n <= v@.len() {
        props_contain(v, f, n - 1) || (match v[n - 1] {
            PropertyDefinition::IdentifierReference(_) => false,
            PropertyDefinition::Property(_, e) => expr_contains(e, f),
            PropertyDefinition::MethodDefinition(_) => false,
            PropertyDefinition::SpreadObject(e) => expr_contains(e, f),
            PropertyDefinition::CoverInitializedName(_, e) => f
                == ContainsSymbol::InvalidCoverInitializedName || expr_contains(e, f),
        })
    } else {
        false
    }
}

/// Whether an assignment target contains the construct.
pub open spec fn target_contains(t: AssignTarget, f: ContainsSymbol) -> bool
    decreases t, 0int,
{
    match t {
        AssignTarget::Identifier(_) => false,
        AssignTarget::Access(pa) => expr_contains(*pa.target, f),
        AssignTarget::SuperAccess(_) => f == ContainsSymbol::SuperProperty,
        AssignTarget::Pattern(p) => pattern_contains(p, f),
    }
}

/// Whether a destructuring pattern contains the construct.
pub open spec fn pattern_contains(p: Pattern, f: ContainsSymbol) -> bool
    decreases p, 0int,
{
    match p {
        Pattern::Object(op) => obj_pat_elems_contain(op.elements, f, op.elements@.len() as int),
        Pattern::Array(ap) => arr_pat_elems_contain(ap.elements, f, ap.elements@.len() as int),
    }
}

/// Whether any of the first `n` object-pattern elements contains the
/// construct.
pub open spec fn obj_pat_elems_contain(
    v: Vec<ObjectPatternElement>,
    f: ContainsSymbol,
    n: int,
) -> bool
    decreases v, n, when 0 <= n <= v@.len()
{
    if 0 < n <= v@.len() {
        obj_pat_elems_contain(v, f, n - 1) || (match v[n - 1] {
            ObjectPatternElement::SingleName { default_init: Some(e), .. } => expr_contains(e, f),
            ObjectPatternElement::SingleName { .. } => false,
            ObjectPatternElement::NestedPattern { pattern, default_init: Some(e), .. } =>
                pattern_contains(pattern, f) || expr_contains(e, f),
            ObjectPatternElement::NestedPattern { pattern, .. } => pattern_contains(pattern, f),
            ObjectPatternElement::RestProperty { .. } => false,
        })
    } else {
        false
    }
}

/// Whether any of the first `n` array-pattern elements contains the
/// construct.
pub open spec fn arr_pat_elems_contain(
    v: Vec<ArrayPatternElement>,
    f: ContainsSymbol,
    n: int,
) -> bool
    decreases v, n, when 0 <= n <= v@.len()
{
    if 0 < n <= v@.len() {
        arr_pat_elems_contain(v, f, n - 1) || (match v[n - 1] {
            ArrayPatternElement::Elision => false,
            ArrayPatternElement::SingleName { default_init: Some(e), .. } => expr_contains(e, f),
            ArrayPatternElement::SingleName { .. } => false,
            ArrayPatternElement::NestedPattern { pattern, default_init: Some(e), .. } =>
                pattern_contains(pattern, f) || expr_contains(e, f),
            ArrayPatternElement::NestedPattern { pattern, .. } => pattern_contains(pattern, f),
            ArrayPatternElement::Rest { .. } => false,
        })
    } else {
        false
    }
}

/// Whether a declared variable contains the construct, in its pattern's
/// defaults or its initializer.
pub open spec fn var_contains(x: Variable, f: ContainsSymbol) -> bool
    decreases x, 0int,
{
    (match x.binding {
        Binding::Identifier(_) => false,
        Binding::Pattern(p) => pattern_contains(p, f),
    }) || (match x.init {
        Some(e) => expr_contains(e, f),
        None => false,
    })
}

/// Whether any of the first `n` variables contains the construct.
pub open spec fn vars_contain(v: Vec<Variable>, f: ContainsSymbol, n: int) -> bool
    decreases v, n, when 0 <= n <= v@.len()
{
    if 0 < n <= v@.len() {
        vars_contain(v, f, n - 1) || var_contains(v[n - 1], f)
    } else {
        false
    }
}

/// Whether any of the first `n` statement-list items contains the
/// construct.
pub open spec fn items_contain(v: Vec<StatementListItem>, f: ContainsSymbol, n: int) -> bool
    decreases v, n, when 0 <= n <= v@.len()
{
    if 0 < n <= v@.len() {
        items_contain(v, f, n - 1) || (match v[n - 1] {
            StatementListItem::Statement(Statement::Empty) => false,
            StatementListItem::Statement(Statement::Expression(e)) => expr_contains(e, f),
            StatementListItem::Declaration(Declaration::Lexical(ld)) => match ld {
                LexicalDeclaration::Const(vars) => vars_contain(vars, f, vars@.len() as int),
                LexicalDeclaration::Let(vars) => vars_contain(vars, f, vars@.len() as int),
            },
        })
    } else {
        false
    }
}

/// Whether a function body contains the construct.
pub open spec fn body_contains(b: FunctionBody, f: ContainsSymbol) -> bool
    decreases b, 0int,
{
    items_contain(
        b.statements.statements,
        f,
        b.statements.statements@.len() as int,
    )
}

/// Whether any of the first `n` formal parameters contains the construct.
pub open spec fn params_contain(v: Vec<FormalParameter>, f: ContainsSymbol, n: int) -> bool
    decreases v, n, when 0 <= n <= v@.len()
{
    if 0 < n <= v@.len() {
        params_contain(v, f, n - 1) || var_contains(v[n - 1].variable, f)
    } else {
        false
    }
}

/// Whether a formal parameter list contains the construct.
pub open spec fn params_list_contains(l: FormalParameterList, f: ContainsSymbol) -> bool
    decreases l, 0int,
{
    params_contain(l.parameters, f, l.parameters@.len() as int)
}

/// Reports whether the expression contains the construct.
pub fn expression_contains(e: &Expression, f: ContainsSymbol) -> (r: bool)
    ensures
        r == expr_contains(*e, f),
    decreases *e, 0int,
{
    match e {
        Expression::Identifier(_) => false,
        Expression::Literal(_) => false,
        Expression::RegExpLiteral(_) => false,
        Expression::TemplateLiteral(t) => template_vec_contains(&t.elements, f),
        Expression::ArrayLiteral(a) => array_vec_contains(&a.elements, f),
        Expression::ObjectLiteral(o) => props_vec_contains(&o.properties, f),
        Expression::Parenthesized(p) => expression_contains(&p.expression, f),
        Expression::Assign(a) => {
            let in_lhs = assign_target_contains(&a.lhs, f);
            in_lhs || expression_contains(&a.rhs, f)
        },
        Expression::Yield(y) => {
            if f == ContainsSymbol::YieldExpression {
                true
            } else {
                match &y.argument {
                    Some(arg) => expression_contains(arg, f),
                    None => false,
                }
            }
        },
        Expression::Await(aw) => {
            if f == ContainsSymbol::AwaitExpression {
                true
            } else {
                expression_contains(&aw.argument, f)
            }
        },
        Expression::GeneratorExpression(g) => match f {
            ContainsSymbol::YieldExpression => false,
            ContainsSymbol::AwaitExpression => false,
            ContainsSymbol::SuperProperty => {
                let in_params = parameter_list_contains(&g.parameters, f);
                in_params || function_body_contains(&g.body, f)
            },
            ContainsSymbol::InvalidCoverInitializedName => false,
        },
        Expression::PropertyAccess(pa) => expression_contains(&pa.target, f),
        Expression::SuperPropertyAccess(_) => f == ContainsSymbol::SuperProperty,
    }
}

/// Reports whether any template element contains the construct.
fn template_vec_contains(v: &Vec<TemplateElement>, f: ContainsSymbol) -> (r: bool)
    ensures
        r == template_elems_contain(*v, f, v@.len() as int),
    decreases *v, 0int,
{
    let n = v.len();
    let mut found = false;
    let mut i: usize = 0;
    while i < n
        invariant
            n == v@.len(),
            i <= n,
            found == template_elems_contain(*v, f, i as int),
        decreases n - i,
    {
        proof {
            assert(decreases_to!(*v => v[i as int]));
        }
        match &v[i] {
            TemplateElement::String(_) => {},
            TemplateElement::Expr(inner) => {
                if expression_contains(inner, f) {
                    found = true;
                }
            },
        }
        i = i + 1;
    }
    found
}

/// Reports whether any array-literal element contains the construct.
fn array_vec_contains(v: &Vec<Option<Expression>>, f: ContainsSymbol) -> (r: bool)
    ensures
        r == array_elems_contain(*v, f, v@.len() as int),
    decreases *v, 0int,
{
    let n = v.len();
    let mut found = false;
    let mut i: usize = 0;
    while i < n
        invariant
            n == v@.len(),
            i <= n,
            found == array_elems_contain(*v, f, i as int),
        decreases n - i,
    {
        proof {
            assert(decreases_to!(*v => v[i as int]));
        }
        match &v[i] {
            Some(inner) => {
                if expression_contains(inner, f) {
                    found = true;
                }
            },
            None => {},
        }
        i = i + 1;
    }
    found
}

/// Reports whether any object-literal property contains the construct.
fn props_vec_contains(v: &Vec<PropertyDefinition>, f: ContainsSymbol) -> (r: bool)
    ensures
        r == props_contain(*v, f, v@.len() as int),
    decreases *v, 0int,
{
    let n = v.len();
    let mut found = false;
    let mut i: usize = 0;
    while i < n
        invariant
            n == v@.len(),
            i <= n,
            found == props_contain(*v, f, i as int),
        decreases n - i,
    {
        proof {
            assert(decreases_to!(*v => v[i as int]));
        }
        match &v[i] {
            PropertyDefinition::IdentifierReference(_) => {},
            PropertyDefinition::Property(_, inner) => {
                if expression_contains(inner, f) {
                    found = true;
                }
            },
            PropertyDefinition::MethodDefinition(_) => {},
            PropertyDefinition::SpreadObject(inner) => {
                if expression_contains(inner, f) {
                    found = true;
                }
            },
            PropertyDefinition::CoverInitializedName(_, inner) => {
                if f == ContainsSymbol::InvalidCoverInitializedName {
                    found = true;
                } else if expression_contains(inner, f) {
                    found = true;
                }
            },
        }
        i = i + 1;
    }
    found
}

/// Reports whether the assignment target contains the construct.
pub fn assign_target_contains(t: &AssignTarget, f: ContainsSymbol) -> (r: bool)
    ensures
        r == target_contains(*t, f),
    decreases *t, 0int,
{
    match t {
        AssignTarget::Identifier(_) => false,
        AssignTarget::Access(pa) => expression_contains(&pa.target, f),
        AssignTarget::SuperAccess(_) => f == ContainsSymbol::SuperProperty,
        AssignTarget::Pattern(p) => destructuring_pattern_contains(p, f),
    }
}

/// Reports whether the destructuring pattern contains the construct.
pub fn destructuring_pattern_contains(p: &Pattern, f: ContainsSymbol) -> (r: bool)
    ensures
        r == pattern_contains(*p, f),
    decreases *p, 0int,
{
    match p {
        Pattern::Object(op) => obj_pat_vec_contains(&op.elements, f),
        Pattern::Array(ap) => arr_pat_vec_contains(&ap.elements, f),
    }
}

/// Reports whether any object-pattern element contains the construct.
fn obj_pat_vec_contains(v: &Vec<ObjectPatternElement>, f: ContainsSymbol) -> (r: bool)
    ensures
        r == obj_pat_elems_contain(*v, f, v@.len() as int),
    decreases *v, 0int,
{
    let n = v.len();
    let mut found = false;
    let mut i: usize = 0;
    while i < n
        invariant
            n == v@.len(),
            i <= n,
            found == obj_pat_elems_contain(*v, f, i as int),
        decreases n - i,
    {
        proof {
            assert(decreases_to!(*v => v[i as int]));
        }
        match &v[i] {
            ObjectPatternElement::SingleName { default_init: Some(e), .. } => {
                if expression_contains(e, f) {
                    found = true;
                }
            },
            ObjectPatternElement::SingleName { .. } => {},
            ObjectPatternElement::NestedPattern { pattern, default_init: Some(e), .. } => {
                if destructuring_pattern_contains(pattern, f) {
                    found = true;
                }
                if expression_contains(e, f) {
                    found = true;
                }
            },
            ObjectPatternElement::NestedPattern { pattern, .. } => {
                if destructuring_pattern_contains(pattern, f) {
                    found = true;
                }
            },
            ObjectPatternElement::RestProperty { .. } => {},
        }
        i = i + 1;
    }
    found
}

/// Reports whether any array-pattern element contains the construct.
fn arr_pat_vec_contains(v: &Vec<ArrayPatternElement>, f: ContainsSymbol) -> (r: bool)
    ensures
        r == arr_pat_elems_contain(*v, f, v@.len() as int),
    decreases *v, 0int,
{
    let n = v.len();
    let mut found = false;
    let mut i: usize = 0;
    while i < n
        invariant
            n == v@.len(),
            i <= n,
            found == arr_pat_elems_contain(*v, f, i as int),
        decreases n - i,
    {
        proof {
            assert(decreases_to!(*v => v[i as int]));
        }
        match &v[i] {
            ArrayPatternElement::Elision => {},
            ArrayPatternElement::SingleName { default_init: Some(e), .. } => {
                if expression_contains(e, f) {
                    found = true;
                }
            },
            ArrayPatternElement::SingleName { .. } => {},
            ArrayPatternElement::NestedPattern { pattern, default_init: Some(e), .. } => {
                if destructuring_pattern_contains(pattern, f) {
                    found = true;
                }
                if expression_contains(e, f) {
                    found = true;
                }
            },
            ArrayPatternElement::NestedPattern { pattern, .. } => {
                if destructuring_pattern_contains(pattern, f) {
                    found = true;
                }
            },
            ArrayPatternElement::Rest { .. } => {},
        }
        i = i + 1;
    }
    found
}

/// Reports whether the declared variable contains the construct.
pub fn variable_contains(x: &Variable, f: ContainsSymbol) -> (r: bool)
    ensures
        r == var_contains(*x, f),
    decreases *x, 0int,
{
    let in_binding = match &x.binding {
        Binding::Identifier(_) => false,
        Binding::Pattern(p) => destructuring_pattern_contains(p, f),
    };
    in_binding || (match &x.init {
        Some(e) => expression_contains(e, f),
        None => false,
    })
}

/// Reports whether any variable of the list contains the construct.
fn vars_vec_contains(v: &Vec<Variable>, f: ContainsSymbol) -> (r: bool)
    ensures
        r == vars_contain(*v, f, v@.len() as int),
    decreases *v, 0int,
{
    let n = v.len();
    let mut found = false;
    let mut i: usize = 0;
    while i < n
        invariant
            n == v@.len(),
            i <= n,
            found == vars_contain(*v, f, i as int),
        decreases n - i,
    {
        proof {
            assert(decreases_to!(*v => v[i as int]));
        }
        if variable_contains(&v[i], f) {
            found = true;
        }
        i = i + 1;
    }
    found
}

/// Reports whether the formal parameter list contains the construct.
pub fn parameter_list_contains(l: &FormalParameterList, f: ContainsSymbol) -> (r: bool)
    ensures
        r == params_list_contains(*l, f),
    decreases *l, 0int,
{
    params_vec_contains(&l.parameters, f)
}

/// Reports whether any formal parameter contains the construct.
fn params_vec_contains(v: &Vec<FormalParameter>, f: ContainsSymbol) -> (r: bool)
    ensures
        r == params_contain(*v, f, v@.len() as int),
    decreases *v, 0int,
{
    let n = v.len();
    let mut found = false;
    let mut i: usize = 0;
    while i < n
        invariant
            n == v@.len(),
            i <= n,
            found == params_contain(*v, f, i as int),
        decreases n - i,
    {
        proof {
            assert(decreases_to!(*v => v[i as int]));
        }
        if variable_contains(&v[i].variable, f) {
            found = true;
        }
        i = i + 1;
    }
    found
}

/// Reports whether the function body contains the construct.
pub fn function_body_contains(b: &FunctionBody, f: ContainsSymbol) -> (r: bool)
    ensures
        r == body_contains(*b, f),
    decreases *b, 0int,
{
    statement_items_contain(&b.statements.statements, f)
}

/// Reports whether any statement-list item contains the construct.
pub fn statement_items_contain(v: &Vec<StatementListItem>, f: ContainsSymbol) -> (r: bool)
    ensures
        r == items_contain(*v, f, v@.len() as int),
    decreases *v, 0int,
{
    let n = v.len();
    let mut found = false;
    let mut i: usize = 0;
    while i < n
        invariant
            n == v@.len(),
            i <= n,
            found == items_contain(*v, f, i as int),
        decreases n - i,
    {
        proof {
            assert(decreases_to!(*v => v[i as int]));
        }
        match &v[i] {
            StatementListItem::Statement(Statement::Empty) => {},
            StatementListItem::Statement(Statement::Expression(e)) => {
                if expression_contains(e, f) {
                    found = true;
                }
            },
            StatementListItem::Declaration(Declaration::Lexical(ld)) => {
                let vars = match ld {
                    LexicalDeclaration::Const(vars) => vars,
                    LexicalDeclaration::Let(vars) => vars,
                };
                if vars_vec_contains(vars, f) {
                    found = true;
                }
            },
        }
        i = i + 1;
    }
    found
}

/// A run of simple parameters contains no searched construct: a plain
/// name holds no expression at all.
pub proof fn lemma_simple_params_contain_nothing(
    v: Vec<FormalParameter>,
    f: ContainsSymbol,
    n: int,
)
    requires
        0 <= n <= v@.len(),
        forall|j: int| 0 <= j < n ==> param_is_simple(#[trigger] v[j]),
    ensures
        !params_contain(v, f, n),
    decreases n,
{
    if n > 0 {
        lemma_simple_params_contain_nothing(v, f, n - 1);
        assert(param_is_simple(v[n - 1]));
        assert(!var_contains(v[n - 1].variable, f));
    }
}

// ---------------------------------------------------------------------------
// Directive prologue
// ---------------------------------------------------------------------------

/// Whether an item is an expression statement holding a bare string
/// literal: the form directive prologues are made of.
pub open spec fn is_string_literal_statement(it: StatementListItem) -> bool {
    match it {
        StatementListItem::Statement(Statement::Expression(Expression::Literal(lit))) => match lit
            .kind {
            LiteralKind::String(_) => true,
            _ => false,
        },
        _ => false,
    }
}

/// Whether an item is the `"use strict"` directive.
pub open spec fn is_use_strict_directive(it: StatementListItem) -> bool {
    match it {
        StatementListItem::Statement(Statement::Expression(Expression::Literal(lit))) => match lit
            .kind {
            LiteralKind::String(s) => s.id == SYM_USE_STRICT,
            _ => false,
        },
        _ => false,
    }
}

/// Whether the list's directive prologue declares `"use strict"`: some
/// leading run of string-literal expression statements ends at the
/// directive.
pub open spec fn prologue_has_use_strict(s: Seq<StatementListItem>) -> bool {
    exists|i: int|
        0 <= i < s.len() && is_use_strict_directive(#[trigger] s[i]) && (forall|j: int|
            0 <= j < i ==> is_string_literal_statement(#[trigger] s[j]))
}

} // verus!
