//! Reclassification of literal expressions as destructuring patterns.
//!
//! Object and array destructuring targets are first parsed as ordinary
//! literals and only converted into binding patterns once an enclosing
//! assignment confirms the reading. The conversion is a pure, side-effect
//! free step; a literal that cannot stand as a pattern is rejected here,
//! not re-parsed.

use vstd::prelude::*;
use crate::ast::{
    ArrayLiteral, ArrayPattern, ArrayPatternElement, AssignOp, AssignTarget, Expression,
    Identifier, ObjectLiteral, ObjectPattern, ObjectPatternElement, Pattern, PropertyDefinition,
};

verus! {

broadcast use vstd::std_specs::vec::group_vec_axioms;

/// Whether an expression standing as a property value or array element can
/// be read as a binding with an optional default.
pub open spec fn value_convertible(e: Expression) -> bool
    decreases e, 3int,
{
    match e {
        Expression::Identifier(_) => true,
        Expression::Assign(a) => a.op == AssignOp::Assign && (a.lhs is Identifier
            || a.lhs is Pattern),
        Expression::ObjectLiteral(o) => object_convertible(o),
        Expression::ArrayLiteral(a) => array_convertible(a),
        _ => false,
    }
}

/// Whether one object-literal property can be read as a pattern element.
pub open spec fn prop_convertible(pd: PropertyDefinition) -> bool
    decreases pd, 4int,
{
    match pd {
        PropertyDefinition::IdentifierReference(_) => true,
        PropertyDefinition::CoverInitializedName(_, _) => true,
        PropertyDefinition::Property(_, value) => value_convertible(value),
        PropertyDefinition::SpreadObject(e) => e is Identifier,
        PropertyDefinition::MethodDefinition(_) => false,
    }
}

/// Whether the first `n` properties convert, with a rest property allowed
/// only as the very last property of the list.
pub open spec fn props_convertible(v: Vec<PropertyDefinition>, n: int) -> bool
    decreases v, n, when 0 <= n <= v@.len()
{
    if 0 < n <= v@.len() {
        &&& props_convertible(v, n - 1)
        &&& prop_convertible(v[n - 1])
        &&& ((v[n - 1] is SpreadObject) ==> n == v@.len())
    } else {
        true
    }
}

/// Whether an object literal can be reclassified as an object pattern.
pub open spec fn object_convertible(o: ObjectLiteral) -> bool
    decreases o, 2int,
{
    props_convertible(o.properties, o.properties@.len() as int)
}

/// Whether one array-literal element can be read as a pattern element.
pub open spec fn array_elem_convertible(oe: Option<Expression>) -> bool
    decreases oe, 4int,
{
    match oe {
        None => true,
        Some(e) => value_convertible(e),
    }
}

/// Whether the first `n` array elements convert.
pub open spec fn array_elems_convertible(v: Vec<Option<Expression>>, n: int) -> bool
    decreases v, n, when 0 <= n <= v@.len()
{
    if 0 < n <= v@.len() {
        array_elems_convertible(v, n - 1) && array_elem_convertible(v[n - 1])
    } else {
        true
    }
}

/// Whether an array literal can be reclassified as an array pattern.
pub open spec fn array_convertible(a: ArrayLiteral) -> bool
    decreases a, 2int,
{
    array_elems_convertible(a.elements, a.elements@.len() as int)
}

/// A longer convertible prefix stays convertible when shortened.
proof fn lemma_props_convertible_mono(v: Vec<PropertyDefinition>, k: int, m: int)
    requires
        0 <= k <= m <= v@.len(),
        props_convertible(v, m),
    ensures
        props_convertible(v, k),
    decreases m - k,
{
    if k < m {
        lemma_props_convertible_mono(v, k, m - 1);
    }
}

/// A longer convertible prefix stays convertible when shortened.
proof fn lemma_array_elems_convertible_mono(v: Vec<Option<Expression>>, k: int, m: int)
    requires
        0 <= k <= m <= v@.len(),
        array_elems_convertible(v, m),
    ensures
        array_elems_convertible(v, k),
    decreases m - k,
{
    if k < m {
        lemma_array_elems_convertible_mono(v, k, m - 1);
    }
}

/// A converted binding: a single name or a nested pattern.
enum ConvTarget {
    Ident(Identifier),
    Pat(Pattern),
}

/// Reads an expression as a binding with an optional default, or reports
/// that it cannot stand as one.
fn value_to_target(e: Expression) -> (r: Option<(ConvTarget, Option<Expression>)>)
    ensures
        (r is Some) <==> value_convertible(e),
    decreases e, 3int,
{
    match e {
        Expression::Identifier(id) => Some((ConvTarget::Ident(id), None)),
        Expression::Assign(a) => {
            let crate::ast::Assign { op, lhs, rhs } = a;
            if op == AssignOp::Assign {
                match lhs {
                    AssignTarget::Identifier(id) => Some((ConvTarget::Ident(id), Some(*rhs))),
                    AssignTarget::Pattern(p) => Some((ConvTarget::Pat(p), Some(*rhs))),
                    _ => None,
                }
            } else {
                None
            }
        },
        Expression::ObjectLiteral(o) => match object_to_pattern(o) {
            Some(p) => Some((ConvTarget::Pat(Pattern::Object(p)), None)),
            None => None,
        },
        Expression::ArrayLiteral(a) => match array_to_pattern(a) {
            Some(p) => Some((ConvTarget::Pat(Pattern::Array(p)), None)),
            None => None,
        },
        _ => None,
    }
}

/// Converts one object-literal property into a pattern element. A rest
/// property converts only in last position.
fn prop_to_element(pd: PropertyDefinition, is_last: bool) -> (r: Option<ObjectPatternElement>)
    ensures
        (r is Some) <==> (prop_convertible(pd) && ((pd is SpreadObject) ==> is_last)),
    decreases pd, 4int,
{
    match pd {
        PropertyDefinition::IdentifierReference(id) => Some(
            ObjectPatternElement::SingleName { name: id, ident: id, default_init: None },
        ),
        PropertyDefinition::CoverInitializedName(id, init) => Some(
            ObjectPatternElement::SingleName { name: id, ident: id, default_init: Some(init) },
        ),
        PropertyDefinition::Property(name, value) => match value_to_target(value) {
            Some((ConvTarget::Ident(id), default_init)) => Some(
                ObjectPatternElement::SingleName { name, ident: id, default_init },
            ),
            Some((ConvTarget::Pat(p), default_init)) => Some(
                ObjectPatternElement::NestedPattern { name, pattern: p, default_init },
            ),
            None => None,
        },
        PropertyDefinition::SpreadObject(e) => {
            if !is_last {
                None
            } else {
                match e {
                    Expression::Identifier(id) => Some(
                        ObjectPatternElement::RestProperty { ident: id },
                    ),
                    _ => None,
                }
            }
        },
        PropertyDefinition::MethodDefinition(_) => None,
    }
}

/// Converts one array-literal element into a pattern element.
fn elem_to_element(oe: Option<Expression>) -> (r: Option<ArrayPatternElement>)
    ensures
        (r is Some) <==> array_elem_convertible(oe),
    decreases oe, 4int,
{
    match oe {
        None => Some(ArrayPatternElement::Elision),
        Some(e) => match value_to_target(e) {
            Some((ConvTarget::Ident(id), default_init)) => Some(
                ArrayPatternElement::SingleName { ident: id, default_init },
            ),
            Some((ConvTarget::Pat(p), default_init)) => Some(
                ArrayPatternElement::NestedPattern { pattern: p, default_init },
            ),
            None => None,
        },
    }
}

/// Converts the property list of an object literal, enforcing that a rest
/// property stands last.
#[verifier::loop_isolation(false)]
fn props_to_elements(props: Vec<PropertyDefinition>) -> (r: Option<Vec<ObjectPatternElement>>)
    ensures
        (r is Some) <==> props_convertible(props, props@.len() as int),
    decreases props, 1int,
{
    let ghost p0 = props;
    let mut cur = props;
    let n = cur.len();
    let mut elements: Vec<ObjectPatternElement> = Vec::new();
    let mut i: usize = 0;
    while i < n
        invariant
            i <= n,
            n == p0@.len(),
            cur@ == p0@.subrange(i as int, n as int),
            props_convertible(p0, i as int),
        decreases n - i,
    {
        let pd = cur.remove(0);
        proof {
            assert(pd == p0[i as int]);
            assert(cur@ =~= p0@.subrange(i as int + 1, n as int));
            assert(decreases_to!(p0 => p0[i as int]));
        }
        match prop_to_element(pd, i + 1 == n) {
            Some(el) => {
                elements.push(el);
            },
            None => {
                proof {
                    assert(!props_convertible(p0, i as int + 1));
                    if props_convertible(p0, n as int) {
                        lemma_props_convertible_mono(p0, i as int + 1, n as int);
                    }
                }
                return None;
            },
        }
        i = i + 1;
    }
    Some(elements)
}

/// Converts the element list of an array literal.
#[verifier::loop_isolation(false)]
fn elems_to_elements(elems: Vec<Option<Expression>>) -> (r: Option<Vec<ArrayPatternElement>>)
    ensures
        (r is Some) <==> array_elems_convertible(elems, elems@.len() as int),
    decreases elems, 1int,
{
    let ghost e0 = elems;
    let mut cur = elems;
    let n = cur.len();
    let mut elements: Vec<ArrayPatternElement> = Vec::new();
    let mut i: usize = 0;
    while i < n
        invariant
            i <= n,
            n == e0@.len(),
            cur@ == e0@.subrange(i as int, n as int),
            array_elems_convertible(e0, i as int),
        decreases n - i,
    {
        let oe = cur.remove(0);
        proof {
            assert(oe == e0[i as int]);
            assert(cur@ =~= e0@.subrange(i as int + 1, n as int));
            assert(decreases_to!(e0 => e0[i as int]));
        }
        match elem_to_element(oe) {
            Some(el) => {
                elements.push(el);
            },
            None => {
                proof {
                    assert(!array_elems_convertible(e0, i as int + 1));
                    if array_elems_convertible(e0, n as int) {
                        lemma_array_elems_convertible_mono(e0, i as int + 1, n as int);
                    }
                }
                return None;
            },
        }
        i = i + 1;
    }
    Some(elements)
}

/// Reclassifies an object literal as an object pattern, or reports that it
/// cannot stand as one.
pub fn object_to_pattern(lit: ObjectLiteral) -> (r: Option<ObjectPattern>)
    ensures
        (r is Some) <==> object_convertible(lit),
        r matches Some(p) ==> p.span == lit.span,
    decreases lit, 2int,
{
    let ghost l0 = lit;
    let ObjectLiteral { properties, span } = lit;
    proof {
        assert(properties == l0.properties);
        assert(decreases_to!(l0 => l0.properties));
    }
    match props_to_elements(properties) {
        Some(elements) => Some(ObjectPattern::new(elements, span)),
        None => None,
    }
}

/// Reclassifies an array literal as an array pattern, or reports that it
/// cannot stand as one.
pub fn array_to_pattern(lit: ArrayLiteral) -> (r: Option<ArrayPattern>)
    ensures
        (r is Some) <==> array_convertible(lit),
        r matches Some(p) ==> p.span == lit.span,
    decreases lit, 2int,
{
    let ghost l0 = lit;
    let ArrayLiteral { elements, has_trailing_comma_spread: _, span } = lit;
    proof {
        assert(elements == l0.elements);
        assert(decreases_to!(l0 => l0.elements));
    }
    match elems_to_elements(elements) {
        Some(els) => Some(ArrayPattern::new(els, span)),
        None => None,
    }
}

} // verus!
