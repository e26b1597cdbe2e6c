//! Function-related syntax tree nodes: formal parameters, function bodies,
//! and generator expressions.
//!
//! A parameter list carries derived flags: `is_simple` (no destructuring
//! pattern, no default, no rest parameter) and `has_duplicates`, computed
//! once when the list is assembled and relied on by the early-error rules.

use vstd::prelude::*;
use crate::ast::{Binding, Expression, Identifier, StatementList, StatementListItem, Variable};
use crate::interner::Sym;
use crate::ops;
use crate::span::{LinearSpan, Span};

verus! {

/// One formal parameter: a declared variable, possibly the rest parameter.
#[derive(Debug, PartialEq)]
pub struct FormalParameter {
    /// The binding and optional default initializer.
    pub variable: Variable,
    /// Whether this is the `...rest` parameter.
    pub is_rest_param: bool,
}

impl FormalParameter {
    /// Creates a new formal parameter.
    pub fn new(variable: Variable, is_rest_param: bool) -> (r: FormalParameter)
        ensures
            r.variable == variable,
            r.is_rest_param == is_rest_param,
    {
        FormalParameter { variable, is_rest_param }
    }

    /// Whether this is the rest parameter.
    pub fn is_rest_param(&self) -> (r: bool)
        ensures
            r == self.is_rest_param,
    {
        self.is_rest_param
    }

    /// The parameter's default initializer.
    pub fn init(&self) -> (r: &Option<Expression>)
        ensures
            r == &self.variable.init,
    {
        &self.variable.init
    }
}

/// Derived shape flags of a formal parameter list.
#[derive(Debug, Clone, Copy, PartialEq, Eq, Structural)]
pub struct FormalParameterListFlags {
    /// No pattern, no default, no rest parameter.
    pub is_simple: bool,
    /// Some bound name occurs twice.
    pub has_duplicates: bool,
    /// The list ends in a rest parameter.
    pub has_rest_parameter: bool,
    /// Some parameter carries a default initializer.
    pub has_expressions: bool,
}

impl Default for FormalParameterListFlags {
    /// The flags of an empty list: simple, nothing else.
    fn default() -> (r: FormalParameterListFlags)
        ensures
            r.is_simple == true,
            r.has_duplicates == false,
            r.has_rest_parameter == false,
            r.has_expressions == false,
    {
        FormalParameterListFlags {
            is_simple: true,
            has_duplicates: false,
            has_rest_parameter: false,
            has_expressions: false,
        }
    }
}

/// A formal parameter list together with its derived flags and its
/// expected-argument count.
#[derive(Debug, PartialEq)]
pub struct FormalParameterList {
    /// The parameters, in source order.
    pub parameters: Vec<FormalParameter>,
    /// The derived shape flags.
    pub flags: FormalParameterListFlags,
    /// The number of parameters before the first default or rest parameter.
    pub length: usize,
}

impl FormalParameterList {
    /// The names bound by the whole list, in source order.
    pub open spec fn bound_names_spec(self) -> Seq<Sym> {
        ops::params_bound_names(self.parameters, self.parameters@.len() as int)
    }

    /// Whether every parameter is a plain name without a default.
    pub open spec fn is_simple_spec(self) -> bool {
        ops::params_all_simple(self.parameters)
    }

    /// Whether some bound name occurs twice.
    pub open spec fn has_duplicates_spec(self) -> bool {
        ops::sym_seq_has_dup(self.bound_names_spec())
    }

    /// The derived fields agree with the parameters.
    pub open spec fn flags_ok(self) -> bool {
        &&& self.flags.is_simple == self.is_simple_spec()
        &&& self.flags.has_duplicates == self.has_duplicates_spec()
        &&& self.flags.has_rest_parameter == ops::params_any_rest(self.parameters)
        &&& self.flags.has_expressions == ops::params_any_init(self.parameters)
        &&& self.length == ops::params_length_from(self.parameters, 0)
    }

    /// Assembles a list from its parameters, computing the derived flags
    /// and the expected-argument count.
    pub fn from_parameters(parameters: Vec<FormalParameter>) -> (r: FormalParameterList)
        ensures
            r.parameters == parameters,
            r.flags_ok(),
    {
        let n = parameters.len();
        let mut is_simple = true;
        let mut has_rest = false;
        let mut has_expr = false;
        let mut i: usize = 0;
        while i < n
            invariant
                n == parameters@.len(),
                i <= n,
                is_simple == (forall|k: int|
                    0 <= k < i ==> ops::param_is_simple(#[trigger] parameters[k])),
                has_rest == (exists|k: int|
                    0 <= k < i && (#[trigger] parameters[k]).is_rest_param),
                has_expr == (exists|k: int|
                    0 <= k < i && (#[trigger] parameters[k]).variable.init is Some),
            decreases n - i,
        {
            let p = &parameters[i];
            let plain_name = match &p.variable.binding {
                Binding::Identifier(_) => true,
                Binding::Pattern(_) => false,
            };
            let has_init = p.variable.init.is_some();
            if !(plain_name && !has_init && !p.is_rest_param) {
                is_simple = false;
            }
            if p.is_rest_param {
                has_rest = true;
            }
            if has_init {
                has_expr = true;
            }
            i = i + 1;
        }
        let mut names: Vec<Sym> = Vec::new();
        let mut k: usize = 0;
        while k < n
            invariant
                n == parameters@.len(),
                k <= n,
                names@ == ops::params_bound_names(parameters, k as int),
            decreases n - k,
        {
            ops::push_binding_bound_names(&parameters[k].variable.binding, &mut names);
            assert(names@ =~= ops::params_bound_names(parameters, k + 1));
            k = k + 1;
        }
        let has_duplicates = ops::sym_vec_has_dup(&names);
        let length = Self::length_from(&parameters, 0);
        FormalParameterList {
            parameters,
            flags: FormalParameterListFlags {
                is_simple,
                has_duplicates,
                has_rest_parameter: has_rest,
                has_expressions: has_expr,
            },
            length,
        }
    }

    /// The expected-argument count of the parameters from index `n` on.
    fn length_from(parameters: &Vec<FormalParameter>, n: usize) -> (r: usize)
        requires
            n <= parameters@.len(),
        ensures
            r == ops::params_length_from(*parameters, n as int),
            r <= parameters@.len() - n,
        decreases parameters@.len() - n,
    {
        if n >= parameters.len() {
            0
        } else {
            let p = &parameters[n];
            let stop = p.is_rest_param || p.variable.init.is_some();
            if stop {
                0
            } else {
                1 + Self::length_from(parameters, n + 1)
            }
        }
    }

    /// The derived shape flags.
    pub fn flags(&self) -> (r: FormalParameterListFlags)
        ensures
            r == self.flags,
    {
        self.flags
    }

    /// The expected-argument count.
    pub fn length(&self) -> (r: usize)
        ensures
            r == self.length,
    {
        self.length
    }

    /// Whether every parameter is a plain name without a default.
    pub fn is_simple(&self) -> (r: bool)
        ensures
            r == self.flags.is_simple,
    {
        self.flags.is_simple
    }

    /// Whether some bound name occurs twice.
    pub fn has_duplicates(&self) -> (r: bool)
        ensures
            r == self.flags.has_duplicates,
    {
        self.flags.has_duplicates
    }
}

/// For every parameter list whose derived flags agree with its
/// parameters, `is_simple` holds exactly when no parameter is a
/// destructuring pattern, carries a default initializer, or is the rest
/// parameter.
pub proof fn lemma_is_simple_characterization(l: FormalParameterList)
    requires
        l.flags_ok(),
    ensures
        l.flags.is_simple <==> (forall|i: int|
            0 <= i < l.parameters@.len() ==> ((#[trigger] l.parameters[i]).variable.binding
                is Identifier && l.parameters[i].variable.init is None
                && !l.parameters[i].is_rest_param)),
{
    if l.is_simple_spec() {
        assert forall|i: int|
            0 <= i < l.parameters@.len() implies ((#[trigger] l.parameters[i]).variable.binding
            is Identifier && l.parameters[i].variable.init is None
            && !l.parameters[i].is_rest_param) by {
            assert(ops::param_is_simple(l.parameters[i]));
        }
    }
    if !l.is_simple_spec() {
        let i = choose|i: int|
            0 <= i < l.parameters@.len() && !ops::param_is_simple(#[trigger] l.parameters[i]);
        assert(!((l.parameters[i].variable.binding is Identifier)
            && l.parameters[i].variable.init is None && !l.parameters[i].is_rest_param));
    }
}

impl Default for FormalParameterList {
    /// The empty parameter list.
    fn default() -> (r: FormalParameterList)
        ensures
            r.parameters@.len() == 0,
            r.flags_ok(),
            r.flags == (FormalParameterListFlags {
                is_simple: true,
                has_duplicates: false,
                has_rest_parameter: false,
                has_expressions: false,
            }),
            r.length == 0,
    {
        let r = FormalParameterList {
            parameters: Vec::new(),
            flags: FormalParameterListFlags {
                is_simple: true,
                has_duplicates: false,
                has_rest_parameter: false,
                has_expressions: false,
            },
            length: 0,
        };
        proof {
            assert(r.bound_names_spec() =~= Seq::<Sym>::empty());
        }
        r
    }
}

/// A function body: a statement list with its span. The strict bit records
/// whether the body's own directive prologue declares `"use strict"`.
#[derive(Debug, PartialEq)]
pub struct FunctionBody {
    /// The body's statements.
    pub statements: StatementList,
    /// The span of the body, braces included.
    pub span: Span,
}

impl FunctionBody {
    /// Creates a new function body.
    pub fn new(statements: StatementList, span: Span) -> (r: FunctionBody)
        ensures
            r.statements == statements,
            r.span == span,
    {
        FunctionBody { statements, span }
    }

    /// Whether the body's own directive prologue declares `"use strict"`.
    pub fn strict(&self) -> (r: bool)
        ensures
            r == self.statements.strict,
    {
        self.statements.strict
    }

    /// The body's statement items.
    pub fn statements(&self) -> (r: &Vec<StatementListItem>)
        ensures
            r == &self.statements.statements,
    {
        &self.statements.statements
    }

    /// The body's span.
    pub fn span(&self) -> (r: Span)
        ensures
            r == self.span,
    {
        self.span
    }
}

/// A generator expression node: `function* name(params) { body }`.
#[derive(Debug, PartialEq)]
pub struct GeneratorExpression {
    /// The optional binding identifier.
    pub name: Option<Identifier>,
    /// The parameter list.
    pub parameters: FormalParameterList,
    /// The function body.
    pub body: FunctionBody,
    /// The byte-offset range of the whole expression.
    pub linear_span: LinearSpan,
    /// Whether the expression was written with its own name.
    pub has_binding_identifier: bool,
    /// The line/column span of the whole expression.
    pub span: Span,
}

impl GeneratorExpression {
    /// Creates a new generator expression node.
    pub fn new(
        name: Option<Identifier>,
        parameters: FormalParameterList,
        body: FunctionBody,
        linear_span: LinearSpan,
        has_binding_identifier: bool,
        span: Span,
    ) -> (r: GeneratorExpression)
        ensures
            r.name == name,
            r.parameters == parameters,
            r.body == body,
            r.linear_span == linear_span,
            r.has_binding_identifier == has_binding_identifier,
            r.span == span,
    {
        GeneratorExpression { name, parameters, body, linear_span, has_binding_identifier, span }
    }

    /// The optional binding identifier.
    pub fn name(&self) -> (r: &Option<Identifier>)
        ensures
            r == &self.name,
    {
        &self.name
    }

    /// The parameter list.
    pub fn parameters(&self) -> (r: &FormalParameterList)
        ensures
            r == &self.parameters,
    {
        &self.parameters
    }

    /// The function body.
    pub fn body(&self) -> (r: &FunctionBody)
        ensures
            r == &self.body,
    {
        &self.body
    }

    /// The node's span.
    pub fn span(&self) -> (r: Span)
        ensures
            r == self.span,
    {
        self.span
    }
}

} // verus!
