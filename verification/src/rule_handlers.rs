//! The rule evaluator: rule names plus a context document in, structured
//! per-rule outcomes out.
//!
//! Each requested rule is handled independently: its name is looked up in
//! the current snapshot, the expression text is compiled through the
//! cache, and the compiled form is evaluated against the context. One
//! rule's failure never blocks another's result, and the output sequence
//! preserves the input order. Single-rule evaluation is batch evaluation
//! specialized to one name.

use vstd::prelude::*;

use crate::configuration::RuleSnapshot;
use crate::runtime::compile_expr;
use crate::runtime::compile_failure;
use crate::runtime::is_truthy_raw;
use crate::runtime::search_expr;
use crate::runtime::truthy_of;
use crate::runtime::Engine;

verus! {

/// A batch evaluation request: the rule names to evaluate, and the
/// context document they are evaluated against.
pub struct BatchEvalReq {
    pub rules: Vec<String>,
    pub context: jmespatch::Rcvar,
}

/// The outcome of evaluating one rule: its value and truthiness, a
/// per-rule failure with its reason, or the absence of the rule from the
/// current snapshot.
#[derive(Debug)]
pub enum RuleEvalRes {
    Success { name: String, expression: String, is_truthy: bool, value: jmespatch::Rcvar },
    Error { name: String, expression: String, reason: String },
    NotFound { name: String },
}

/// Whether one outcome is the one the snapshot prescribes for a name: a
/// missing name reports NotFound; a present name reports its expression
/// text, as an Error carrying the compile message where the text does not
/// compile, and otherwise as the evaluation's Success — whose reported
/// truthiness is that of its reported value — or its Error. Each outcome
/// is a function of its own name alone, besides the snapshot and what the
/// engine's evaluation returned.
pub open spec fn res_matches(
    res: RuleEvalRes,
    name: Seq<char>,
    rules: Map<Seq<char>, Seq<char>>,
) -> bool {
    match res {
        RuleEvalRes::NotFound { name: n } => n@ == name && !rules.contains_key(name),
        RuleEvalRes::Success { name: n, expression, is_truthy, value } => {
            &&& n@ == name
            &&& rules.contains_key(name)
            &&& expression@ == rules[name]
            &&& compile_failure(rules[name]) is None
            &&& is_truthy == truthy_of(value)
        },
        RuleEvalRes::Error { name: n, expression, reason } => {
            &&& n@ == name
            &&& rules.contains_key(name)
            &&& expression@ == rules[name]
            &&& (compile_failure(rules[name]) matches Some(m) ==> reason@ == m)
        },
    }
}

/// Shapes one rule's evaluation outcome into its reported result: a value
/// becomes a Success carrying it with its own truthiness, a failure
/// becomes an Error carrying its reason, each under the rule's name and
/// expression text.
pub fn shape_result(name: &String, expression: String, outcome: Result<
    jmespatch::Rcvar,
    String,
>) -> (r: RuleEvalRes)
    ensures
        match outcome {
            Ok(v) => r matches RuleEvalRes::Success { name: n, expression: e, is_truthy, value }
                && n == name && e == expression && value == v && is_truthy == truthy_of(v),
            Err(m) => r matches RuleEvalRes::Error { name: n, expression: e, reason } && n == name
                && e == expression && reason == m,
        },
{
    match outcome {
        Ok(value) => {
            let is_truthy = is_truthy_raw(&value);
            RuleEvalRes::Success { name: name.clone(), expression, is_truthy, value }
        }
        Err(reason) => RuleEvalRes::Error { name: name.clone(), expression, reason },
    }
}

/// Compiles one expression through the cache and evaluates it against the
/// context. A text that does not parse fails with the parse message; of a
/// parsed expression the engine's evaluation decides.
pub fn evaluate_rule(engine: &mut Engine, expression: &String, ctx: &jmespatch::Rcvar) -> (r:
    Result<jmespatch::Rcvar, String>)
    requires
        old(engine).wf(),
    ensures
        final(engine).wf(),
        final(engine).cap_spec() == old(engine).cap_spec(),
        compile_failure(expression@) matches Some(m) ==> r matches Err(rm) && rm@ == m,
{
    match compile_expr(engine, expression) {
        Ok(compiled) => search_expr(&compiled, ctx),
        Err(m) => Err(m),
    }
}

/// Evaluates each requested rule independently against the context. The
/// result sequence preserves the order of the requested names, one
/// outcome per name; a failure or absence of one rule never disturbs its
/// siblings.
pub fn eval_rules(engine: &mut Engine, snap: &RuleSnapshot, ctx: &jmespatch::Rcvar,
    rule_names: &Vec<String>) -> (r: Vec<RuleEvalRes>)
    requires
        old(engine).wf(),
    ensures
        final(engine).wf(),
        r@.len() == rule_names@.len(),
        forall|i: int|
            0 <= i < rule_names@.len() ==> res_matches(
                #[trigger] r@[i],
                rule_names@[i]@,
                snap@,
            ),
{
    let mut out: Vec<RuleEvalRes> = Vec::new();
    let n = rule_names.len();
    let mut i: usize = 0;
    while i < n
        invariant
            engine.wf(),
            0 <= i <= n,
            n == rule_names@.len(),
            out@.len() == i,
            forall|j: int|
                0 <= j < i ==> res_matches(#[trigger] out@[j], rule_names@[j]@, snap@),
        decreases n - i,
    {
        let name = &rule_names[i];
        let looked = snap.lookup(name);
        match looked {
            None => {
                out.push(RuleEvalRes::NotFound { name: name.clone() });
            }
            Some(text) => {
                let expression = text.clone();
                let outcome = evaluate_rule(engine, &expression, ctx);
                out.push(shape_result(name, expression, outcome));
            }
        }
        i = i + 1;
    }
    out
}

} // verus!
