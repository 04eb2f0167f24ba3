//! The expression engine facade and the compiled-expression cache.
//!
//! The engine compiles rule expressions through the embedded expression
//! language's runtime and memoizes the outcome — success or failure — by
//! the exact source text in a bounded least-recently-used cache. A text
//! already cached is answered from the cache without touching the
//! compiler again; eviction of cold entries never invalidates a handle
//! already handed to a caller, which owns its artifact outright.

use vstd::prelude::*;
use vstd::string::StringExecFns;

use crate::cache::has_key;
use crate::cache::inserted;
use crate::cache::key_idx;
use crate::cache::promoted;
use crate::cache::value_at;
use crate::cache::LruCache;
use crate::duration_fn::DurationFn;
use crate::numcheck::check_number_literals;
use crate::numcheck::number_literals_fit;
use crate::email_fn::EmailFn;
use crate::now_fn::NowFn;
use crate::phone_number_fn::PhoneNumberFn;
use crate::regex_fn::PatternCache;
use crate::regex_fn::RegexFn;

verus! {

#[verifier::external_type_specification]
#[verifier::external_body]
pub struct ExRuntime(jmespatch::Runtime);

#[verifier::external_type_specification]
#[verifier::external_body]
pub struct ExExpression<'a>(jmespatch::Expression<'a>);

#[verifier::external_type_specification]
#[verifier::external_body]
pub struct ExVariable(jmespatch::Variable);

/// The message raised for a rule text whose number literal the engine's
/// lexer cannot represent.
pub const NUMBER_RANGE_MSG: &'static str =
    "Number literal is too large for the expression engine";

/// The parse outcome of an expression text whose number literals fit: the
/// error message where the text does not parse, absent where it does.
/// Compiling only parses, so this is a function of the text alone.
pub uninterp spec fn expr_parse_err(text: Seq<char>) -> Option<Seq<char>>;

/// How compiling a rule text fails, if it does: a text with a number
/// literal beyond the lexer's range is rejected by the library's own
/// pre-scan with a fixed message; any other text fails exactly where the
/// engine's parse does.
pub open spec fn compile_failure(text: Seq<char>) -> Option<Seq<char>> {
    if !number_literals_fit(text) {
        Some(NUMBER_RANGE_MSG@)
    } else {
        expr_parse_err(text)
    }
}

/// Relies on jmespatch::Runtime::compile: it parses the text and wraps
/// the syntax tree, so success and the failure message are functions of
/// the text alone. Its lexer reads every number literal as a 32-bit
/// integer and aborts the process on one beyond that range, so only texts
/// whose number literals fit are handed to it.
#[verifier::external_body]
fn compile_raw(rt: &'static jmespatch::Runtime, text: &String) -> (r: Result<
    jmespatch::Expression<'static>,
    String,
>)
    requires
        number_literals_fit(text@),
    ensures
        r is Ok <==> expr_parse_err(text@) is None,
        r matches Err(m) ==> expr_parse_err(text@) matches Some(e) && m@ == e,
{
    rt.compile(text.as_str()).map_err(|e| e.to_string())
}

/// Relies on the derived Clone of jmespatch::Expression: a clone is the
/// same compiled expression.
#[verifier::external_body]
fn clone_expr(e: &jmespatch::Expression<'static>) -> (r: jmespatch::Expression<'static>)
    ensures
        r == *e,
{
    e.clone()
}

/// Relies on Rc::clone: another handle to the very value.
#[verifier::external_body]
pub(crate) fn clone_rcvar(v: &jmespatch::Rcvar) -> (r: jmespatch::Rcvar)
    ensures
        r == *v,
{
    v.clone()
}

/// Relies on jmespatch::Expression::search: evaluation runs the engine's
/// interpreter and whatever functions its runtime registers; of the
/// outcome nothing is promised.
#[verifier::external_body]
pub(crate) fn search_expr(e: &jmespatch::Expression<'static>, ctx: &jmespatch::Rcvar) -> (r: Result<
    jmespatch::Rcvar,
    String,
>) {
    e.search(ctx.clone()).map_err(|er| er.to_string())
}

/// Whether the engine counts a value as truthy; a pure function of the
/// value.
pub uninterp spec fn truthy_of(v: jmespatch::Rcvar) -> bool;

/// Relies on jmespatch::Variable::is_truthy, a pure function of the
/// value: true for any number and for a true boolean, a nonempty string,
/// array or object; false for null, a false boolean, empty ones and an
/// expression reference.
#[verifier::external_body]
pub(crate) fn is_truthy_raw(v: &jmespatch::Rcvar) -> (r: bool)
    ensures
        r == truthy_of(*v),
{
    v.is_truthy()
}

/// Whether a cached compile outcome is one the expression text `k` can
/// determine.
pub open spec fn expr_entry_ok(
    k: Seq<char>,
    v: Result<jmespatch::Expression<'static>, String>,
) -> bool {
    match v {
        Ok(_) => compile_failure(k) is None,
        Err(m) => compile_failure(k) matches Some(e) && m@ == e,
    }
}

/// A clone of a cached compile outcome: the same artifact.
fn clone_compile_res(v: &Result<jmespatch::Expression<'static>, String>) -> (r: Result<
    jmespatch::Expression<'static>,
    String,
>)
    ensures
        r == *v,
{
    match v {
        Ok(e) => Ok(clone_expr(e)),
        Err(m) => Err(m.clone()),
    }
}

/// The expression engine with its bounded compiled-expression cache.
pub struct Engine {
    rt: &'static jmespatch::Runtime,
    exprs: LruCache<Result<jmespatch::Expression<'static>, String>>,
}

impl View for Engine {
    type V = Seq<(Seq<char>, Result<jmespatch::Expression<'static>, String>)>;

    closed spec fn view(&self) -> Seq<(Seq<char>, Result<jmespatch::Expression<'static>, String>)> {
        self.exprs@
    }
}

impl Engine {
    /// The expression cache's capacity.
    pub closed spec fn cap_spec(self) -> nat {
        self.exprs.cap_spec()
    }

    /// The inner bounded cache's own invariant.
    pub closed spec fn inner_wf(self) -> bool {
        self.exprs.wf()
    }

    /// The engine's invariant: the cache is well formed and every entry
    /// holds a compile outcome its key can determine.
    pub open spec fn wf(self) -> bool {
        &&& self.inner_wf()
        &&& self.cap_spec() == 1024
        &&& forall|i: int|
            0 <= i < self@.len() ==> expr_entry_ok((#[trigger] self@[i]).0, self@[i].1)
    }

    /// An engine over the given runtime, with an empty cache.
    pub fn new(rt: &'static jmespatch::Runtime) -> (r: Engine)
        ensures
            r.wf(),
            r@ == Seq::<(Seq<char>, Result<jmespatch::Expression<'static>, String>)>::empty(),
    {
        Engine { rt, exprs: LruCache::new(1024) }
    }
}

/// Compiles an expression text through the cache. A text already cached —
/// as a success or as a failure — is answered with the cached artifact
/// itself and is not parsed again; an uncached text is compiled once and
/// the outcome cached, whichever way it went.
pub fn compile_expr(engine: &mut Engine, text: &String) -> (r: Result<
    jmespatch::Expression<'static>,
    String,
>)
    requires
        old(engine).wf(),
    ensures
        final(engine).wf(),
        final(engine).cap_spec() == old(engine).cap_spec(),
        has_key(old(engine)@, text@) ==> final(engine)@ == promoted(old(engine)@, text@) && r
            == value_at(old(engine)@, text@),
        !has_key(old(engine)@, text@) ==> final(engine)@ == inserted(
            old(engine)@,
            text@,
            r,
            old(engine).cap_spec(),
        ),
        has_key(final(engine)@, text@) && value_at(final(engine)@, text@) == r,
        r is Ok <==> compile_failure(text@) is None,
        r matches Err(m) ==> compile_failure(text@) matches Some(e) && m@ == e,
{
    let ghost pre = engine@;
    let hit = engine.exprs.promote(text);
    if hit {
        proof {
            let idx = key_idx(pre, text@);
            assert(0 <= idx < pre.len() && pre[idx].0 == text@);
            assert forall|i: int| 0 <= i < engine@.len() implies expr_entry_ok(
                (#[trigger] engine@[i]).0,
                engine@[i].1,
            ) by {
                if i == 0 {
                    assert(engine@[0] == pre[idx]);
                } else {
                    assert(engine@[i] == pre.remove(idx)[i - 1]);
                    if i - 1 < idx {
                        assert(pre.remove(idx)[i - 1] == pre[i - 1]);
                    } else {
                        assert(pre.remove(idx)[i - 1] == pre[i]);
                    }
                }
            }
            assert(expr_entry_ok(text@, value_at(engine@, text@)));
        }
        let cached = match engine.exprs.peek(text) {
            Some(v) => clone_compile_res(v),
            None => {
                proof {
                    assert(false);
                }
                Err(String::new())
            }
        };
        return cached;
    }
    let compiled = if check_number_literals(text) {
        compile_raw(engine.rt, text)
    } else {
        Err(String::from_str(NUMBER_RANGE_MSG))
    };
    let out = clone_compile_res(&compiled);
    let ghost gcompiled = compiled;
    engine.exprs.insert(text.clone(), compiled);
    proof {
        assert forall|i: int| 0 <= i < engine@.len() implies expr_entry_ok(
            (#[trigger] engine@[i]).0,
            engine@[i].1,
        ) by {
            if i > 0 {
                if pre.len() < old(engine).cap_spec() {
                    assert(engine@[i] == pre[i - 1]);
                } else {
                    assert(engine@[i] == pre.drop_last()[i - 1]);
                    assert(pre.drop_last()[i - 1] == pre[i - 1]);
                }
            } else {
                assert(expr_entry_ok(text@, gcompiled));
            }
        }
    }
    out
}

/// The closed table of domain functions the engine's runtime is extended
/// with, built once at startup, together with the pattern cache the
/// matching function draws on.
pub struct FunctionRegistry {
    pub regex_fn: RegexFn,
    pub email_fn: EmailFn,
    pub now_fn: NowFn,
    pub duration_fn: DurationFn,
    pub phone_number_fn: PhoneNumberFn,
    pub patterns: PatternCache,
}

impl FunctionRegistry {
    /// Every function carries its declared signature and the pattern
    /// cache is well formed.
    pub open spec fn wf(self) -> bool {
        &&& self.regex_fn.wf()
        &&& self.email_fn.wf()
        &&& self.now_fn.wf()
        &&& self.duration_fn.wf()
        &&& self.phone_number_fn.wf()
        &&& self.patterns.wf()
    }

    /// The full table, with an empty pattern cache.
    pub fn new() -> (r: FunctionRegistry)
        ensures
            r.wf(),
    {
        FunctionRegistry {
            regex_fn: RegexFn::new(),
            email_fn: EmailFn::new(),
            now_fn: NowFn::new(),
            duration_fn: DurationFn::new(),
            phone_number_fn: PhoneNumberFn::new(),
            patterns: PatternCache::new(),
        }
    }
}

} // verus!
