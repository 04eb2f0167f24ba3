//! The pattern-matching function.
//!
//! `match(pattern, subject)` runs a capturing match of a pattern against a
//! subject string. The pattern must be a source-literal string fixed in the
//! rule's text: a runtime-computed pattern is rejected with a fixed parse
//! failure, because accepting one would defeat pattern caching and permit
//! unbounded uncached pattern construction per evaluation. Compiled
//! patterns are memoized in a bounded least-recently-used cache, compile
//! failures included.

use vstd::prelude::*;

use vstd::string::StringExecFns;

use crate::cache::has_key;
use crate::cache::inserted;
use crate::cache::key_idx;
use crate::cache::promoted;
use crate::cache::value_at;
use crate::cache::LruCache;
use crate::sig::ArgType;
use crate::sig::Signature;
use crate::value::ArgVal;
use crate::value::ExprefKind;
use crate::value::FnError;
use crate::value::FnOut;

verus! {

/// The fixed message raised for a pattern argument that is not a
/// source-literal string.
pub const LITERAL_PATTERN_MSG: &'static str =
    "Regex must be a literal string please only use &'...'";

#[verifier::external_type_specification]
#[verifier::external_body]
pub struct ExRegex(regex::Regex);

/// The compile outcome of a pattern text: the error message where the
/// pattern does not compile, absent where it does.
pub uninterp spec fn regex_compile_err(pat: Seq<char>) -> Option<Seq<char>>;

/// The pattern text a compiled pattern was compiled from.
pub uninterp spec fn regex_source(re: regex::Regex) -> Seq<char>;

/// The per-capture-group results of matching a pattern against a subject:
/// absent where the pattern does not match at all; otherwise one entry per
/// capture group, group 0 first, a group that did not participate absent
/// in its position.
pub uninterp spec fn captures_of(pat: Seq<char>, subject: Seq<char>) -> Option<
    Seq<Option<Seq<char>>>,
>;

/// The characters of one captured group result.
pub open spec fn group_view(g: Option<String>) -> Option<Seq<char>> {
    match g {
        Some(s) => Some(s@),
        None => None,
    }
}

/// The characters of a vector of captured group results.
pub open spec fn groups_view(gs: Seq<Option<String>>) -> Seq<Option<Seq<char>>> {
    gs.map_values(|g: Option<String>| group_view(g))
}

/// Relies on regex::Regex::new: whether a pattern compiles, and with which
/// error message, is a function of the pattern text alone; Regex::as_str
/// returns the very pattern the value was compiled from.
#[verifier::external_body]
fn compile_pattern(pat: &String) -> (r: Result<regex::Regex, String>)
    ensures
        r is Ok <==> regex_compile_err(pat@) is None,
        r matches Ok(re) ==> regex_source(re) == pat@,
        r matches Err(m) ==> regex_compile_err(pat@) matches Some(e) && m@ == e,
{
    regex::Regex::new(pat.as_str()).map_err(|e| e.to_string())
}

/// Relies on regex::Regex::captures: the outcome is a function of the
/// pattern and the subject alone; the groups iterator yields one entry per
/// capture group of the pattern, group 0 (the whole match) first.
#[verifier::external_body]
fn pattern_captures(re: &regex::Regex, subject: &String) -> (r: Option<Vec<Option<String>>>)
    ensures
        match r {
            Some(gs) => captures_of(regex_source(*re), subject@) matches Some(spec_gs)
                && groups_view(gs@) == spec_gs,
            None => captures_of(regex_source(*re), subject@) is None,
        },
{
    re.captures(subject.as_str()).map(
        |c| c.iter().map(|m| m.map(|g| g.as_str().to_string())).collect(),
    )
}

/// Whether a cached compile outcome is the one the pattern text `k`
/// determines.
pub open spec fn pattern_entry_ok(k: Seq<char>, v: Result<regex::Regex, String>) -> bool {
    match v {
        Ok(re) => regex_compile_err(k) is None && regex_source(re) == k,
        Err(m) => regex_compile_err(k) matches Some(e) && m@ == e,
    }
}

/// The bounded cache of compiled patterns, keyed by pattern text. Both
/// compile successes and compile failures are cached, so a permanently
/// invalid pattern is not re-compiled on every evaluation.
pub struct PatternCache {
    inner: LruCache<Result<regex::Regex, String>>,
}

impl View for PatternCache {
    type V = Seq<(Seq<char>, Result<regex::Regex, String>)>;

    closed spec fn view(&self) -> Seq<(Seq<char>, Result<regex::Regex, String>)> {
        self.inner@
    }
}

impl PatternCache {
    /// The cache's capacity.
    pub closed spec fn cap_spec(self) -> nat {
        self.inner.cap_spec()
    }

    /// The inner bounded cache's own invariant.
    pub closed spec fn inner_wf(self) -> bool {
        self.inner.wf()
    }

    /// The cache's invariant: the inner cache is well formed and every
    /// entry holds the compile outcome its key determines.
    pub open spec fn wf(self) -> bool {
        &&& self.inner_wf()
        &&& self.cap_spec() == 1024
        &&& forall|i: int|
            0 <= i < self@.len() ==> pattern_entry_ok(
                (#[trigger] self@[i]).0,
                self@[i].1,
            )
    }

    /// An empty pattern cache with the fixed capacity.
    pub fn new() -> (r: PatternCache)
        ensures
            r.wf(),
            r@ == Seq::<(Seq<char>, Result<regex::Regex, String>)>::empty(),
    {
        PatternCache { inner: LruCache::new(1024) }
    }
}

/// The pattern-matching function: its signature, and the capturing match
/// it runs once the pattern argument is accepted.
pub struct RegexFn {
    signature: Signature,
}

impl Default for RegexFn {
    fn default() -> (r: RegexFn)
        ensures
            r.wf(),
    {
        RegexFn::new()
    }
}

impl RegexFn {
    /// The function's declared signature.
    pub closed spec fn sig_spec(self) -> Signature {
        self.signature
    }

    /// The declared signature: two arguments of any type. The pattern
    /// argument's literal-string constraint cannot be said as a type, so
    /// it is checked by the function itself.
    pub open spec fn wf(self) -> bool {
        &&& self.sig_spec().inputs@ =~= seq![ArgType::Any, ArgType::Any]
        &&& self.sig_spec().variadic is None
    }

    pub fn new() -> (r: RegexFn)
        ensures
            r.wf(),
    {
        let mut inputs: Vec<ArgType> = Vec::new();
        inputs.push(ArgType::Any);
        inputs.push(ArgType::Any);
        RegexFn { signature: Signature { inputs, variadic: None } }
    }

    /// The string a source-literal expression-reference argument wraps;
    /// any other argument raises the fixed parse failure.
    pub fn string_literal(arg: &ArgVal) -> (r: Result<&String, FnError>)
        ensures
            match arg {
                ArgVal::Expref(ExprefKind::StrLit(p)) => r matches Ok(s) && s == p,
                _ => r matches Err(e) && e matches FnError::Parse(m) && m@
                    == LITERAL_PATTERN_MSG@,
            },
    {
        match arg {
            ArgVal::Expref(ExprefKind::StrLit(p)) => Ok(p),
            _ => Err(FnError::Parse(String::from_str(LITERAL_PATTERN_MSG))),
        }
    }

    /// The result of a capturing match of a compiled pattern against a
    /// subject: Null where the pattern does not match, otherwise the
    /// per-group results, group 0 first, an unmatched optional group Null
    /// in its position.
    fn match_regex(re: &regex::Regex, payload: &String) -> (r: FnOut)
        ensures
            match captures_of(regex_source(*re), payload@) {
                None => r == FnOut::Null,
                Some(gs) => r matches FnOut::Groups(out) && groups_view(out@) == gs,
            },
    {
        match pattern_captures(re, payload) {
            None => FnOut::Null,
            Some(gs) => FnOut::Groups(gs),
        }
    }

    /// Runs the pattern match. The signature is validated first; then the
    /// pattern argument must be a source-literal string, whatever it would
    /// evaluate to; the pattern is compiled through the cache; a
    /// non-string subject or an unmatched pattern yields Null; a match
    /// yields the per-group results, group 0 first.
    pub fn evaluate(&self, args: &Vec<ArgVal>, pats: &mut PatternCache) -> (r: Result<
        FnOut,
        FnError,
    >)
        requires
            self.wf(),
            old(pats).wf(),
        ensures
            final(pats).wf(),
            match self.sig_spec().validate_spec(args@) {
                Err(e) => r == Err::<FnOut, FnError>(e) && final(pats)@ == old(pats)@,
                Ok(_) => match args@[0] {
                    ArgVal::Expref(ExprefKind::StrLit(p)) => {
                        &&& (match regex_compile_err(p@) {
                            Some(m) => r matches Err(FnError::Parse(pm)) && pm@ == m,
                            None => match args@[1] {
                                ArgVal::Str(subj) => match captures_of(p@, subj@) {
                                    None => r == Ok::<FnOut, FnError>(FnOut::Null),
                                    Some(gs) => r matches Ok(FnOut::Groups(out))
                                        && groups_view(out@) == gs,
                                },
                                _ => r == Ok::<FnOut, FnError>(FnOut::Null),
                            },
                        })
                        &&& (if has_key(old(pats)@, p@) {
                            final(pats)@ == promoted(old(pats)@, p@)
                        } else {
                            exists|cv: Result<regex::Regex, String>|
                                final(pats)@ == #[trigger] inserted(
                                    old(pats)@,
                                    p@,
                                    cv,
                                    old(pats).cap_spec(),
                                )
                        })
                    },
                    _ => r matches Err(FnError::Parse(m)) && m@ == LITERAL_PATTERN_MSG@
                        && final(pats)@ == old(pats)@,
                },
            },
    {
        if let Err(e) = self.signature.validate(args) {
            return Err(e);
        }
        let pattern = match Self::string_literal(&args[0]) {
            Ok(p) => p,
            Err(e) => {
                return Err(e);
            }
        };
        let ghost pre = pats@;
        let hit = pats.inner.promote(pattern);
        if !hit {
            let compiled = compile_pattern(pattern);
            let ghost gcompiled = compiled;
            pats.inner.insert(pattern.clone(), compiled);
            proof {
                assert(pattern_entry_ok(pattern@, gcompiled));
                assert forall|i: int| 0 <= i < pats@.len() implies pattern_entry_ok(
                    (#[trigger] pats@[i]).0,
                    pats@[i].1,
                ) by {
                    if i > 0 {
                        if pre.len() < old(pats).cap_spec() {
                            assert(pats@[i] == pre[i - 1]);
                        } else {
                            assert(pats@[i] == pre.drop_last()[i - 1]);
                            assert(pre.drop_last()[i - 1] == pre[i - 1]);
                        }
                    }
                }
            }
        } else {
            proof {
                let idx = key_idx(pre, pattern@);
                assert(0 <= idx < pre.len() && pre[idx].0 == pattern@);
                assert forall|i: int| 0 <= i < pats@.len() implies pattern_entry_ok(
                    (#[trigger] pats@[i]).0,
                    pats@[i].1,
                ) by {
                    if i == 0 {
                        assert(pats@[0] == pre[idx]);
                    } else {
                        assert(pats@[i] == pre.remove(idx)[i - 1]);
                        if i - 1 < idx {
                            assert(pre.remove(idx)[i - 1] == pre[i - 1]);
                        } else {
                            assert(pre.remove(idx)[i - 1] == pre[i]);
                        }
                    }
                }
            }
        }
        proof {
            assert(has_key(pats@, pattern@));
            assert(pattern_entry_ok(pattern@, value_at(pats@, pattern@)));
        }
        let re = match pats.inner.peek(pattern) {
            Some(Ok(re)) => re,
            Some(Err(m)) => {
                return Err(FnError::Parse(m.clone()));
            }
            None => {
                proof {
                    assert(false);
                }
                return Err(FnError::Parse(String::new()));
            }
        };
        let subject = match &args[1] {
            ArgVal::Str(s) => s,
            _ => {
                return Ok(FnOut::Null);
            }
        };
        Ok(Self::match_regex(re, subject))
    }
}

} // verus!
