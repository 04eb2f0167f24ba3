//! The duration-parsing function.
//!
//! `duration(text)` parses a human-readable duration such as `"1h1m100ms"`
//! into whole seconds plus sub-second nanoseconds. A malformed or
//! negative-magnitude string raises a parse failure carrying the
//! underlying parser's message.

use vstd::prelude::*;
use vstd::string::StringExecFns;

use crate::sig::ArgType;
use crate::sig::Signature;
use crate::value::ArgVal;
use crate::value::FnError;
use crate::value::FnOut;

verus! {

/// The prefix of the failure message the function raises.
pub const DURATION_ERR_PREFIX: &'static str = "Error parsing duration: ";

/// The outcome of parsing a duration text: whole seconds and sub-second
/// nanoseconds, or the parser's error message.
pub uninterp spec fn duration_parse(s: Seq<char>) -> Result<(u64, u32), Seq<char>>;

/// Relies on parse_duration::parse: the outcome is a function of the text
/// alone; a std Duration's sub-second nanoseconds lie below one billion.
#[verifier::external_body]
fn parse_duration_raw(s: &String) -> (r: Result<(u64, u32), String>)
    ensures
        match r {
            Ok(p) => duration_parse(s@) matches Ok(q) && p == q && p.1 < 1_000_000_000,
            Err(m) => duration_parse(s@) matches Err(e) && m@ == e,
        },
{
    match parse_duration::parse(s.as_str()) {
        Ok(d) => Ok((d.as_secs(), d.subsec_nanos())),
        Err(e) => Err(e.to_string()),
    }
}

/// The duration-parsing function: one string argument.
pub struct DurationFn {
    signature: Signature,
}

impl Default for DurationFn {
    fn default() -> (r: DurationFn)
        ensures
            r.wf(),
    {
        DurationFn::new()
    }
}

impl DurationFn {
    /// The function's declared signature.
    pub closed spec fn sig_spec(self) -> Signature {
        self.signature
    }

    /// The declared signature: one string argument.
    pub open spec fn wf(self) -> bool {
        &&& self.sig_spec().inputs@ =~= seq![ArgType::Str]
        &&& self.sig_spec().variadic is None
    }

    pub fn new() -> (r: DurationFn)
        ensures
            r.wf(),
    {
        let mut inputs: Vec<ArgType> = Vec::new();
        inputs.push(ArgType::Str);
        DurationFn { signature: Signature { inputs, variadic: None } }
    }

    /// Parses a duration text into whole seconds and sub-second
    /// nanoseconds, or hands back the parser's message.
    pub fn parse_duration(text: &String) -> (r: Result<(u64, u32), String>)
        ensures
            match r {
                Ok(p) => duration_parse(text@) matches Ok(q) && p == q && p.1 < 1_000_000_000,
                Err(m) => duration_parse(text@) matches Err(e) && m@ == e,
            },
    {
        parse_duration_raw(text)
    }

    /// Parses the string argument: a well-formed duration yields its
    /// seconds-and-nanoseconds value, a malformed one a parse failure
    /// whose message carries the parser's own.
    pub fn evaluate(&self, args: &Vec<ArgVal>) -> (r: Result<FnOut, FnError>)
        requires
            self.wf(),
        ensures
            match self.sig_spec().validate_spec(args@) {
                Err(e) => r == Err::<FnOut, FnError>(e),
                Ok(_) => match args@[0] {
                    ArgVal::Str(s) => match duration_parse(s@) {
                        Ok(p) => r == Ok::<FnOut, FnError>(
                            FnOut::Seconds { secs: p.0, nanos: p.1 },
                        ),
                        Err(m) => r matches Err(FnError::Parse(msg)) && msg@
                            == DURATION_ERR_PREFIX@ + m,
                    },
                    _ => true,
                },
            },
    {
        if let Err(e) = self.signature.validate(args) {
            return Err(e);
        }
        let text = match &args[0] {
            ArgVal::Str(s) => s,
            _ => {
                proof {
                    self.sig_spec().lemma_validate_ok(args@, 0);
                    assert(false);
                }
                return Err(FnError::Parse(String::new()));
            }
        };
        match Self::parse_duration(text) {
            Ok((secs, nanos)) => Ok(FnOut::Seconds { secs, nanos }),
            Err(m) => Err(FnError::Parse(String::from_str(DURATION_ERR_PREFIX).concat(m.as_str()))),
        }
    }
}

} // verus!
