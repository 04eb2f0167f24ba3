//! The current-time function.
//!
//! `now()` takes no arguments and yields the current wall-clock time as
//! Unix seconds plus sub-second nanoseconds. Of the clock value itself
//! nothing can be promised; the function cannot fail once its arity is
//! validated.

use vstd::prelude::*;

use crate::sig::ArgType;
use crate::sig::Signature;
use crate::value::ArgVal;
use crate::value::FnError;
use crate::value::FnOut;

verus! {

/// Relies on chrono::Utc::now: the wall clock decides the value; the
/// sub-second nanoseconds lie below two billion (the extra second covers
/// a leap second).
#[verifier::external_body]
fn clock_now() -> (r: (i64, u32))
    ensures
        r.1 < 2_000_000_000,
{
    let now = chrono::Utc::now();
    (now.timestamp(), now.timestamp_subsec_nanos())
}

/// The current-time function: no arguments.
pub struct NowFn {
    signature: Signature,
}

impl Default for NowFn {
    fn default() -> (r: NowFn)
        ensures
            r.wf(),
    {
        NowFn::new()
    }
}

impl NowFn {
    /// The function's declared signature.
    pub closed spec fn sig_spec(self) -> Signature {
        self.signature
    }

    /// The declared signature: no arguments at all.
    pub open spec fn wf(self) -> bool {
        &&& self.sig_spec().inputs@ =~= Seq::<ArgType>::empty()
        &&& self.sig_spec().variadic is None
    }

    pub fn new() -> (r: NowFn)
        ensures
            r.wf(),
    {
        NowFn { signature: Signature { inputs: Vec::new(), variadic: None } }
    }

    /// Reads the clock: with the arity validated, the call always
    /// succeeds and yields a timestamp, whatever the clock said.
    pub fn evaluate(&self, args: &Vec<ArgVal>) -> (r: Result<FnOut, FnError>)
        requires
            self.wf(),
        ensures
            match self.sig_spec().validate_spec(args@) {
                Err(e) => r == Err::<FnOut, FnError>(e),
                Ok(_) => r matches Ok(FnOut::Timestamp { unix_secs, subsec_nanos })
                    && subsec_nanos < 2_000_000_000,
            },
    {
        if let Err(e) = self.signature.validate(args) {
            return Err(e);
        }
        let (unix_secs, subsec_nanos) = clock_now();
        Ok(FnOut::Timestamp { unix_secs, subsec_nanos })
    }
}

} // verus!
