//! The email-validity function.
//!
//! `valid_email(value)` returns a boolean: whether the value is a string
//! that passes format validation and does not belong to a known
//! disposable-mail domain. A non-string argument is simply `false`, never
//! an error.

use vstd::prelude::*;

use crate::sig::ArgType;
use crate::sig::Signature;
use crate::value::ArgVal;
use crate::value::FnError;
use crate::value::FnOut;

verus! {

/// Whether a string is a valid, non-disposable email address.
pub uninterp spec fn email_valid(s: Seq<char>) -> bool;

/// Relies on mailchecker::is_valid: a format check plus the crate's
/// bundled disposable-domain blocklist. The crate also consults its
/// process-global custom-domain list, mutable only through its own API,
/// which nothing in this program touches; the verdict is therefore a
/// function of the characters alone.
#[verifier::external_body]
fn check_email(s: &String) -> (r: bool)
    ensures
        r == email_valid(s@),
{
    mailchecker::is_valid(s.as_str())
}

/// The email-validity function: one argument of any type.
pub struct EmailFn {
    signature: Signature,
}

impl Default for EmailFn {
    fn default() -> (r: EmailFn)
        ensures
            r.wf(),
    {
        EmailFn::new()
    }
}

impl EmailFn {
    /// The function's declared signature.
    pub closed spec fn sig_spec(self) -> Signature {
        self.signature
    }

    /// The declared signature: one argument of any type.
    pub open spec fn wf(self) -> bool {
        &&& self.sig_spec().inputs@ =~= seq![ArgType::Any]
        &&& self.sig_spec().variadic is None
    }

    pub fn new() -> (r: EmailFn)
        ensures
            r.wf(),
    {
        let mut inputs: Vec<ArgType> = Vec::new();
        inputs.push(ArgType::Any);
        EmailFn { signature: Signature { inputs, variadic: None } }
    }

    /// Checks the argument: a string yields its validity verdict, any
    /// other value yields `false`; the check itself never fails.
    pub fn evaluate(&self, args: &Vec<ArgVal>) -> (r: Result<FnOut, FnError>)
        requires
            self.wf(),
        ensures
            match self.sig_spec().validate_spec(args@) {
                Err(e) => r == Err::<FnOut, FnError>(e),
                Ok(_) => match args@[0] {
                    ArgVal::Str(s) => r == Ok::<FnOut, FnError>(FnOut::Bool(email_valid(s@))),
                    _ => r == Ok::<FnOut, FnError>(FnOut::Bool(false)),
                },
            },
    {
        if let Err(e) = self.signature.validate(args) {
            return Err(e);
        }
        match &args[0] {
            ArgVal::Str(s) => Ok(FnOut::Bool(check_email(s))),
            _ => Ok(FnOut::Bool(false)),
        }
    }
}

} // verus!
