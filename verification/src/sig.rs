//! Function signatures and argument validation.
//!
//! Every domain function declares a signature: one type constraint per
//! required argument, and optionally a constraint that any further
//! (variadic) arguments must meet. The signature is checked before any
//! function logic runs; a mismatch is reported as a validation failure and
//! the function body never sees the arguments.

use vstd::prelude::*;

use crate::value::ArgVal;
use crate::value::ArrElem;
use crate::value::FnError;

verus! {

/// A per-argument type constraint.
#[derive(Clone, Copy, Debug)]
pub enum ArgType {
    /// Any value is accepted.
    Any,
    /// The argument must be a string.
    Str,
    /// The argument must be an array whose elements are all strings.
    ArrayOfStr,
}

/// Whether an array element is a string.
pub open spec fn is_str_elem(e: ArrElem) -> bool {
    e matches ArrElem::Str(_)
}

/// Whether a value meets a type constraint.
pub open spec fn type_ok(t: ArgType, v: ArgVal) -> bool {
    match t {
        ArgType::Any => true,
        ArgType::Str => v is Str,
        ArgType::ArrayOfStr => match v {
            ArgVal::Array(elems) => forall|i: int|
                0 <= i < elems.len() ==> is_str_elem(#[trigger] elems[i]),
            _ => false,
        },
    }
}

/// A function's signature: the required argument constraints, and the
/// constraint on any further arguments, where further arguments are
/// admitted at all.
#[derive(Clone, Debug)]
pub struct Signature {
    pub inputs: Vec<ArgType>,
    pub variadic: Option<ArgType>,
}

impl Signature {
    /// The constraint that applies to the argument at position `k`.
    pub open spec fn validator_at(self, k: int) -> ArgType {
        if k < self.inputs.len() {
            self.inputs[k]
        } else {
            self.variadic->0
        }
    }

    /// The outcome of checking the arguments from position `k` on:
    /// the first position whose value misses its constraint, if any.
    pub open spec fn check_types_from(self, args: Seq<ArgVal>, k: int) -> Result<(), FnError>
        decreases args.len() - k,
    {
        if k < 0 || k >= args.len() {
            Ok(())
        } else if !type_ok(self.validator_at(k), args[k]) {
            Err(FnError::BadArgType { position: k as usize })
        } else {
            self.check_types_from(args, k + 1)
        }
    }

    /// The outcome of validating `args` against this signature: the arity
    /// is checked first, then each argument in order against its
    /// constraint.
    pub open spec fn validate_spec(self, args: Seq<ArgVal>) -> Result<(), FnError> {
        if args.len() < self.inputs.len() {
            Err(
                FnError::NotEnoughArgs {
                    expected: self.inputs.len() as usize,
                    actual: args.len() as usize,
                },
            )
        } else if self.variadic is None && args.len() > self.inputs.len() {
            Err(
                FnError::TooManyArgs {
                    expected: self.inputs.len() as usize,
                    actual: args.len() as usize,
                },
            )
        } else {
            self.check_types_from(args, 0)
        }
    }

    /// A successfully validated argument list meets its constraint at
    /// every position.
    pub proof fn lemma_validate_ok(self, args: Seq<ArgVal>, j: int)
        requires
            self.validate_spec(args) is Ok,
            0 <= j < args.len(),
        ensures
            type_ok(self.validator_at(j), args[j]),
    {
        self.lemma_check_from_ok(args, 0, j);
    }

    proof fn lemma_check_from_ok(self, args: Seq<ArgVal>, k: int, j: int)
        requires
            self.check_types_from(args, k) is Ok,
            0 <= k <= j < args.len(),
        ensures
            type_ok(self.validator_at(j), args[j]),
        decreases j - k,
    {
        if k < j {
            self.lemma_check_from_ok(args, k + 1, j);
        }
    }

    /// Validates the arguments against the signature: the arity first,
    /// then each argument in order; the first mismatch is reported.
    pub fn validate(&self, args: &Vec<ArgVal>) -> (r: Result<(), FnError>)
        ensures
            r == self.validate_spec(args@),
    {
        let expected = self.inputs.len();
        let actual = args.len();
        if actual < expected {
            return Err(FnError::NotEnoughArgs { expected, actual });
        }
        if self.variadic.is_none() && actual > expected {
            return Err(FnError::TooManyArgs { expected, actual });
        }
        let mut k: usize = 0;
        while k < actual
            invariant
                0 <= k <= actual,
                actual == args.len(),
                expected == self.inputs.len(),
                actual >= expected,
                self.variadic is None ==> actual == expected,
                self.validate_spec(args@) == self.check_types_from(args@, k as int),
            decreases actual - k,
        {
            let t = if k < expected {
                self.inputs[k]
            } else {
                *self.variadic.as_ref().unwrap()
            };
            if !Self::value_matches(t, &args[k]) {
                assert(!type_ok(self.validator_at(k as int), args@[k as int]));
                return Err(FnError::BadArgType { position: k });
            }
            k = k + 1;
        }
        Ok(())
    }

    /// Whether a value meets a constraint; the executable mirror of
    /// `type_ok`.
    pub fn value_matches(t: ArgType, v: &ArgVal) -> (r: bool)
        ensures
            r == type_ok(t, *v),
    {
        match t {
            ArgType::Any => true,
            ArgType::Str => matches!(v, ArgVal::Str(_)),
            ArgType::ArrayOfStr => match v {
                ArgVal::Array(elems) => Self::all_str(elems),
                _ => false,
            },
        }
    }

    /// Whether every element of the array is a string.
    pub fn all_str(elems: &Vec<ArrElem>) -> (r: bool)
        ensures
            r == (forall|i: int| 0 <= i < elems.len() ==> is_str_elem(#[trigger] elems[i])),
    {
        let mut i: usize = 0;
        let n = elems.len();
        while i < n
            invariant
                0 <= i <= n,
                n == elems.len(),
                forall|j: int| 0 <= j < i ==> is_str_elem(#[trigger] elems[j]),
            decreases n - i,
        {
            match &elems[i] {
                ArrElem::Str(_) => {}
                ArrElem::Other => {
                    assert(!is_str_elem(elems[i as int]));
                    return false;
                }
            }
            i = i + 1;
        }
        true
    }
}

} // verus!
