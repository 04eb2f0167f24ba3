//! The value model the domain functions compute over.
//!
//! The expression engine hands a function its already-evaluated arguments.
//! The functions here read only a shallow slice of those values: the kind of
//! a value, the characters of a string, the string elements of an array, and
//! whether an expression-reference argument is a source-literal string.
//! `ArgVal` captures exactly that slice as plain data.

use vstd::prelude::*;

verus! {

/// What an expression-reference argument looks like once compiled: either a
/// source-literal string (the only form the pattern-matching function
/// accepts), or anything else.
#[derive(Clone, Debug)]
pub enum ExprefKind {
    /// The reference wraps a string literal fixed in the rule's source.
    StrLit(String),
    /// The reference wraps any other sub-expression.
    Other,
}

/// An element of an array argument, as far as the functions read it.
#[derive(Clone, Debug)]
pub enum ArrElem {
    Str(String),
    Other,
}

/// A function argument, as far as the domain functions read it.
#[derive(Clone, Debug)]
pub enum ArgVal {
    Null,
    Bool(bool),
    Number,
    Str(String),
    Array(Vec<ArrElem>),
    Object,
    Expref(ExprefKind),
}

/// One record of a successful phone-number parse, as the evaluation
/// result carries it.
#[derive(Clone, Debug)]
pub struct PhoneRecord {
    /// The country hint the parse was made with, normalized to its
    /// two-letter identifier; absent for an international parse.
    pub from: Option<String>,
    /// The identifier of the country the number belongs to.
    pub country: Option<String>,
    /// The country calling code.
    pub country_code: u16,
    /// The national significant number.
    pub national: u64,
    /// Leading zeros of the national number.
    pub national_zeros: u8,
    /// Whether the number is valid; always true in a returned record.
    pub valid: bool,
    /// The carrier, where the metadata knows one.
    pub carrier: Option<String>,
}

/// A domain function's successful result, as plain data. The engine glue
/// renders it into the expression language's value type.
#[derive(Clone, Debug)]
pub enum FnOut {
    Null,
    Bool(bool),
    /// A non-negative duration: whole seconds plus sub-second nanoseconds.
    Seconds { secs: u64, nanos: u32 },
    /// A wall-clock instant: Unix seconds plus sub-second nanoseconds.
    Timestamp { unix_secs: i64, subsec_nanos: u32 },
    /// Per-capture-group results of a pattern match: group 0 is the whole
    /// match; an unmatched optional group is absent in its position.
    Groups(Vec<Option<String>>),
    /// A single phone-number record.
    Phone(PhoneRecord),
    /// All matching phone-number records, one per country that parsed.
    Phones(Vec<PhoneRecord>),
}

/// How a domain function fails. Validation failures come from the signature
/// check that runs before any function logic; parse failures from the
/// function logic itself.
#[derive(Clone, Debug)]
pub enum FnError {
    /// Fewer arguments than the signature requires.
    NotEnoughArgs { expected: usize, actual: usize },
    /// More arguments than the signature admits.
    TooManyArgs { expected: usize, actual: usize },
    /// The argument at this position has the wrong type.
    BadArgType { position: usize },
    /// A parse failure, carrying its message.
    Parse(String),
}

} // verus!
