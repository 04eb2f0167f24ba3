//! The phone-number parsing function.
//!
//! `phone_number(value, countries?)` parses a phone number. A non-string
//! value yields Null. Without a country list the number is parsed once as
//! an international number (a leading calling code is required) and an
//! invalid number yields Null. With a country list the number is parsed
//! once per listed country, every failed attempt is swallowed, the
//! records of all countries whose parse succeeded are collected into an
//! array, and Null is yielded when none succeeded. Whether the single- or
//! the all-matching mode runs is decided purely by whether a country list
//! argument was supplied at all.

use vstd::prelude::*;

use std::str::FromStr;

use crate::sig::ArgType;
use crate::sig::Signature;
use crate::value::ArgVal;
use crate::value::ArrElem;
use crate::value::FnError;
use crate::value::FnOut;
use crate::value::PhoneRecord;

verus! {

/// The outcome of one parse attempt of a number under a country hint (the
/// hint names a country case-insensitively; an unknown hint means an
/// international parse). Absent where the text does not parse at all;
/// otherwise the hint's canonical identifier, whether the number is valid,
/// the country identifier, the calling code, the national number, its
/// leading zeros, and the carrier.
pub uninterp spec fn phone_parse(hint: Option<Seq<char>>, number: Seq<char>) -> Option<
    (Option<Seq<char>>, bool, Option<Seq<char>>, u16, u64, u8, Option<Seq<char>>),
>;

/// The characters of an optional string.
pub open spec fn opt_str_view(o: Option<String>) -> Option<Seq<char>> {
    match o {
        Some(s) => Some(s@),
        None => None,
    }
}

/// Whether a record carries exactly the fields of a parse outcome.
pub open spec fn rec_matches(
    rec: PhoneRecord,
    p: (Option<Seq<char>>, bool, Option<Seq<char>>, u16, u64, u8, Option<Seq<char>>),
) -> bool {
    &&& opt_str_view(rec.from) == p.0
    &&& rec.valid == p.1
    &&& opt_str_view(rec.country) == p.2
    &&& rec.country_code == p.3
    &&& rec.national == p.4
    &&& rec.national_zeros == p.5
    &&& opt_str_view(rec.carrier) == p.6
}

/// Relies on phonenumber::parse and the accessors of the parsed number:
/// the outcome is a function of the country hint and the number text
/// alone, the numbering metadata being compiled into the crate. The hint
/// is upper-cased and matched against the two-letter country identifiers;
/// an unknown hint parses internationally.
#[verifier::external_body]
fn parse_phone(hint: &Option<String>, number: &String) -> (r: Option<PhoneRecord>)
    ensures
        match (r, phone_parse(opt_str_view(*hint), number@)) {
            (Some(rec), Some(p)) => rec_matches(rec, p),
            (None, None) => true,
            _ => false,
        },
{
    let id = hint.as_ref().and_then(
        |h| phonenumber::country::Id::from_str(h.to_uppercase().as_str()).ok(),
    );
    match phonenumber::parse(id, number.as_str()) {
        Ok(n) => Some(PhoneRecord {
            from: id.map(|i| i.as_ref().to_string()),
            valid: n.is_valid(),
            country: n.country().id().map(|i| i.as_ref().to_string()),
            country_code: n.country().code(),
            national: n.national().value(),
            national_zeros: n.national().zeros(),
            carrier: n.carrier().map(|c| c.as_ref().to_string()),
        }),
        Err(_) => None,
    }
}

/// The characters of a vector of optional country hints.
pub open spec fn hints_view(hs: Seq<Option<String>>) -> Seq<Option<Seq<char>>> {
    hs.map_values(|h: Option<String>| opt_str_view(h))
}

/// The parse outcomes one hint contributes: its record where the text
/// parses and the number is valid for that hint, nothing otherwise.
pub open spec fn hit_of(hint: Option<Seq<char>>, num: Seq<char>) -> Seq<
    (Option<Seq<char>>, bool, Option<Seq<char>>, u16, u64, u8, Option<Seq<char>>),
> {
    match phone_parse(hint, num) {
        Some(p) => if p.1 {
            seq![p]
        } else {
            Seq::empty()
        },
        None => Seq::empty(),
    }
}

/// The successful parse outcomes of a number under a hint list, in the
/// list's order.
pub open spec fn phone_hits(hints: Seq<Option<Seq<char>>>, num: Seq<char>) -> Seq<
    (Option<Seq<char>>, bool, Option<Seq<char>>, u16, u64, u8, Option<Seq<char>>),
>
    decreases hints.len(),
{
    if hints.len() == 0 {
        Seq::empty()
    } else {
        phone_hits(hints.drop_last(), num) + hit_of(hints.last(), num)
    }
}

/// The hits of a prefix of the hint list are a prefix of the hits of the
/// whole list.
proof fn lemma_hits_prefix(hints: Seq<Option<Seq<char>>>, num: Seq<char>, j: int)
    requires
        0 <= j <= hints.len(),
    ensures
        phone_hits(hints, num).len() >= phone_hits(hints.take(j), num).len(),
        forall|x: int|
            0 <= x < phone_hits(hints.take(j), num).len() ==> phone_hits(hints, num)[x]
                == #[trigger] phone_hits(hints.take(j), num)[x],
    decreases hints.len() - j,
{
    if j == hints.len() {
        assert(hints.take(j) =~= hints);
    } else {
        lemma_hits_prefix(hints, num, j + 1);
        assert(hints.take(j + 1).drop_last() =~= hints.take(j));
        assert(hints.take(j + 1).last() == hints[j]);
        assert(phone_hits(hints.take(j + 1), num) == phone_hits(hints.take(j), num) + hit_of(
            hints[j],
            num,
        ));
        assert(phone_hits(hints.take(j + 1), num).len() >= phone_hits(
            hints.take(j),
            num,
        ).len());
        assert forall|x: int| 0 <= x < phone_hits(hints.take(j), num).len() implies phone_hits(
            hints,
            num,
        )[x] == #[trigger] phone_hits(hints.take(j), num)[x] by {
            assert(phone_hits(hints.take(j + 1), num)[x] == phone_hits(hints.take(j), num)[x]);
            assert(phone_hits(hints, num)[x] == phone_hits(hints.take(j + 1), num)[x]);
        }
    }
}

/// The hints the countries argument denotes: its string elements; an
/// argument that is no array contributes no hint at all.
pub open spec fn elems_hints(a: ArgVal) -> Seq<Option<Seq<char>>> {
    match a {
        ArgVal::Array(elems) => elems@.map_values(
            |e: ArrElem|
                match e {
                    ArrElem::Str(s) => Some(s@),
                    ArrElem::Other => None,
                },
        ),
        _ => Seq::empty(),
    }
}

/// The phone-number function: a value of any type, then any number of
/// arrays of country-hint strings (only the first is read).
pub struct PhoneNumberFn {
    signature: Signature,
}

impl Default for PhoneNumberFn {
    fn default() -> (r: PhoneNumberFn)
        ensures
            r.wf(),
    {
        PhoneNumberFn::new()
    }
}

impl PhoneNumberFn {
    /// The function's declared signature.
    pub closed spec fn sig_spec(self) -> Signature {
        self.signature
    }

    /// The declared signature: one argument of any type, and arrays of
    /// strings beyond it.
    pub open spec fn wf(self) -> bool {
        &&& self.sig_spec().inputs@ =~= seq![ArgType::Any]
        &&& self.sig_spec().variadic == Some(ArgType::ArrayOfStr)
    }

    pub fn new() -> (r: PhoneNumberFn)
        ensures
            r.wf(),
    {
        let mut inputs: Vec<ArgType> = Vec::new();
        inputs.push(ArgType::Any);
        PhoneNumberFn { signature: Signature { inputs, variadic: Some(ArgType::ArrayOfStr) } }
    }

    /// One parse attempt of a number under a country hint: its record
    /// where the text parses and the number is valid, nothing otherwise.
    pub fn parse_number(hint: &Option<String>, number: &String) -> (r: Option<PhoneRecord>)
        ensures
            match phone_parse(opt_str_view(*hint), number@) {
                Some(p) => if p.1 {
                    r matches Some(rec) && rec_matches(rec, p)
                } else {
                    r is None
                },
                None => r is None,
            },
    {
        match parse_phone(hint, number) {
            Some(rec) => {
                if rec.valid {
                    Some(rec)
                } else {
                    None
                }
            }
            None => None,
        }
    }

    /// The country hints an argument carries: its string elements.
    fn load_countries(arg: &ArgVal) -> (r: Vec<Option<String>>)
        ensures
            hints_view(r@) == elems_hints(*arg),
    {
        let mut out: Vec<Option<String>> = Vec::new();
        match arg {
            ArgVal::Array(elems) => {
                let n = elems.len();
                let mut i: usize = 0;
                while i < n
                    invariant
                        0 <= i <= n,
                        n == elems.len(),
                        hints_view(out@) =~= elems_hints(ArgVal::Array(*elems)).take(i as int),
                    decreases n - i,
                {
                    let ghost pre = out@;
                    let h: Option<String> = match &elems[i] {
                        ArrElem::Str(s) => Some(s.clone()),
                        ArrElem::Other => None,
                    };
                    proof {
                        assert(opt_str_view(h) == elems_hints(ArgVal::Array(*elems))[i as int]);
                    }
                    out.push(h);
                    proof {
                        assert(pre.len() == i as int) by {
                            assert(hints_view(pre).len() == pre.len());
                            assert(elems_hints(ArgVal::Array(*elems)).take(i as int).len() == i
                                as int);
                        }
                        assert forall|x: int| 0 <= x < i + 1 implies hints_view(out@)[x]
                            == elems_hints(ArgVal::Array(*elems)).take(i + 1)[x] by {
                            if x < i {
                                assert(out@[x] == pre[x]);
                                assert(hints_view(pre)[x] == elems_hints(
                                    ArgVal::Array(*elems),
                                ).take(i as int)[x]);
                            } else {
                                assert(out@[x] == h);
                            }
                        }
                        assert(hints_view(out@) =~= elems_hints(ArgVal::Array(*elems)).take(
                            i + 1,
                        ));
                    }
                    i = i + 1;
                }
                proof {
                    assert(hints_view(out@) =~= elems_hints(ArgVal::Array(*elems)));
                }
            }
            _ => {
                proof {
                    assert(hints_view(out@) =~= elems_hints(*arg));
                }
            }
        }
        out
    }

    /// Attempts the number once per hint. In single mode the first
    /// success is the result; otherwise every success is collected. No
    /// success at all yields Null.
    fn match_number_on(num: &String, hints: &Vec<Option<String>>, single: bool) -> (r: FnOut)
        ensures
            ({
                let hits = phone_hits(hints_view(hints@), num@);
                if hits.len() == 0 {
                    r == FnOut::Null
                } else if single {
                    r matches FnOut::Phone(rec) && rec_matches(rec, hits[0])
                } else {
                    r matches FnOut::Phones(recs) && recs@.len() == hits.len() && forall|x: int|
                        0 <= x < hits.len() ==> rec_matches(#[trigger] recs@[x], hits[x])
                }
            }),
    {
        let ghost hs = hints_view(hints@);
        let mut recs: Vec<PhoneRecord> = Vec::new();
        let n = hints.len();
        let mut i: usize = 0;
        while i < n
            invariant
                0 <= i <= n,
                n == hints@.len(),
                hs == hints_view(hints@),
                recs@.len() == phone_hits(hs.take(i as int), num@).len(),
                forall|x: int|
                    0 <= x < recs@.len() ==> rec_matches(
                        #[trigger] recs@[x],
                        phone_hits(hs.take(i as int), num@)[x],
                    ),
                single ==> recs@.len() == 0,
            decreases n - i,
        {
            proof {
                assert(hs.take(i + 1).drop_last() =~= hs.take(i as int));
                assert(hs.take(i + 1).last() == hs[i as int]);
                assert(hs[i as int] == opt_str_view(hints@[i as int]));
            }
            let parsed = Self::parse_number(&hints[i], num);
            if let Some(rec) = parsed {
                if single {
                    proof {
                        lemma_hits_prefix(hs, num@, i + 1);
                        assert(phone_hits(hs.take(i + 1), num@)[0] == phone_hits(hs, num@)[0]);
                    }
                    return FnOut::Phone(rec);
                }
                recs.push(rec);
            }
            i = i + 1;
        }
        proof {
            assert(hs.take(n as int) =~= hs);
        }
        if recs.len() == 0 {
            FnOut::Null
        } else {
            FnOut::Phones(recs)
        }
    }

    /// Parses the value argument. A non-string value yields Null; a
    /// string is attempted per listed country, or once internationally
    /// when no country list was supplied at all.
    pub fn evaluate(&self, args: &Vec<ArgVal>) -> (r: Result<FnOut, FnError>)
        requires
            self.wf(),
        ensures
            match self.sig_spec().validate_spec(args@) {
                Err(e) => r == Err::<FnOut, FnError>(e),
                Ok(_) => match args@[0] {
                    ArgVal::Str(num) => ({
                        let hs = if args@.len() > 1 {
                            elems_hints(args@[1])
                        } else {
                            seq![Option::<Seq<char>>::None]
                        };
                        let hits = phone_hits(hs, num@);
                        if hits.len() == 0 {
                            r == Ok::<FnOut, FnError>(FnOut::Null)
                        } else if args@.len() <= 1 {
                            r matches Ok(FnOut::Phone(rec)) && rec_matches(rec, hits[0])
                        } else {
                            r matches Ok(FnOut::Phones(recs)) && recs@.len() == hits.len()
                                && forall|x: int|
                                0 <= x < hits.len() ==> rec_matches(
                                    #[trigger] recs@[x],
                                    hits[x],
                                )
                        }
                    }),
                    _ => r == Ok::<FnOut, FnError>(FnOut::Null),
                },
            },
    {
        if let Err(e) = self.signature.validate(args) {
            return Err(e);
        }
        let num = match &args[0] {
            ArgVal::Str(s) => s,
            _ => {
                return Ok(FnOut::Null);
            }
        };
        let single = args.len() <= 1;
        let hints = if args.len() > 1 {
            Self::load_countries(&args[1])
        } else {
            let mut one: Vec<Option<String>> = Vec::new();
            one.push(None);
            proof {
                assert(hints_view(one@) =~= seq![Option::<Seq<char>>::None]);
            }
            one
        };
        Ok(Self::match_number_on(num, &hints, single))
    }
}

} // verus!
