//! Direct tests of the domain functions on plain argument values.

use rudo::ArgVal;
use rudo::ArrElem;
use rudo::DurationFn;
use rudo::EmailFn;
use rudo::ExprefKind;
use rudo::FnError;
use rudo::FnOut;
use rudo::NowFn;
use rudo::PatternCache;
use rudo::PhoneNumberFn;
use rudo::RegexFn;

const LITERAL_MSG: &str = "Regex must be a literal string please only use &'...'";

fn s(x: &str) -> String {
    x.to_string()
}

fn pattern_arg(p: &str) -> ArgVal {
    ArgVal::Expref(ExprefKind::StrLit(s(p)))
}

#[test]
fn match_literal_date_pattern_captures_all_groups() {
    let f = RegexFn::new();
    let mut pats = PatternCache::new();
    let args = vec![pattern_arg(r"(\d{4})-(\d{2})-(\d{2})"), ArgVal::Str(s("2010-03-14"))];
    match f.evaluate(&args, &mut pats) {
        Ok(FnOut::Groups(gs)) => {
            let texts: Vec<Option<String>> = gs;
            assert_eq!(
                texts,
                vec![
                    Some(s("2010-03-14")),
                    Some(s("2010")),
                    Some(s("03")),
                    Some(s("14"))
                ]
            );
        }
        other => panic!("expected groups, got {:?}", other),
    }
}

#[test]
fn match_unmatched_pattern_yields_null() {
    let f = RegexFn::new();
    let mut pats = PatternCache::new();
    let args = vec![pattern_arg("foo"), ArgVal::Str(s("bar"))];
    assert!(matches!(f.evaluate(&args, &mut pats), Ok(FnOut::Null)));
}

#[test]
fn match_non_string_subject_yields_null() {
    let f = RegexFn::new();
    let mut pats = PatternCache::new();
    for subject in [ArgVal::Null, ArgVal::Number, ArgVal::Bool(true), ArgVal::Object] {
        let args = vec![pattern_arg("foo"), subject];
        assert!(matches!(f.evaluate(&args, &mut pats), Ok(FnOut::Null)));
    }
}

#[test]
fn match_dynamic_pattern_rejected_whatever_it_evaluates_to() {
    let f = RegexFn::new();
    let mut pats = PatternCache::new();
    let dynamic_args = [
        ArgVal::Str(s("foo")),
        ArgVal::Null,
        ArgVal::Number,
        ArgVal::Bool(true),
        ArgVal::Array(vec![ArrElem::Str(s("foo"))]),
        ArgVal::Object,
        ArgVal::Expref(ExprefKind::Other),
    ];
    for arg0 in dynamic_args {
        let args = vec![arg0, ArgVal::Str(s("2010-03-14"))];
        match f.evaluate(&args, &mut pats) {
            Err(FnError::Parse(m)) => assert_eq!(m, LITERAL_MSG),
            other => panic!("expected the fixed parse failure, got {:?}", other),
        }
    }
}

#[test]
fn match_bad_pattern_fails_identically_on_repeat() {
    let f = RegexFn::new();
    let mut pats = PatternCache::new();
    let args = vec![pattern_arg("("), ArgVal::Str(s("x"))];
    let first = match f.evaluate(&args, &mut pats) {
        Err(FnError::Parse(m)) => m,
        other => panic!("expected a parse failure, got {:?}", other),
    };
    let second = match f.evaluate(&args, &mut pats) {
        Err(FnError::Parse(m)) => m,
        other => panic!("expected a parse failure, got {:?}", other),
    };
    assert_eq!(first, second);
}

#[test]
fn valid_email_accepts_plain_gmail_address() {
    let f = EmailFn::new();
    let args = vec![ArgVal::Str(s("user@gmail.com"))];
    assert!(matches!(f.evaluate(&args), Ok(FnOut::Bool(true))));
}

#[test]
fn valid_email_rejects_disposable_domain() {
    let f = EmailFn::new();
    let args = vec![ArgVal::Str(s("foo@guerrillamailblock.com"))];
    assert!(matches!(f.evaluate(&args), Ok(FnOut::Bool(false))));
}

#[test]
fn valid_email_non_string_is_false_not_error() {
    let f = EmailFn::new();
    for arg in [ArgVal::Null, ArgVal::Number, ArgVal::Bool(true), ArgVal::Object] {
        assert!(matches!(f.evaluate(&vec![arg]), Ok(FnOut::Bool(false))));
    }
}

#[test]
fn valid_email_arity_is_validated() {
    let f = EmailFn::new();
    let args = vec![ArgVal::Null, ArgVal::Null];
    match f.evaluate(&args) {
        Err(FnError::TooManyArgs { expected, actual }) => {
            assert_eq!(expected, 1);
            assert_eq!(actual, 2);
        }
        other => panic!("expected an arity failure, got {:?}", other),
    }
    match f.evaluate(&vec![]) {
        Err(FnError::NotEnoughArgs { expected, actual }) => {
            assert_eq!(expected, 1);
            assert_eq!(actual, 0);
        }
        other => panic!("expected an arity failure, got {:?}", other),
    }
}

#[test]
fn duration_sums_units_to_seconds_and_nanos() {
    let f = DurationFn::new();
    let args = vec![ArgVal::Str(s("1h1m100ms"))];
    match f.evaluate(&args) {
        Ok(FnOut::Seconds { secs, nanos }) => {
            assert_eq!(secs, 3660);
            assert_eq!(nanos, 100_000_000);
            assert_eq!(3660.1, secs as f64 + nanos as f64 / 1_000_000_000.0);
        }
        other => panic!("expected seconds, got {:?}", other),
    }
}

#[test]
fn duration_negative_magnitude_is_an_error() {
    let f = DurationFn::new();
    let args = vec![ArgVal::Str(s("-1ns"))];
    match f.evaluate(&args) {
        Err(FnError::Parse(m)) => assert!(m.starts_with("Error parsing duration: ")),
        other => panic!("expected a parse failure, got {:?}", other),
    }
}

#[test]
fn duration_parse_exposes_the_raw_outcome() {
    assert_eq!(
        DurationFn::parse_duration(&s("1h1m100ms")),
        Ok((3660, 100_000_000))
    );
    assert!(DurationFn::parse_duration(&s("-1ns")).is_err());
}

#[test]
fn duration_rejects_non_string_argument() {
    let f = DurationFn::new();
    match f.evaluate(&vec![ArgVal::Number]) {
        Err(FnError::BadArgType { position }) => assert_eq!(position, 0),
        other => panic!("expected a type failure, got {:?}", other),
    }
}

#[test]
fn phone_number_with_matching_country_yields_valid_record() {
    let f = PhoneNumberFn::new();
    let args = vec![
        ArgVal::Str(s("033316005")),
        ArgVal::Array(vec![ArrElem::Str(s("nz"))]),
    ];
    match f.evaluate(&args) {
        Ok(FnOut::Phones(recs)) => {
            assert_eq!(recs.len(), 1);
            assert!(recs[0].valid);
            assert_eq!(recs[0].from.as_deref(), Some("NZ"));
            assert_eq!(recs[0].country.as_deref(), Some("NZ"));
            assert_eq!(recs[0].country_code, 64);
            assert_eq!(recs[0].national, 33316005);
        }
        other => panic!("expected phone records, got {:?}", other),
    }
}

#[test]
fn phone_number_with_wrong_country_yields_null() {
    let f = PhoneNumberFn::new();
    let args = vec![
        ArgVal::Str(s("033316005")),
        ArgVal::Array(vec![ArrElem::Str(s("us"))]),
    ];
    assert!(matches!(f.evaluate(&args), Ok(FnOut::Null)));
}

#[test]
fn phone_number_international_without_countries_yields_record() {
    let f = PhoneNumberFn::new();
    let args = vec![ArgVal::Str(s("+33-655-562-025"))];
    match f.evaluate(&args) {
        Ok(FnOut::Phone(rec)) => {
            assert!(rec.valid);
            assert_eq!(rec.from, None);
            assert_eq!(rec.country.as_deref(), Some("FR"));
        }
        other => panic!("expected one phone record, got {:?}", other),
    }
}

#[test]
fn phone_number_without_calling_code_yields_null() {
    let f = PhoneNumberFn::new();
    let args = vec![ArgVal::Str(s("33655562025"))];
    assert!(matches!(f.evaluate(&args), Ok(FnOut::Null)));
}

#[test]
fn phone_number_non_string_value_yields_null() {
    let f = PhoneNumberFn::new();
    for arg in [ArgVal::Null, ArgVal::Number, ArgVal::Bool(false), ArgVal::Object] {
        assert!(matches!(f.evaluate(&vec![arg]), Ok(FnOut::Null)));
    }
}

#[test]
fn phone_number_countries_argument_must_be_string_array() {
    let f = PhoneNumberFn::new();
    let args = vec![ArgVal::Str(s("033316005")), ArgVal::Str(s("nz"))];
    match f.evaluate(&args) {
        Err(FnError::BadArgType { position }) => assert_eq!(position, 1),
        other => panic!("expected a type failure, got {:?}", other),
    }
}

#[test]
fn now_yields_a_current_timestamp() {
    let f = NowFn::new();
    let before = std::time::SystemTime::now()
        .duration_since(std::time::UNIX_EPOCH)
        .unwrap()
        .as_secs() as i64;
    match f.evaluate(&vec![]) {
        Ok(FnOut::Timestamp {
            unix_secs,
            subsec_nanos,
        }) => {
            assert!(subsec_nanos < 2_000_000_000);
            assert!((unix_secs - before).abs() <= 5);
        }
        other => panic!("expected a timestamp, got {:?}", other),
    }
}

#[test]
fn now_rejects_any_argument() {
    let f = NowFn::new();
    match f.evaluate(&vec![ArgVal::Null]) {
        Err(FnError::TooManyArgs { expected, actual }) => {
            assert_eq!(expected, 0);
            assert_eq!(actual, 1);
        }
        other => panic!("expected an arity failure, got {:?}", other),
    }
}
