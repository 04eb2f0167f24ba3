//! End-to-end tests through the real expression engine: the library's
//! functions are registered into a jmespatch runtime and exercised by
//! compiling and searching full rule expressions.

use std::sync::Mutex;

use jmespatch::ast::Ast;
use jmespatch::Context;
use jmespatch::ErrorReason;
use jmespatch::JmespathError;
use jmespatch::Rcvar;
use jmespatch::RuntimeError;
use jmespatch::Variable;

use rudo::compile_expr;
use rudo::ArgVal;
use rudo::ArrElem;
use rudo::Engine;
use rudo::ExprefKind;
use rudo::FnError;
use rudo::FnOut;
use rudo::FunctionRegistry;
use rudo::PhoneRecord;

fn to_argval(v: &Rcvar) -> ArgVal {
    match &**v {
        Variable::Null => ArgVal::Null,
        Variable::Bool(b) => ArgVal::Bool(*b),
        Variable::Number(_) => ArgVal::Number,
        Variable::String(s) => ArgVal::Str(s.clone()),
        Variable::Array(items) => ArgVal::Array(
            items
                .iter()
                .map(|it| match &**it {
                    Variable::String(s) => ArrElem::Str(s.clone()),
                    _ => ArrElem::Other,
                })
                .collect(),
        ),
        Variable::Object(_) => ArgVal::Object,
        Variable::Expref(ast) => ArgVal::Expref(match ast {
            Ast::Literal { value, .. } => match value.as_string() {
                Some(s) => ExprefKind::StrLit(s.clone()),
                None => ExprefKind::Other,
            },
            _ => ExprefKind::Other,
        }),
    }
}

fn number_variable(value: f64) -> Variable {
    Variable::Number(
        serde_json::Number::from_f64(value).unwrap_or_else(|| serde_json::Number::from(0)),
    )
}

fn phone_variable(rec: PhoneRecord) -> Variable {
    let mut map = std::collections::BTreeMap::new();
    let opt = |o: Option<String>| {
        Rcvar::new(match o {
            Some(s) => Variable::String(s),
            None => Variable::Null,
        })
    };
    map.insert("from".to_string(), opt(rec.from));
    map.insert("country".to_string(), opt(rec.country));
    map.insert(
        "country_code".to_string(),
        Rcvar::new(number_variable(rec.country_code as f64)),
    );
    map.insert(
        "national".to_string(),
        Rcvar::new(number_variable(rec.national as f64)),
    );
    map.insert(
        "national_zeros".to_string(),
        Rcvar::new(number_variable(rec.national_zeros as f64)),
    );
    map.insert("valid".to_string(), Rcvar::new(Variable::Bool(rec.valid)));
    map.insert("carrier".to_string(), opt(rec.carrier));
    Variable::Object(map)
}

fn to_variable(out: FnOut) -> Variable {
    match out {
        FnOut::Null => Variable::Null,
        FnOut::Bool(b) => Variable::Bool(b),
        FnOut::Seconds { secs, nanos } => {
            number_variable(secs as f64 + nanos as f64 / 1_000_000_000.0)
        }
        FnOut::Timestamp {
            unix_secs,
            subsec_nanos,
        } => number_variable(unix_secs as f64 + subsec_nanos as f64 / 1_000_000_000.0),
        FnOut::Groups(gs) => Variable::Array(
            gs.into_iter()
                .map(|g| {
                    Rcvar::new(match g {
                        Some(s) => Variable::String(s),
                        None => Variable::Null,
                    })
                })
                .collect(),
        ),
        FnOut::Phone(rec) => phone_variable(rec),
        FnOut::Phones(recs) => Variable::Array(
            recs.into_iter()
                .map(|rec| Rcvar::new(phone_variable(rec)))
                .collect(),
        ),
    }
}

fn to_engine_error(e: FnError, ctx: &Context<'_>) -> JmespathError {
    match e {
        FnError::Parse(m) => JmespathError::from_ctx(ctx, ErrorReason::Parse(m)),
        FnError::NotEnoughArgs { expected, actual } => JmespathError::from_ctx(
            ctx,
            ErrorReason::Runtime(RuntimeError::NotEnoughArguments { expected, actual }),
        ),
        FnError::TooManyArgs { expected, actual } => JmespathError::from_ctx(
            ctx,
            ErrorReason::Runtime(RuntimeError::TooManyArguments { expected, actual }),
        ),
        FnError::BadArgType { position } => JmespathError::from_ctx(
            ctx,
            ErrorReason::Runtime(RuntimeError::InvalidType {
                expected: String::new(),
                actual: String::new(),
                position,
            }),
        ),
    }
}

fn finish(
    r: Result<FnOut, FnError>,
    ctx: &Context<'_>,
) -> Result<Rcvar, JmespathError> {
    match r {
        Ok(out) => Ok(Rcvar::new(to_variable(out))),
        Err(e) => Err(to_engine_error(e, ctx)),
    }
}

struct MatchGlue(&'static Mutex<FunctionRegistry>);

impl jmespatch::functions::Function for MatchGlue {
    fn evaluate(&self, args: &[Rcvar], ctx: &mut Context<'_>) -> Result<Rcvar, JmespathError> {
        let vals: Vec<ArgVal> = args.iter().map(to_argval).collect();
        let mut guard = self.0.lock().unwrap();
        let reg = &mut *guard;
        let r = reg.regex_fn.evaluate(&vals, &mut reg.patterns);
        finish(r, ctx)
    }
}

struct EmailGlue(&'static Mutex<FunctionRegistry>);

impl jmespatch::functions::Function for EmailGlue {
    fn evaluate(&self, args: &[Rcvar], ctx: &mut Context<'_>) -> Result<Rcvar, JmespathError> {
        let vals: Vec<ArgVal> = args.iter().map(to_argval).collect();
        let guard = self.0.lock().unwrap();
        finish(guard.email_fn.evaluate(&vals), ctx)
    }
}

struct NowGlue(&'static Mutex<FunctionRegistry>);

impl jmespatch::functions::Function for NowGlue {
    fn evaluate(&self, args: &[Rcvar], ctx: &mut Context<'_>) -> Result<Rcvar, JmespathError> {
        let vals: Vec<ArgVal> = args.iter().map(to_argval).collect();
        let guard = self.0.lock().unwrap();
        finish(guard.now_fn.evaluate(&vals), ctx)
    }
}

struct DurationGlue(&'static Mutex<FunctionRegistry>);

impl jmespatch::functions::Function for DurationGlue {
    fn evaluate(&self, args: &[Rcvar], ctx: &mut Context<'_>) -> Result<Rcvar, JmespathError> {
        let vals: Vec<ArgVal> = args.iter().map(to_argval).collect();
        let guard = self.0.lock().unwrap();
        finish(guard.duration_fn.evaluate(&vals), ctx)
    }
}

struct PhoneGlue(&'static Mutex<FunctionRegistry>);

impl jmespatch::functions::Function for PhoneGlue {
    fn evaluate(&self, args: &[Rcvar], ctx: &mut Context<'_>) -> Result<Rcvar, JmespathError> {
        let vals: Vec<ArgVal> = args.iter().map(to_argval).collect();
        let guard = self.0.lock().unwrap();
        finish(guard.phone_number_fn.evaluate(&vals), ctx)
    }
}

fn new_engine() -> Engine {
    let reg: &'static Mutex<FunctionRegistry> =
        Box::leak(Box::new(Mutex::new(FunctionRegistry::new())));
    let mut rt = jmespatch::Runtime::new();
    rt.register_builtin_functions();
    rt.register_function("match", Box::new(MatchGlue(reg)));
    rt.register_function("valid_email", Box::new(EmailGlue(reg)));
    rt.register_function("now", Box::new(NowGlue(reg)));
    rt.register_function("duration", Box::new(DurationGlue(reg)));
    rt.register_function("phone_number", Box::new(PhoneGlue(reg)));
    Engine::new(Box::leak(Box::new(rt)))
}

fn compile(engine: &mut Engine, text: &str) -> jmespatch::Expression<'static> {
    compile_expr(engine, &text.to_string()).unwrap()
}

fn json(text: &str) -> serde_json::Value {
    serde_json::from_str(text).unwrap()
}

const LITERAL_MSG: &str = "Regex must be a literal string please only use &'...'";

#[test]
fn test_match_returns_matched_segments_in_regex() {
    let mut engine = new_engine();
    let exp = compile(&mut engine, "match(&'foo', a.b)");
    let r = exp.search(json(r#"{"a":{"b":"food"}}"#)).unwrap();
    assert!(r.is_truthy());

    let arr = r.as_array().unwrap();
    assert!(arr.len() > 0);
    assert_eq!(arr[0].as_string().unwrap(), "foo");
}

#[test]
fn test_match_returns_null_unmatched_segments_in_regex() {
    let mut engine = new_engine();
    let exp = compile(&mut engine, "match(&'foo', a.b)");
    let r = exp.search(json(r#"{"a":{"b":"bar"}}"#)).unwrap();
    assert!(!r.is_truthy());
    assert!(r.is_null());
}

#[test]
fn test_match_returns_null_when_element_is_null() {
    let mut engine = new_engine();
    let exp = compile(&mut engine, "match(&'foo', a.c)");
    let r = exp.search(json(r#"{"a":{"b":"bar"}}"#)).unwrap();
    assert!(!r.is_truthy());
    assert!(r.is_null());
}

#[test]
fn test_match_returns_multiple_segments() {
    let mut engine = new_engine();
    let exp = compile(&mut engine, r"match(&'(\d{4})-(\d{2})-(\d{2})', a)");
    let r = exp.search(json(r#"{"a":"2010-03-14"}"#)).unwrap();
    assert!(r.is_truthy());

    let matches = r.as_array().unwrap();
    assert_eq!(matches[0].as_string().unwrap(), "2010-03-14");
    assert_eq!(matches[1].as_string().unwrap(), "2010");
    assert_eq!(matches[2].as_string().unwrap(), "03");
    assert_eq!(matches[3].as_string().unwrap(), "14");
}

#[test]
fn test_match_wont_compile_non_literal_regex() {
    let mut engine = new_engine();
    let exp = compile(&mut engine, r"match(a, a)");
    let r = exp.search(json(r#"{"a":"2010-03-14"}"#));

    match r.err() {
        Some(JmespathError {
            reason: ErrorReason::Parse(ref reason),
            ..
        }) => assert_eq!(reason, LITERAL_MSG),
        _ => assert!(false),
    };
}

#[test]
fn test_match_wont_compile_non_ref_literal_regex() {
    let mut engine = new_engine();
    let exp = compile(&mut engine, r"match('a', a)");
    let r = exp.search(json(r#"{"a":"2010-03-14"}"#));

    match r.err() {
        Some(JmespathError {
            reason: ErrorReason::Parse(ref reason),
            ..
        }) => assert_eq!(reason, LITERAL_MSG),
        _ => assert!(false),
    };
}

#[test]
fn test_is_valid_email_returns_true_for_good_emails() {
    let mut engine = new_engine();
    let exp = compile(&mut engine, "valid_email('therustyguy158@gmail.com')");
    let r = exp.search(json("null")).unwrap();
    assert!(r.is_truthy());
}

#[test]
fn test_is_valid_email_returns_false_for_junk_emails() {
    let mut engine = new_engine();
    let exp = compile(&mut engine, "valid_email('foo@guerrillamailblock.com')");
    let r = exp.search(json("null")).unwrap();
    assert!(!r.is_truthy());
}

#[test]
fn test_is_valid_email_returns_false_for_non_strings() {
    let mut engine = new_engine();
    let exp = compile(&mut engine, "valid_email(a)");
    let r = exp.search(json(r#"{"a":5}"#)).unwrap();
    assert!(!r.is_truthy());
}

#[test]
fn test_duration_returns_milliseconds() {
    let mut engine = new_engine();
    let exp = compile(&mut engine, "duration('1h1m100ms')");
    let r = exp.search(json("null")).unwrap();
    assert!(r.is_truthy());
    assert!(r.is_number());
    assert_eq!(3_660.1, r.as_number().unwrap());
}

#[test]
fn test_neg_duration_returns_error() {
    let mut engine = new_engine();
    let exp = compile(&mut engine, "duration('-1ns')");
    let r = exp.search(json("null"));
    assert!(r.is_err());
}

#[test]
fn test_now_returns_timestamp() {
    let mut engine = new_engine();
    let exp = compile(&mut engine, "now()");
    let r = exp.search(json("null")).unwrap();
    let now = chrono::Utc::now();
    match &*r {
        Variable::Number(n) => {
            let ts = n.as_f64().unwrap();
            // Ignore milli-seconds
            assert_eq!(ts as i64, now.timestamp());
        }
        _ => assert!(false),
    }
}

fn test_number(engine: &mut Engine, payload: &str, country: &str) {
    let exp = compile_expr(engine, &format!("phone_number(@, {})", country)).unwrap();
    let r = exp.search(json(&format!("\"{}\"", payload))).unwrap();
    assert!(r.is_truthy());
}

fn test_wrong_number(engine: &mut Engine, payload: &str, country: &str) {
    let exp = compile_expr(engine, &format!("phone_number(@, {})", country)).unwrap();
    let r = exp.search(json(&format!("\"{}\"", payload))).unwrap();
    assert!(!r.is_truthy());
}

#[test]
fn test_is_valid_phone_number_returns_non_null() {
    let mut engine = new_engine();
    let nz = "['nz']";
    test_number(&mut engine, "033316005", &nz);
    test_number(&mut engine, "03-331 6005", &nz);
    test_number(&mut engine, "0064 3 331 6005", &nz);

    let countries = "['us', 'fr', 'de']";
    test_number(&mut engine, "(541) 754-3010", &countries);
    test_number(&mut engine, "1-541-754-3010", &countries);
    test_number(&mut engine, "01 45 45 32 45", &countries);
    test_number(&mut engine, "(089) / 636-48018", &countries);
}

#[test]
fn test_not_valid_phone_number_returns_null() {
    let mut engine = new_engine();
    let nz = "['us']";
    test_wrong_number(&mut engine, "033316005", &nz);
    test_wrong_number(&mut engine, "03-331 6005", &nz);
    test_wrong_number(&mut engine, "0064 3 331 6005", &nz);

    let countries = "['nz', 'ch']";
    test_wrong_number(&mut engine, "(541) 754-3010", &countries);
    test_wrong_number(&mut engine, "1-541-754-3010", &countries);
    test_wrong_number(&mut engine, "01 45 45 32 45", &countries);
    test_wrong_number(&mut engine, "(089) / 636-48018", &countries);
}

#[test]
fn test_is_valid_intl_phone_number_returns_non_null() {
    let mut engine = new_engine();
    let exp = compile(&mut engine, "phone_number(@)");
    let r = exp.search(json("\"+33-655-562-025\"")).unwrap();
    assert!(r.is_truthy());
}

#[test]
fn test_not_valid_intl_phone_number_returns_null() {
    let mut engine = new_engine();
    let exp = compile(&mut engine, "phone_number(@)");
    let r = exp.search(json("\"33655562025\"")).unwrap();
    assert!(!r.is_truthy());
}

#[test]
fn test_is_phone_number_is_parsed() {
    let r = rudo::PhoneNumberFn::parse_number(&None, &"+1-541-754-3010".to_string());
    assert!(r.is_some());
}
