//! Named rule evaluation over an embedded expression language.
//!
//! The library holds the verified core of a rule-evaluation service: the
//! table of domain functions that extend the expression engine, the caches
//! for compiled expressions and patterns, the hot-reloadable rule store,
//! and the evaluator that turns rule names plus a context document into
//! structured per-rule outcomes.

mod cache;
mod configuration;
mod duration_fn;
mod email_fn;
mod now_fn;
mod numcheck;
mod phone_number_fn;
mod regex_fn;
mod rule_handlers;
mod runtime;
mod sig;
mod value;

pub use cache::has_key;
pub use cache::inserted;
pub use cache::key_idx;
pub use cache::promoted;
pub use cache::unique_keys;
pub use cache::value_at;
pub use cache::LruCache;
pub use configuration::assoc;
pub use configuration::assoc_map;
pub use configuration::lemma_reload_atomic;
pub use configuration::pairs_view;
pub use configuration::reload_result;
pub use configuration::RuleSnapshot;
pub use configuration::RuleStore;
pub use duration_fn::duration_parse;
pub use duration_fn::DurationFn;
pub use duration_fn::DURATION_ERR_PREFIX;
pub use email_fn::email_valid;
pub use email_fn::EmailFn;
pub use now_fn::NowFn;
pub use numcheck::check_number_literals;
pub use numcheck::digit_val;
pub use numcheck::is_ascii_digit;
pub use numcheck::is_name_char;
pub use numcheck::is_name_start;
pub use numcheck::is_quote;
pub use numcheck::number_literals_fit;
pub use numcheck::scan_from;
pub use numcheck::state_rank;
pub use numcheck::ScanState;
pub use numcheck::MAX_NUMBER_LITERAL;
pub use phone_number_fn::elems_hints;
pub use phone_number_fn::hints_view;
pub use phone_number_fn::hit_of;
pub use phone_number_fn::opt_str_view;
pub use phone_number_fn::phone_hits;
pub use phone_number_fn::phone_parse;
pub use phone_number_fn::rec_matches;
pub use phone_number_fn::PhoneNumberFn;
pub use regex_fn::captures_of;
pub use regex_fn::group_view;
pub use regex_fn::groups_view;
pub use regex_fn::pattern_entry_ok;
pub use regex_fn::regex_compile_err;
pub use regex_fn::regex_source;
pub use regex_fn::PatternCache;
pub use regex_fn::RegexFn;
pub use regex_fn::LITERAL_PATTERN_MSG;
pub use rule_handlers::eval_rules;
pub use rule_handlers::evaluate_rule;
pub use rule_handlers::res_matches;
pub use rule_handlers::shape_result;
pub use rule_handlers::BatchEvalReq;
pub use rule_handlers::RuleEvalRes;
pub use runtime::compile_expr;
pub use runtime::compile_failure;
pub use runtime::expr_entry_ok;
pub use runtime::expr_parse_err;
pub use runtime::truthy_of;
pub use runtime::NUMBER_RANGE_MSG;
pub use runtime::Engine;
pub use runtime::FunctionRegistry;
pub use sig::is_str_elem;
pub use sig::type_ok;
pub use sig::ArgType;
pub use sig::Signature;
pub use value::ArgVal;
pub use value::ArrElem;
pub use value::ExprefKind;
pub use value::FnError;
pub use value::FnOut;
pub use value::PhoneRecord;
