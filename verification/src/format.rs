//! Rendering of optional values as text.
//!
//! An absent value becomes `null`, or the fallback that the caller names. A
//! present value becomes its own text: the text `to_string` gives for it, or,
//! for dates, a fixed pattern.
//!
//! Of the text that `to_string` gives, the contracts say only that it is
//! that text: `to_string_from_display_ensures` is vstd's name for what
//! `to_string` returns, and nothing here says which characters it holds. The
//! text of a date is stated character by character, on trust in `chrono`
//! (see [`crate::date`]).

use vstd::prelude::*;
use vstd::string::to_string_from_display_ensures;
use crate::date::{
    format_date, format_datetime, NaiveDate, NaiveDateTime, DATETIME_PATTERN, DATE_PATTERN,
};

verus! {

/// The text of an absent value.
pub const NULL_TEXT: &'static str = "null";

/// The text of an absent value, letter by letter.
pub open spec fn null_text() -> Seq<char> {
    seq!['n', 'u', 'l', 'l']
}

/// `NULL_TEXT` spells `null`.
pub proof fn lemma_null_text()
    ensures
        NULL_TEXT@ == null_text(),
{
    reveal_strlit("null");
    assert(NULL_TEXT@ =~= null_text());
}

/// The text of an optional rendering: the rendering itself where there is
/// one, else `default`.
pub fn text_or(text: Option<String>, default: &str) -> (res: String)
    ensures
        match text {
            Some(s) => res == s,
            None => res@ == default@,
        },
{
    match text {
        Some(s) => s,
        None => default.to_owned(),
    }
}

/// Renders `v` as `to_string` does, or as `null` where it is absent.
pub fn fmt_opt<T: core::fmt::Display>(v: &Option<T>) -> (res: String)
    ensures
        match v {
            Some(x) => to_string_from_display_ensures::<T>(x, res),
            None => res@ == null_text(),
        },
{
    proof {
        lemma_null_text();
    }
    fmt_opt_or(v, NULL_TEXT)
}

/// Renders `v` as `to_string` does, or as `default` where it is absent.
pub fn fmt_opt_or<T: core::fmt::Display>(v: &Option<T>, default: &str) -> (res: String)
    ensures
        match v {
            Some(x) => to_string_from_display_ensures::<T>(x, res),
            None => res@ == default@,
        },
{
    let text = match v {
        Some(x) => Some(x.to_string()),
        None => None,
    };
    text_or(text, default)
}

/// Renders a date as `YYYY-MM-DD`, or as `null` where it is absent.
pub fn fmt_naive_date(v: &Option<NaiveDate>) -> (res: String)
    ensures
        match v {
            Some(d) => res@ == d@.text(),
            None => res@ == null_text(),
        },
{
    proof {
        lemma_null_text();
    }
    let text = match v {
        Some(d) => {
            proof {
                use_type_invariant(d);
            }
            Some(format_date(d.year(), d.month(), d.day(), DATE_PATTERN))
        },
        None => None,
    };
    text_or(text, NULL_TEXT)
}

/// Renders a date and time as `YYYY-MM-DD HH:MM:SS`, or as `null` where it
/// is absent.
pub fn fmt_naive_datetime(v: &Option<NaiveDateTime>) -> (res: String)
    ensures
        match v {
            Some(dt) => res@ == dt@.text(),
            None => res@ == null_text(),
        },
{
    proof {
        lemma_null_text();
    }
    let text = match v {
        Some(dt) => {
            proof {
                use_type_invariant(dt);
            }
            let d = dt.date();
            Some(
                format_datetime(
                    d.year(),
                    d.month(),
                    d.day(),
                    dt.hour(),
                    dt.minute(),
                    dt.second(),
                    dt.nanosecond(),
                    DATETIME_PATTERN,
                ),
            )
        },
        None => None,
    };
    text_or(text, NULL_TEXT)
}

/// `bigdecimal::BigDecimal`, declared so that it can stand in a signature.
/// Nothing is known of what a value holds: it is handed on to `to_string`.
#[verifier::external_type_specification]
#[verifier::external_body]
pub struct ExBigDecimal(bigdecimal::BigDecimal);

/// `serde_json::Value`, declared so that it can stand in a signature.
/// Nothing is known of what a value holds: it is handed on to `to_string`.
#[verifier::external_type_specification]
#[verifier::external_body]
pub struct ExValue(serde_json::Value);

/// Renders a decimal as `to_string` does, or as `null` where it is absent.
pub fn fmt_bigdecimal(v: &Option<bigdecimal::BigDecimal>) -> (res: String)
    ensures
        match v {
            Some(x) => to_string_from_display_ensures::<bigdecimal::BigDecimal>(x, res),
            None => res@ == null_text(),
        },
{
    fmt_opt(v)
}

/// Renders a JSON value as `to_string` does, in compact form, or as `null`
/// where it is absent.
pub fn fmt_json_value(v: &Option<serde_json::Value>) -> (res: String)
    ensures
        match v {
            Some(x) => to_string_from_display_ensures::<serde_json::Value>(x, res),
            None => res@ == null_text(),
        },
{
    fmt_opt(v)
}

} // verus!
