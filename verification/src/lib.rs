//! Rendering of optional values as text, and conversion of whole sequences.
//!
//! [`format`] turns an optional value into its text, with `null` for an
//! absent one. [`date`] holds the dates and times that two of those
//! renderings work on. [`convert`] maps a sequence through `From`, element
//! by element.
//!
//! Everything is verified except two calls into `chrono`, which stand behind
//! contracts in [`date`], and the `to_string` of decimals and JSON values,
//! whose text is taken as it comes.

pub mod convert;
pub mod date;
pub mod format;

pub use crate::convert::VecConvert;
pub use crate::date::{NaiveDate, NaiveDateTime};
pub use crate::format::{
    fmt_bigdecimal, fmt_json_value, fmt_naive_date, fmt_naive_datetime, fmt_opt, fmt_opt_or,
    text_or,
};
