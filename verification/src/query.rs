//! Reading the query parameters of the history endpoints.

use vstd::prelude::*;
use crate::parse::{parse_usize, parse_i8, parsed_unsigned, parsed_signed};

verus! {

/// Rows returned when `limit` is absent or unreadable.
pub const DEFAULT_QUERY_LIMIT: usize = 100;

/// Acknowledgement filter used when `acknowledged` is absent or unreadable:
/// -1, every alarm.
pub const ALL_ALARMS: i8 = -1;

/// The `device_id` parameter: its value, or the empty string when absent.
pub fn device_id_param(param: Option<&String>) -> (r: String)
    ensures
        match param {
            Some(s) => r@ == s@,
            None => r@ == Seq::<char>::empty(),
        },
{
    match param {
        Some(s) => s.clone(),
        None => String::new(),
    }
}

/// The `limit` parameter: its value when it reads as a `usize`, otherwise 100.
pub fn limit_param(param: Option<&str>) -> (r: usize)
    ensures
        match param {
            Some(s) => match parsed_unsigned(s@, usize::MAX as int) {
                Some(v) => r as int == v,
                None => r == DEFAULT_QUERY_LIMIT,
            },
            None => r == DEFAULT_QUERY_LIMIT,
        },
{
    match param {
        Some(s) => match parse_usize(s) {
            Some(v) => v,
            None => DEFAULT_QUERY_LIMIT,
        },
        None => DEFAULT_QUERY_LIMIT,
    }
}

/// The `acknowledged` parameter: its value when it reads as an `i8`,
/// otherwise -1 (every alarm).
pub fn acknowledged_param(param: Option<&str>) -> (r: i8)
    ensures
        match param {
            Some(s) => match parsed_signed(s@, i8::MIN as int, i8::MAX as int) {
                Some(v) => r as int == v,
                None => r == ALL_ALARMS,
            },
            None => r == ALL_ALARMS,
        },
{
    match param {
        Some(s) => match parse_i8(s) {
            Some(v) => v,
            None => ALL_ALARMS,
        },
        None => ALL_ALARMS,
    }
}

} // verus!
