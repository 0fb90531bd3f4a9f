//! Service settings read from the environment.

use vstd::prelude::*;
use crate::parse::{parse_u16, parsed_unsigned, str_equals};

verus! {

/// Port of the HTTP API when `SERVER_PORT` is unset or unreadable.
pub const DEFAULT_SERVER_PORT: u16 = 8080;

/// Port of the metrics endpoint when `PROMETHEUS_PORT` is unset or unreadable.
pub const DEFAULT_METRICS_PORT: u16 = 8081;

/// Capacity of each pipeline channel.
pub const CHANNEL_CAPACITY: usize = 1024;

/// A port setting: its value when it reads as a `u16`, otherwise `default`.
pub fn port_setting(value: Option<&str>, default: u16) -> (r: u16)
    ensures
        match value {
            Some(s) => match parsed_unsigned(s@, u16::MAX as int) {
                Some(v) => r as int == v,
                None => r == default,
            },
            None => r == default,
        },
{
    match value {
        Some(s) => match parse_u16(s) {
            Some(v) => v,
            None => default,
        },
        None => default,
    }
}

/// Whether the `LOG_FORMAT` setting asks for JSON logs: exactly when it is `json`.
pub fn wants_json_logs(value: Option<&str>) -> (r: bool)
    ensures
        r == (value matches Some(s) && s@ == "json"@),
{
    match value {
        Some(s) => str_equals(s, "json"),
        None => false,
    }
}

} // verus!
