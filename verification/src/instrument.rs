//! The historical instruments the simulator can compare, and how their names
//! are read.

use vstd::prelude::*;
use crate::parse::str_equals;
use crate::api::HunyiError;

verus! {

/// A simulated instrument.
#[derive(Debug, Clone, Copy, PartialEq, Eq, Structural)]
pub enum InstrumentType {
    /// The armillary sphere (浑仪).
    Hunyi,
    /// The simplified armilla (简仪).
    Jianyi,
    /// The quadrant (象限仪).
    Xiangyiyi,
    /// A modern equatorial mount (现代赤道仪).
    ModernEQ,
}

/// The Unicode lowercase of a string, as `str::to_lowercase` computes it.
pub uninterp spec fn lowercase_of(s: Seq<char>) -> Seq<char>;

/// `str::to_lowercase`.
///
/// Trusted: the result is named `lowercase_of` of the argument and nothing
/// more is claimed; Unicode case mapping is std's.
#[verifier::external_body]
fn to_lowercase(s: &str) -> (r: String)
    ensures
        r@ == lowercase_of(s@),
{
    s.to_lowercase()
}

/// The instrument a lowercased name denotes: its pinyin or Chinese name.
pub open spec fn instrument_named(lower: Seq<char>) -> Option<InstrumentType> {
    if lower == "hunyi"@ || lower == "浑仪"@ {
        Some(InstrumentType::Hunyi)
    } else if lower == "jianyi"@ || lower == "简仪"@ {
        Some(InstrumentType::Jianyi)
    } else if lower == "xiangyiyi"@ || lower == "象限仪"@ {
        Some(InstrumentType::Xiangyiyi)
    } else if lower == "modern_eq"@ || lower == "现代赤道仪"@ {
        Some(InstrumentType::ModernEQ)
    } else {
        None
    }
}

/// The instrument that an already lowercased name denotes.
pub fn instrument_from_lowercase(lower: &str) -> (r: Option<InstrumentType>)
    ensures
        r == instrument_named(lower@),
{
    if str_equals(lower, "hunyi") || str_equals(lower, "浑仪") {
        Some(InstrumentType::Hunyi)
    } else if str_equals(lower, "jianyi") || str_equals(lower, "简仪") {
        Some(InstrumentType::Jianyi)
    } else if str_equals(lower, "xiangyiyi") || str_equals(lower, "象限仪") {
        Some(InstrumentType::Xiangyiyi)
    } else if str_equals(lower, "modern_eq") || str_equals(lower, "现代赤道仪") {
        Some(InstrumentType::ModernEQ)
    } else {
        None
    }
}

/// The instrument a name denotes, case-insensitively: "hunyi"/"浑仪",
/// "jianyi"/"简仪", "xiangyiyi"/"象限仪", "modern_eq"/"现代赤道仪"; `None` for
/// any other name.
pub fn parse_instrument_type(name: &str) -> (r: Option<InstrumentType>)
    ensures
        r == instrument_named(lowercase_of(name@)),
{
    let lower = to_lowercase(name);
    instrument_from_lowercase(lower.as_str())
}

/// The text of the error for a name that denotes no instrument:
/// "未知仪器类型: " (unknown instrument type) followed by the name.
pub open spec fn unknown_instrument_message(name: Seq<char>) -> Seq<char> {
    "未知仪器类型: "@ + name
}

/// The instrument a request names, or the configuration error the
/// simulations answer an unknown name with.
pub fn resolve_instrument(name: &str) -> (r: Result<InstrumentType, HunyiError>)
    ensures
        match instrument_named(lowercase_of(name@)) {
            Some(t) => r == Ok::<InstrumentType, HunyiError>(t),
            None => r matches Err(HunyiError::Config(m)) && m@ == unknown_instrument_message(name@),
        },
{
    match parse_instrument_type(name) {
        Some(t) => Ok(t),
        None => {
            let mut m = "未知仪器类型: ".to_owned();
            m.append(name);
            Err(HunyiError::Config(m))
        },
    }
}

} // verus!
