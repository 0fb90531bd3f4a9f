//! Instants of the UTC clock and whole-second differences between them.

use vstd::prelude::*;

verus! {

/// An instant of the UTC clock: seconds since the Unix epoch and the
/// nanoseconds past that second.
#[derive(Debug, Clone, Copy, PartialEq, Eq, Structural)]
pub struct UtcInstant {
    pub secs: i64,
    pub nanos: u32,
}

/// Nanoseconds since the Unix epoch.
pub open spec fn instant_nanos(t: UtcInstant) -> int {
    t.secs * 1_000_000_000 + t.nanos
}

/// The whole seconds from `earlier` to `later`, rounded toward zero (what
/// chrono's `(later - earlier).num_seconds()` gives for instants that the
/// system clock produces).
pub open spec fn whole_seconds_between(later: UtcInstant, earlier: UtcInstant) -> int {
    let d = instant_nanos(later) - instant_nanos(earlier);
    if d >= 0 {
        d / 1_000_000_000
    } else {
        -((-d) / 1_000_000_000)
    }
}

/// The current time of the system clock.
///
/// Trusted: `chrono::Utc::now()`, read as `timestamp()` and
/// `timestamp_subsec_nanos()`. Nothing is claimed of the value, which is
/// whatever the clock says; chrono panics when the clock is set before 1970.
#[verifier::external_body]
pub(crate) fn utc_now() -> (t: UtcInstant) {
    let now = chrono::Utc::now();
    UtcInstant { secs: now.timestamp(), nanos: now.timestamp_subsec_nanos() }
}

/// The whole seconds from `earlier` to `later`, rounded toward zero.
pub fn elapsed_whole_seconds(later: UtcInstant, earlier: UtcInstant) -> (r: i128)
    ensures
        r == whole_seconds_between(later, earlier),
{
    let d: i128 = (later.secs as i128 - earlier.secs as i128) * 1_000_000_000
        + (later.nanos as i128 - earlier.nanos as i128);
    assert(d == instant_nanos(later) - instant_nanos(earlier));
    if d >= 0 {
        d / 1_000_000_000
    } else {
        let m: i128 = -d;
        let q: i128 = m / 1_000_000_000;
        -q
    }
}

} // verus!
