//! Alarm evaluation: which readings raise an alarm, at which level, and the
//! per-device, per-subject debounce that keeps an alarm from repeating within
//! its configured interval.
//!
//! How far a value lies past its thresholds is a comparison of measured
//! quantities and is handed in as a [`Band`]; everything decided from it is here.

use vstd::prelude::*;
use crate::clock::{UtcInstant, whole_seconds_between, utc_now};
use crate::debounce::{AlarmKey, DebounceRegistry, may_fire};

verus! {

/// What an alarm is about: the cumulative transmission error, or the wear of
/// one gear group (numbered 1 to 3).
#[derive(Debug, Clone, Copy, PartialEq, Eq, Structural)]
pub enum AlarmSubject {
    CumulativeError,
    GearWear(u8),
}

/// Where a measured value stands against its two thresholds.
#[derive(Debug, Clone, Copy, PartialEq, Eq, Structural)]
pub enum Band {
    /// Below the warning threshold.
    Normal,
    /// At or above the warning threshold, below the alarm threshold.
    Warning,
    /// At or above the alarm threshold.
    Alarm,
}

/// An alarm that was raised: its subject, the threshold it crossed and its level.
#[derive(Debug, Clone, Copy, PartialEq, Eq, Structural)]
pub struct AlarmDecision {
    pub subject: AlarmSubject,
    pub band: Band,
    pub level: u8,
}

/// Debounce intervals, in seconds, for the two kinds of alarm.
#[derive(Debug, Clone, Copy, PartialEq, Eq, Structural)]
pub struct AlarmPolicy {
    pub cumulative_debounce_seconds: i64,
    pub gear_wear_debounce_seconds: i64,
}

/// The level of an alarm: a cumulative-error alarm is level 2, a gear-wear
/// alarm level 3, and any warning level 1.
pub open spec fn alarm_level(subject: AlarmSubject, band: Band) -> u8 {
    match band {
        Band::Normal => 0,
        Band::Warning => 1,
        Band::Alarm => match subject {
            AlarmSubject::CumulativeError => 2,
            AlarmSubject::GearWear(_) => 3,
        },
    }
}

/// The debounce interval that applies to `subject`.
pub open spec fn debounce_seconds(policy: AlarmPolicy, subject: AlarmSubject) -> i64 {
    match subject {
        AlarmSubject::CumulativeError => policy.cumulative_debounce_seconds,
        AlarmSubject::GearWear(_) => policy.gear_wear_debounce_seconds,
    }
}

/// The alarm (if any) that a value in `band` raises for `subject` on `device`
/// at `now`, given when each key last fired.
pub open spec fn alarm_decision(
    fired: Map<AlarmKey, UtcInstant>,
    policy: AlarmPolicy,
    subject: AlarmSubject,
    device: Seq<char>,
    band: Band,
    now: UtcInstant,
) -> Option<AlarmDecision> {
    if band == Band::Normal {
        None
    } else if !may_fire(fired.get((subject, device)), debounce_seconds(policy, subject), now) {
        None
    } else {
        Some(AlarmDecision { subject, band, level: alarm_level(subject, band) })
    }
}

/// When each key last fired, after `d` (if any) fired on `device` at `at`.
pub open spec fn after_firing(
    fired: Map<AlarmKey, UtcInstant>,
    device: Seq<char>,
    d: Option<AlarmDecision>,
    at: UtcInstant,
) -> Map<AlarmKey, UtcInstant> {
    match d {
        Some(a) => fired.insert((a.subject, device), at),
        None => fired,
    }
}

pub open spec fn option_seq(d: Option<AlarmDecision>) -> Seq<AlarmDecision> {
    match d {
        Some(a) => seq![a],
        None => Seq::empty(),
    }
}

/// The three gear-group subjects, in the order they are checked.
pub open spec fn gear_subject(i: int) -> AlarmSubject {
    AlarmSubject::GearWear((i + 1) as u8)
}

/// The alarms that the three gear-wear bands of a reading raise, in gear order.
pub open spec fn gear_decisions(
    fired: Map<AlarmKey, UtcInstant>,
    policy: AlarmPolicy,
    device: Seq<char>,
    bands: Seq<Band>,
    now: UtcInstant,
) -> Seq<AlarmDecision> {
    option_seq(alarm_decision(fired, policy, gear_subject(0), device, bands[0], now)) + option_seq(
        alarm_decision(fired, policy, gear_subject(1), device, bands[1], now),
    ) + option_seq(alarm_decision(fired, policy, gear_subject(2), device, bands[2], now))
}

/// When each key last fired after the gear-wear alarms `gear_decisions` fired at `at`.
pub open spec fn after_gear_firings(
    fired: Map<AlarmKey, UtcInstant>,
    policy: AlarmPolicy,
    device: Seq<char>,
    bands: Seq<Band>,
    now: UtcInstant,
    at: UtcInstant,
) -> Map<AlarmKey, UtcInstant> {
    let d0 = alarm_decision(fired, policy, gear_subject(0), device, bands[0], now);
    let d1 = alarm_decision(fired, policy, gear_subject(1), device, bands[1], now);
    let d2 = alarm_decision(fired, policy, gear_subject(2), device, bands[2], now);
    after_firing(after_firing(after_firing(fired, device, d0, at), device, d1, at), device, d2, at)
}

/// Evaluates the alarm rules of each validated reading, remembering when each
/// alarm last fired so that it does not repeat within its debounce interval.
#[derive(Debug)]
pub struct AlarmEvaluator {
    policy: AlarmPolicy,
    registry: DebounceRegistry,
    clock: Option<UtcInstant>,
}

impl AlarmEvaluator {
    /// An evaluator with the given debounce intervals, in which nothing has fired yet.
    pub fn new(policy: AlarmPolicy) -> (r: Self)
        ensures
            r.policy() == policy,
            r.fired() == Map::<AlarmKey, UtcInstant>::empty(),
    {
        AlarmEvaluator { policy, registry: DebounceRegistry::new(), clock: None }
    }

    pub closed spec fn policy(&self) -> AlarmPolicy {
        self.policy
    }

    /// The system-clock reading that the last clock-backed check decided at
    /// and recorded its alarms at (`None` before any such check).
    pub closed spec fn last_clock_reading(&self) -> Option<UtcInstant> {
        self.clock
    }

    /// When each alarm key last fired.
    pub closed spec fn fired(&self) -> Map<AlarmKey, UtcInstant> {
        self.registry@
    }

    /// The system-clock reading of the last clock-backed check.
    pub fn last_clock_check(&self) -> (r: Option<UtcInstant>)
        ensures
            r == self.last_clock_reading(),
    {
        self.clock
    }

    /// The debounce intervals in use.
    pub fn alarm_policy(&self) -> (r: AlarmPolicy)
        ensures
            r == self.policy(),
    {
        self.policy
    }

    /// Whether the alarm `subject` of `device_id` may fire at `now`.
    pub fn should_trigger(&self, subject: AlarmSubject, device_id: &String, now: UtcInstant) -> (r:
        bool)
        ensures
            r == may_fire(
                self.fired().get((subject, device_id@)),
                debounce_seconds(self.policy(), subject),
                now,
            ),
    {
        let interval: i64 = match subject {
            AlarmSubject::CumulativeError => self.policy.cumulative_debounce_seconds,
            AlarmSubject::GearWear(_) => self.policy.gear_wear_debounce_seconds,
        };
        self.registry.should_trigger(subject, device_id, interval, now)
    }

    /// Records that the alarm `subject` of `device_id` fired at `at`.
    pub fn mark_triggered(&mut self, subject: AlarmSubject, device_id: &String, at: UtcInstant)
        ensures
            final(self).policy() == old(self).policy(),
            final(self).last_clock_reading() == old(self).last_clock_reading(),
            final(self).fired() == old(self).fired().insert((subject, device_id@), at),
    {
        self.registry.mark_triggered(subject, device_id, at);
    }

    /// Checks one subject: a value in `band` raises an alarm unless it is
    /// below the warning threshold or the same alarm fired less than its
    /// debounce interval before `now`; a raised alarm is recorded as fired at `at`.
    pub fn check_at(
        &mut self,
        subject: AlarmSubject,
        device_id: &String,
        band: Band,
        now: UtcInstant,
        at: UtcInstant,
    ) -> (r: Option<AlarmDecision>)
        ensures
            r == alarm_decision(old(self).fired(), old(self).policy(), subject, device_id@, band, now),
            final(self).policy() == old(self).policy(),
            final(self).last_clock_reading() == old(self).last_clock_reading(),
            final(self).fired() == after_firing(old(self).fired(), device_id@, r, at),
    {
        let level: u8 = match band {
            Band::Normal => {
                return None;
            },
            Band::Warning => 1,
            Band::Alarm => match subject {
                AlarmSubject::CumulativeError => 2,
                AlarmSubject::GearWear(_) => 3,
            },
        };
        if !self.should_trigger(subject, device_id, now) {
            return None;
        }
        self.mark_triggered(subject, device_id, at);
        Some(AlarmDecision { subject, band, level })
    }

    /// The cumulative-error rule for a reading of `device_id` whose cumulative
    /// error lies in `band`; `now` is when the debounce is checked, `at` when a
    /// raised alarm is recorded.
    pub fn check_cumulative_at(
        &mut self,
        device_id: &String,
        band: Band,
        now: UtcInstant,
        at: UtcInstant,
    ) -> (r: Option<AlarmDecision>)
        ensures
            r == alarm_decision(
                old(self).fired(),
                old(self).policy(),
                AlarmSubject::CumulativeError,
                device_id@,
                band,
                now,
            ),
            final(self).policy() == old(self).policy(),
            final(self).last_clock_reading() == old(self).last_clock_reading(),
            final(self).fired() == after_firing(old(self).fired(), device_id@, r, at),
    {
        self.check_at(AlarmSubject::CumulativeError, device_id, band, now, at)
    }

    /// The gear-wear rule for gear groups 1, 2 and 3 of a reading of
    /// `device_id`, whose wear lies in `bands[0]`, `bands[1]` and `bands[2]`.
    pub fn check_gear_wear_at(
        &mut self,
        device_id: &String,
        bands: [Band; 3],
        now: UtcInstant,
        at: UtcInstant,
    ) -> (r: Vec<AlarmDecision>)
        ensures
            r@ == gear_decisions(old(self).fired(), old(self).policy(), device_id@, bands@, now),
            final(self).policy() == old(self).policy(),
            final(self).last_clock_reading() == old(self).last_clock_reading(),
            final(self).fired() == after_gear_firings(
                old(self).fired(),
                old(self).policy(),
                device_id@,
                bands@,
                now,
                at,
            ),
    {
        let ghost f0 = self.fired();
        let mut out: Vec<AlarmDecision> = Vec::new();
        let d0 = self.check_at(AlarmSubject::GearWear(1), device_id, bands[0], now, at);
        let ghost f1 = self.fired();
        if let Some(a) = d0 {
            out.push(a);
        }
        assert(out@ =~= option_seq(d0));
        assert(f1.get((gear_subject(1), device_id@)) == f0.get((gear_subject(1), device_id@)));
        let d1 = self.check_at(AlarmSubject::GearWear(2), device_id, bands[1], now, at);
        let ghost f2 = self.fired();
        if let Some(a) = d1 {
            out.push(a);
        }
        assert(out@ =~= option_seq(d0) + option_seq(d1));
        assert(f2.get((gear_subject(2), device_id@)) == f0.get((gear_subject(2), device_id@)));
        let d2 = self.check_at(AlarmSubject::GearWear(3), device_id, bands[2], now, at);
        if let Some(a) = d2 {
            out.push(a);
        }
        assert(out@ =~= option_seq(d0) + option_seq(d1) + option_seq(d2));
        out
    }

    /// All rules for one validated reading of `device_id`: the cumulative-error
    /// alarm first (if raised), then the gear-wear alarms in gear order.
    pub fn evaluate_reading_at(
        &mut self,
        device_id: &String,
        cumulative: Band,
        gears: [Band; 3],
        now: UtcInstant,
        at: UtcInstant,
    ) -> (r: Vec<AlarmDecision>)
        ensures
            r@ == option_seq(
                alarm_decision(
                    old(self).fired(),
                    old(self).policy(),
                    AlarmSubject::CumulativeError,
                    device_id@,
                    cumulative,
                    now,
                ),
            ) + gear_decisions(old(self).fired(), old(self).policy(), device_id@, gears@, now),
            final(self).policy() == old(self).policy(),
            final(self).last_clock_reading() == old(self).last_clock_reading(),
            final(self).fired() == after_gear_firings(
                after_firing(
                    old(self).fired(),
                    device_id@,
                    alarm_decision(
                        old(self).fired(),
                        old(self).policy(),
                        AlarmSubject::CumulativeError,
                        device_id@,
                        cumulative,
                        now,
                    ),
                    at,
                ),
                old(self).policy(),
                device_id@,
                gears@,
                now,
                at,
            ),
    {
        let ghost f0 = self.fired();
        let c = self.check_cumulative_at(device_id, cumulative, now, at);
        let ghost f1 = self.fired();
        let g = self.check_gear_wear_at(device_id, gears, now, at);
        proof {
            assert forall|i: int| 0 <= i < 3 implies #[trigger] f1.get((gear_subject(i), device_id@))
                == f0.get((gear_subject(i), device_id@)) by {}
            assert(gear_decisions(f1, self.policy(), device_id@, gears@, now) =~= gear_decisions(
                f0,
                self.policy(),
                device_id@,
                gears@,
                now,
            )) by {
                assert(f1.get((gear_subject(0), device_id@)) == f0.get((gear_subject(0), device_id@)));
                assert(f1.get((gear_subject(1), device_id@)) == f0.get((gear_subject(1), device_id@)));
                assert(f1.get((gear_subject(2), device_id@)) == f0.get((gear_subject(2), device_id@)));
            }
        }
        let mut out: Vec<AlarmDecision> = Vec::new();
        if let Some(a) = c {
            out.push(a);
        }
        let mut rest = g;
        out.append(&mut rest);
        out
    }

    /// [`AlarmEvaluator::check_cumulative_at`] at the current time of the
    /// system clock: the clock is read once, the debounce is checked at that
    /// reading and a raised alarm is recorded as fired at it.
    pub fn check_cumulative(&mut self, device_id: &String, band: Band) -> (r: Option<
        AlarmDecision,
    >)
        ensures
            final(self).policy() == old(self).policy(),
            final(self).last_clock_reading() is Some,
            r == alarm_decision(
                old(self).fired(),
                old(self).policy(),
                AlarmSubject::CumulativeError,
                device_id@,
                band,
                final(self).last_clock_reading()->0,
            ),
            final(self).fired() == after_firing(
                old(self).fired(),
                device_id@,
                r,
                final(self).last_clock_reading()->0,
            ),
    {
        let now = utc_now();
        let r = self.check_cumulative_at(device_id, band, now, now);
        self.clock = Some(now);
        r
    }

    /// [`AlarmEvaluator::check_gear_wear_at`] at the current time of the
    /// system clock: the clock is read once, the debounce is checked at that
    /// reading and raised alarms are recorded as fired at it.
    pub fn check_gear_wear(&mut self, device_id: &String, bands: [Band; 3]) -> (r: Vec<
        AlarmDecision,
    >)
        ensures
            final(self).policy() == old(self).policy(),
            final(self).last_clock_reading() is Some,
            r@ == gear_decisions(
                old(self).fired(),
                old(self).policy(),
                device_id@,
                bands@,
                final(self).last_clock_reading()->0,
            ),
            final(self).fired() == after_gear_firings(
                old(self).fired(),
                old(self).policy(),
                device_id@,
                bands@,
                final(self).last_clock_reading()->0,
                final(self).last_clock_reading()->0,
            ),
    {
        let now = utc_now();
        let r = self.check_gear_wear_at(device_id, bands, now, now);
        self.clock = Some(now);
        r
    }
}

/// Once an alarm has fired at `at`, the same subject on the same device
/// raises an alarm again exactly when its value is at or past the warning
/// threshold and at least the debounce interval has passed since `at`.
pub proof fn law_alarm_repeats_only_after_debounce(
    fired: Map<AlarmKey, UtcInstant>,
    policy: AlarmPolicy,
    subject: AlarmSubject,
    device: Seq<char>,
    band1: Band,
    now1: UtcInstant,
    at: UtcInstant,
    band2: Band,
    now2: UtcInstant,
)
    requires
        alarm_decision(fired, policy, subject, device, band1, now1) is Some,
    ensures
        ({
            let after = after_firing(
                fired,
                device,
                alarm_decision(fired, policy, subject, device, band1, now1),
                at,
            );
            alarm_decision(after, policy, subject, device, band2, now2) is Some <==> band2
                != Band::Normal && whole_seconds_between(now2, at) >= debounce_seconds(
                policy,
                subject,
            )
        }),
{
}

/// An alarm that fires for one subject of one device never changes whether
/// another subject, or the same subject of another device, raises an alarm.
pub proof fn law_alarms_debounce_independently(
    fired: Map<AlarmKey, UtcInstant>,
    policy: AlarmPolicy,
    subject: AlarmSubject,
    device: Seq<char>,
    band: Band,
    now: UtcInstant,
    at: UtcInstant,
    other_subject: AlarmSubject,
    other_device: Seq<char>,
    other_band: Band,
    other_now: UtcInstant,
)
    requires
        (subject, device) != (other_subject, other_device),
    ensures
        alarm_decision(
            after_firing(fired, device, alarm_decision(fired, policy, subject, device, band, now), at),
            policy,
            other_subject,
            other_device,
            other_band,
            other_now,
        ) == alarm_decision(fired, policy, other_subject, other_device, other_band, other_now),
{
}

/// An alarm that never fired before raises an alarm as soon as its value
/// reaches the warning threshold: level 1 for a warning, 2 for a
/// cumulative-error alarm and 3 for a gear-wear alarm.
pub proof fn law_first_alarm_fires(
    fired: Map<AlarmKey, UtcInstant>,
    policy: AlarmPolicy,
    subject: AlarmSubject,
    device: Seq<char>,
    band: Band,
    now: UtcInstant,
)
    requires
        !fired.contains_key((subject, device)),
        band != Band::Normal,
    ensures
        alarm_decision(fired, policy, subject, device, band, now) == Some(
            AlarmDecision { subject, band, level: alarm_level(subject, band) },
        ),
        alarm_level(subject, band) == match (subject, band) {
            (AlarmSubject::CumulativeError, Band::Alarm) => 2u8,
            (AlarmSubject::GearWear(_), Band::Alarm) => 3u8,
            _ => 1u8,
        },
{
}

/// A value below its warning threshold never raises an alarm and leaves the
/// debounce record as it was.
pub proof fn law_normal_values_stay_silent(
    fired: Map<AlarmKey, UtcInstant>,
    policy: AlarmPolicy,
    subject: AlarmSubject,
    device: Seq<char>,
    now: UtcInstant,
    at: UtcInstant,
)
    ensures
        alarm_decision(fired, policy, subject, device, Band::Normal, now) is None,
        after_firing(
            fired,
            device,
            alarm_decision(fired, policy, subject, device, Band::Normal, now),
            at,
        ) == fired,
{
}

impl AlarmSubject {
    /// The gear group an alarm concerns: none for the cumulative error, the
    /// group's number for gear wear.
    pub fn affected_axis(&self) -> (r: Option<u8>)
        ensures
            r == match *self {
                AlarmSubject::CumulativeError => None,
                AlarmSubject::GearWear(g) => Some(g),
            },
    {
        match *self {
            AlarmSubject::CumulativeError => None,
            AlarmSubject::GearWear(g) => Some(g),
        }
    }

    /// The alarm type recorded for this subject: "累积误差超限" (cumulative error
    /// over limit) or "齿轮磨损异常" (abnormal gear wear).
    pub fn alarm_type(&self) -> (r: &'static str)
        ensures
            r@ == match *self {
                AlarmSubject::CumulativeError => "累积误差超限"@,
                AlarmSubject::GearWear(_) => "齿轮磨损异常"@,
            },
    {
        match *self {
            AlarmSubject::CumulativeError => "累积误差超限",
            AlarmSubject::GearWear(_) => "齿轮磨损异常",
        }
    }
}

/// The decimal digit of a gear group number from 1 to 9.
pub open spec fn gear_digit(g: u8) -> char {
    if g == 1 {
        '1'
    } else if g == 2 {
        '2'
    } else if g == 3 {
        '3'
    } else if g == 4 {
        '4'
    } else if g == 5 {
        '5'
    } else if g == 6 {
        '6'
    } else if g == 7 {
        '7'
    } else if g == 8 {
        '8'
    } else {
        '9'
    }
}

/// The text of an alarm's debounce key: `cumulative_error_<device>` or
/// `gear_wear_<device>_<group>`.
pub open spec fn alarm_key_text(subject: AlarmSubject, device: Seq<char>) -> Seq<char> {
    match subject {
        AlarmSubject::CumulativeError => "cumulative_error_"@ + device,
        AlarmSubject::GearWear(g) => "gear_wear_"@ + device + seq!['_', gear_digit(g)],
    }
}

pub open spec fn single_digit_gear(subject: AlarmSubject) -> bool {
    match subject {
        AlarmSubject::CumulativeError => true,
        AlarmSubject::GearWear(g) => 1 <= g <= 9,
    }
}

/// Different alarms have different key texts: two (subject, device) pairs,
/// with gear groups numbered 1 to 9, whose key texts are equal are the same
/// pair. Debouncing by (subject, device) is therefore debouncing by key text.
pub proof fn law_alarm_keys_are_distinct(
    s1: AlarmSubject,
    d1: Seq<char>,
    s2: AlarmSubject,
    d2: Seq<char>,
)
    requires
        single_digit_gear(s1),
        single_digit_gear(s2),
        alarm_key_text(s1, d1) == alarm_key_text(s2, d2),
    ensures
        s1 == s2,
        d1 == d2,
{
    reveal_strlit("cumulative_error_");
    reveal_strlit("gear_wear_");
    let t1 = alarm_key_text(s1, d1);
    let t2 = alarm_key_text(s2, d2);
    match (s1, s2) {
        (AlarmSubject::CumulativeError, AlarmSubject::CumulativeError) => {
            assert("cumulative_error_"@.len() == 17);
            assert(d1 =~= t1.skip(17));
            assert(d2 =~= t2.skip(17));
        },
        (AlarmSubject::GearWear(g1), AlarmSubject::GearWear(g2)) => {
            assert("gear_wear_"@.len() == 10);
            assert(t1.len() == d1.len() + 12);
            assert(t2.len() == d2.len() + 12);
            assert(d1.len() == d2.len());
            assert(d1 =~= t1.subrange(10, 10 + d1.len() as int));
            assert(d2 =~= t2.subrange(10, 10 + d2.len() as int));
            assert(t1[t1.len() - 1] == gear_digit(g1));
            assert(t2[t2.len() - 1] == gear_digit(g2));
        },
        (AlarmSubject::CumulativeError, AlarmSubject::GearWear(_)) => {
            assert(t1[0] == 'c');
            assert(t2[0] == 'g');
        },
        (AlarmSubject::GearWear(_), AlarmSubject::CumulativeError) => {
            assert(t1[0] == 'g');
            assert(t2[0] == 'c');
        },
    }
}

/// Two clock-backed cumulative-error checks of one device: when the first,
/// reading the clock at `t1`, raises the alarm, a second one reading the clock
/// at `t2` with a value at or past the warning threshold raises it again
/// exactly when at least the cumulative debounce interval has passed from
/// `t1` to `t2`; otherwise it raises nothing and leaves the record at `t1`.
pub proof fn law_clock_backed_cumulative_alarm_repeats_after_interval(
    fired: Map<AlarmKey, UtcInstant>,
    policy: AlarmPolicy,
    device: Seq<char>,
    band1: Band,
    t1: UtcInstant,
    band2: Band,
    t2: UtcInstant,
)
    requires
        alarm_decision(fired, policy, AlarmSubject::CumulativeError, device, band1, t1) is Some,
        band2 != Band::Normal,
    ensures
        ({
            let s = AlarmSubject::CumulativeError;
            let f1 = after_firing(fired, device, alarm_decision(fired, policy, s, device, band1, t1), t1);
            let d2 = alarm_decision(f1, policy, s, device, band2, t2);
            &&& f1.get((s, device)) == Some(t1)
            &&& (d2 is Some <==> whole_seconds_between(t2, t1) >= policy.cumulative_debounce_seconds)
            &&& (d2 is Some ==> d2 == Some(AlarmDecision { subject: s, band: band2, level: alarm_level(s, band2) }))
            &&& (d2 is None ==> after_firing(f1, device, d2, t2) == f1)
        }),
{
}

/// Two clock-backed gear-wear checks of one device: when gear group `g + 1`
/// raises its alarm in the first, reading the clock at `t1`, and is at or past
/// its warning threshold in a second one reading the clock at `t2`, the second
/// raises it again exactly when at least the gear-wear debounce interval has
/// passed from `t1` to `t2`.
pub proof fn law_clock_backed_gear_alarm_repeats_after_interval(
    fired: Map<AlarmKey, UtcInstant>,
    policy: AlarmPolicy,
    device: Seq<char>,
    bands1: Seq<Band>,
    t1: UtcInstant,
    bands2: Seq<Band>,
    t2: UtcInstant,
    g: int,
)
    requires
        bands1.len() == 3,
        bands2.len() == 3,
        0 <= g < 3,
        alarm_decision(fired, policy, gear_subject(g), device, bands1[g], t1) is Some,
        bands2[g] != Band::Normal,
    ensures
        ({
            let f1 = after_gear_firings(fired, policy, device, bands1, t1, t1);
            let d2 = alarm_decision(f1, policy, gear_subject(g), device, bands2[g], t2);
            &&& f1.get((gear_subject(g), device)) == Some(t1)
            &&& (d2 is Some <==> whole_seconds_between(t2, t1) >= policy.gear_wear_debounce_seconds)
            &&& (d2 is Some ==> d2 == Some(
                AlarmDecision {
                    subject: gear_subject(g),
                    band: bands2[g],
                    level: alarm_level(gear_subject(g), bands2[g]),
                },
            ))
        }),
{
    let k = (gear_subject(g), device);
    assert(gear_subject(0) != gear_subject(1));
    assert(gear_subject(0) != gear_subject(2));
    assert(gear_subject(1) != gear_subject(2));
}

} // verus!
