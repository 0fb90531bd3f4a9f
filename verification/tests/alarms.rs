use hunyi_backend::alarm::{AlarmDecision, AlarmEvaluator, AlarmPolicy, AlarmSubject, Band};
use hunyi_backend::debounce::DebounceRegistry;
use hunyi_backend::clock::{elapsed_whole_seconds, UtcInstant};

fn at(secs: i64, nanos: u32) -> UtcInstant {
    UtcInstant { secs, nanos }
}

fn policy() -> AlarmPolicy {
    AlarmPolicy { cumulative_debounce_seconds: 300, gear_wear_debounce_seconds: 600 }
}

#[test]
fn elapsed_seconds_round_toward_zero() {
    assert_eq!(elapsed_whole_seconds(at(70, 100_000_000), at(10, 900_000_000)), 59);
    assert_eq!(elapsed_whole_seconds(at(10, 900_000_000), at(70, 100_000_000)), -59);
    assert_eq!(elapsed_whole_seconds(at(5, 0), at(5, 0)), 0);
    assert_eq!(elapsed_whole_seconds(at(6, 0), at(5, 1)), 0);
}

#[test]
fn elapsed_seconds_match_chrono() {
    let pairs = [(70i64, 100_000_000u32, 10i64, 900_000_000u32), (10, 900_000_000, 70, 100_000_000), (1_700_000_000, 5, 1_600_000_000, 6), (-5, 3, 7, 999_999_999)];
    for (s1, n1, s2, n2) in pairs {
        let a = chrono::DateTime::from_timestamp(s1, n1).unwrap();
        let b = chrono::DateTime::from_timestamp(s2, n2).unwrap();
        assert_eq!(elapsed_whole_seconds(at(s1, n1), at(s2, n2)), (a - b).num_seconds() as i128);
    }
}

#[test]
fn cumulative_alarm_is_level_two_and_warning_level_one() {
    let mut e = AlarmEvaluator::new(policy());
    let a = "A".to_string();
    let b = "B".to_string();
    assert_eq!(
        e.check_cumulative_at(&a, Band::Alarm, at(0, 0), at(0, 0)),
        Some(AlarmDecision { subject: AlarmSubject::CumulativeError, band: Band::Alarm, level: 2 })
    );
    assert_eq!(
        e.check_cumulative_at(&b, Band::Warning, at(0, 0), at(0, 0)),
        Some(AlarmDecision { subject: AlarmSubject::CumulativeError, band: Band::Warning, level: 1 })
    );
}

#[test]
fn normal_values_never_alarm() {
    let mut e = AlarmEvaluator::new(policy());
    let d = "D".to_string();
    assert_eq!(e.check_cumulative_at(&d, Band::Normal, at(0, 0), at(0, 0)), None);
    assert!(e.check_gear_wear_at(&d, [Band::Normal; 3], at(0, 0), at(0, 0)).is_empty());
    assert!(e.should_trigger(AlarmSubject::CumulativeError, &d, at(1, 0)));
}

#[test]
fn alarm_is_debounced_until_interval_passes() {
    let mut e = AlarmEvaluator::new(policy());
    let d = "HUNYI-001".to_string();
    assert!(e.check_cumulative_at(&d, Band::Alarm, at(1000, 0), at(1000, 500)).is_some());
    assert_eq!(e.check_cumulative_at(&d, Band::Alarm, at(1299, 999_999_999), at(1299, 0)), None);
    assert_eq!(e.check_cumulative_at(&d, Band::Warning, at(1300, 0), at(1300, 0)), None);
    assert!(e.check_cumulative_at(&d, Band::Warning, at(1300, 500), at(1300, 600)).is_some());
}

#[test]
fn suppressed_alarm_does_not_restart_the_interval() {
    let mut e = AlarmEvaluator::new(policy());
    let d = "X".to_string();
    assert!(e.check_cumulative_at(&d, Band::Alarm, at(0, 0), at(0, 0)).is_some());
    assert!(e.check_cumulative_at(&d, Band::Alarm, at(200, 0), at(200, 0)).is_none());
    assert!(e.check_cumulative_at(&d, Band::Alarm, at(300, 0), at(300, 0)).is_some());
}

#[test]
fn alarms_of_different_devices_and_subjects_are_independent() {
    let mut e = AlarmEvaluator::new(policy());
    let a = "A".to_string();
    let b = "B".to_string();
    assert!(e.check_cumulative_at(&a, Band::Alarm, at(0, 0), at(0, 0)).is_some());
    assert!(e.check_cumulative_at(&b, Band::Alarm, at(1, 0), at(1, 0)).is_some());
    let gears = e.check_gear_wear_at(&a, [Band::Alarm, Band::Normal, Band::Warning], at(2, 0), at(2, 0));
    assert_eq!(
        gears,
        vec![
            AlarmDecision { subject: AlarmSubject::GearWear(1), band: Band::Alarm, level: 3 },
            AlarmDecision { subject: AlarmSubject::GearWear(3), band: Band::Warning, level: 1 },
        ]
    );
}

#[test]
fn gear_alarms_use_their_own_interval() {
    let mut e = AlarmEvaluator::new(policy());
    let d = "G".to_string();
    assert_eq!(e.check_gear_wear_at(&d, [Band::Warning; 3], at(0, 0), at(0, 0)).len(), 3);
    assert!(e.check_gear_wear_at(&d, [Band::Warning; 3], at(599, 0), at(599, 0)).is_empty());
    assert_eq!(e.check_gear_wear_at(&d, [Band::Alarm; 3], at(600, 0), at(600, 0)).len(), 3);
}

#[test]
fn a_reading_raises_cumulative_alarm_first() {
    let mut e = AlarmEvaluator::new(policy());
    let d = "R".to_string();
    let r = e.evaluate_reading_at(&d, Band::Warning, [Band::Normal, Band::Alarm, Band::Normal], at(0, 0), at(0, 0));
    assert_eq!(
        r,
        vec![
            AlarmDecision { subject: AlarmSubject::CumulativeError, band: Band::Warning, level: 1 },
            AlarmDecision { subject: AlarmSubject::GearWear(2), band: Band::Alarm, level: 3 },
        ]
    );
    assert!(e.evaluate_reading_at(&d, Band::Alarm, [Band::Alarm; 3], at(1, 0), at(1, 0)).len() == 2);
}

#[test]
fn clock_backed_checks_debounce_an_immediate_repeat() {
    let mut e = AlarmEvaluator::new(policy());
    let d = "CLOCK".to_string();
    assert!(e.check_cumulative(&d, Band::Alarm).is_some());
    assert!(e.check_cumulative(&d, Band::Alarm).is_none());
    assert_eq!(e.check_gear_wear(&d, [Band::Warning; 3]).len(), 3);
    assert!(e.check_gear_wear(&d, [Band::Warning; 3]).is_empty());
}

#[test]
fn registry_remembers_the_latest_firing() {
    let mut r = DebounceRegistry::new();
    let d = "D".to_string();
    assert_eq!(r.last_fired(AlarmSubject::CumulativeError, &d), None);
    r.mark_triggered(AlarmSubject::CumulativeError, &d, at(5, 0));
    r.mark_triggered(AlarmSubject::GearWear(1), &d, at(6, 0));
    r.mark_triggered(AlarmSubject::CumulativeError, &d, at(9, 0));
    assert_eq!(r.last_fired(AlarmSubject::CumulativeError, &d), Some(at(9, 0)));
    assert_eq!(r.last_fired(AlarmSubject::GearWear(1), &d), Some(at(6, 0)));
    assert_eq!(r.last_fired(AlarmSubject::GearWear(2), &d), None);
    assert!(!r.should_trigger(AlarmSubject::CumulativeError, &d, 10, at(18, 999_999_999)));
    assert!(r.should_trigger(AlarmSubject::CumulativeError, &d, 10, at(19, 0)));
}

#[test]
fn subject_details() {
    assert_eq!(AlarmSubject::CumulativeError.affected_axis(), None);
    assert_eq!(AlarmSubject::GearWear(2).affected_axis(), Some(2));
    assert_eq!(AlarmSubject::CumulativeError.alarm_type(), "累积误差超限");
    assert_eq!(AlarmSubject::GearWear(1).alarm_type(), "齿轮磨损异常");
}
