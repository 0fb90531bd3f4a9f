use hunyi_backend::api::HunyiError;
use hunyi_backend::instrument::resolve_instrument;
use hunyi_backend::axes::{
    degradation_axis_angle, find_axis, reading_axis_angle, rotation_axis_angle, transmission_jobs,
    AxisAngle, AxisJob,
};
use hunyi_backend::instrument::{instrument_from_lowercase, parse_instrument_type, InstrumentType};
use hunyi_backend::parse::str_equals;
use hunyi_backend::pipeline::{
    alarm_ws_route, analysis_handles, ingest_step, AlarmWsRoute, IngestAction, IngestEvent,
    IngestResult, IngestState, PipelineMessage, Stage,
};
use hunyi_backend::validation::{checked_field_name, checked_field_range, first_failure, RangeCheck, RangeKind, ValidationFailure};
use hunyi_backend::ws::{WsBroadcastServer, WsMessageType};

type Msg = PipelineMessage<u8, u16, u32, u64>;

#[test]
fn hub_hands_out_increasing_ids() {
    let mut hub: WsBroadcastServer<&str> = WsBroadcastServer::new();
    assert_eq!(hub.connect("a"), 1);
    assert_eq!(hub.connect("b"), 2);
    hub.disconnect(1);
    assert_eq!(hub.connect("c"), 3);
    assert_eq!(hub.session_count(), 2);
    assert!(hub.sessions().get(&1).is_none());
    assert_eq!(hub.sessions().get(&3), Some(&"c"));
}

#[test]
fn disconnect_undoes_connect() {
    let mut hub: WsBroadcastServer<u32> = WsBroadcastServer::default();
    hub.connect(10);
    let before: Vec<(usize, u32)> = { let mut v: Vec<_> = hub.sessions().iter().map(|(k, v)| (*k, *v)).collect(); v.sort(); v };
    let id = hub.connect(20);
    hub.disconnect(id);
    let after: Vec<(usize, u32)> = { let mut v: Vec<_> = hub.sessions().iter().map(|(k, v)| (*k, *v)).collect(); v.sort(); v };
    assert_eq!(before, after);
    hub.disconnect(99);
    assert_eq!(hub.session_count(), 1);
}

#[test]
fn message_type_tags() {
    assert_eq!(WsMessageType::SensorReading.tag(), "sensor_reading");
    assert_eq!(WsMessageType::TransmissionError.tag(), "transmission_error");
    assert_eq!(WsMessageType::PointingAccuracy.tag(), "pointing_accuracy");
    assert_eq!(WsMessageType::Alarm.tag(), "alarm");
}

#[test]
fn alarm_ws_stage_routes() {
    assert_eq!(alarm_ws_route(&Msg::ValidatedReading(1)), AlarmWsRoute::EvaluateAndPushReading);
    assert_eq!(alarm_ws_route(&Msg::TransmissionResult(1)), AlarmWsRoute::Push(WsMessageType::TransmissionError));
    assert_eq!(alarm_ws_route(&Msg::PointingResult(1)), AlarmWsRoute::Push(WsMessageType::PointingAccuracy));
    assert_eq!(alarm_ws_route(&Msg::AlarmTriggered(1)), AlarmWsRoute::Ignore);
    assert_eq!(alarm_ws_route(&Msg::AllComputed(1, vec![2], 3)), AlarmWsRoute::Ignore);
}

#[test]
fn analysis_stages_only_take_readings() {
    assert!(analysis_handles(&Msg::ValidatedReading(1)));
    assert!(!analysis_handles(&Msg::TransmissionResult(1)));
    assert!(!analysis_handles(&Msg::PointingResult(1)));
    assert!(!analysis_handles(&Msg::AlarmTriggered(1)));
}

#[test]
fn invalid_reading_is_refused_at_once() {
    assert_eq!(
        ingest_step(IngestState::Validating, IngestEvent::ValidationFailed),
        (IngestState::Done(IngestResult::RefusedInvalid), IngestAction::Finish)
    );
    assert_eq!(
        ingest_step(IngestState::Storing, IngestEvent::StoreFailed),
        (IngestState::Done(IngestResult::RefusedStorage), IngestAction::Finish)
    );
}

#[test]
fn stored_reading_fans_out_and_is_accepted_even_if_sends_fail() {
    let (s, a) = ingest_step(IngestState::Validating, IngestEvent::ValidationPassed);
    assert_eq!(a, IngestAction::Store);
    let (s, a) = ingest_step(s, IngestEvent::Stored);
    assert_eq!(a, IngestAction::SendTo(Stage::Transmission));
    let (s, a) = ingest_step(s, IngestEvent::SendFailed);
    assert_eq!(a, IngestAction::LogSendFailureThenSendTo(Stage::Pointing));
    let (s, a) = ingest_step(s, IngestEvent::Sent);
    assert_eq!(a, IngestAction::SendTo(Stage::AlarmWs));
    let (s, a) = ingest_step(s, IngestEvent::SendFailed);
    assert_eq!(a, IngestAction::LogSendFailureThenFinish);
    assert_eq!(s, IngestState::Done(IngestResult::Accepted));
}

#[test]
fn axes_are_found_by_first_matching_id() {
    let ids = vec![2u8, 1, 2, 7];
    assert_eq!(find_axis(&ids, 2), Some(0));
    assert_eq!(find_axis(&ids, 1), Some(1));
    assert_eq!(find_axis(&ids, 3), None);
    assert_eq!(
        transmission_jobs(&ids),
        vec![AxisJob { axis_id: 1, position: 1 }, AxisJob { axis_id: 2, position: 0 }]
    );
    assert!(transmission_jobs(&vec![]).is_empty());
}

#[test]
fn axis_angles() {
    assert_eq!(reading_axis_angle(1), AxisAngle::Azimuth);
    assert_eq!(reading_axis_angle(2), AxisAngle::Elevation);
    assert_eq!(reading_axis_angle(3), AxisAngle::Equatorial);
    assert_eq!(reading_axis_angle(4), AxisAngle::Zero);
    assert_eq!(degradation_axis_angle(3), AxisAngle::ThirtyDegrees);
    assert_eq!(degradation_axis_angle(1), AxisAngle::Azimuth);
    assert_eq!(rotation_axis_angle(3), AxisAngle::Equatorial);
    assert_eq!(rotation_axis_angle(9), AxisAngle::Equatorial);
    assert_eq!(rotation_axis_angle(2), AxisAngle::Elevation);
}

#[test]
fn instrument_names() {
    assert_eq!(parse_instrument_type("hunyi"), Some(InstrumentType::Hunyi));
    assert_eq!(parse_instrument_type("HunYi"), Some(InstrumentType::Hunyi));
    assert_eq!(parse_instrument_type("浑仪"), Some(InstrumentType::Hunyi));
    assert_eq!(parse_instrument_type("JIANYI"), Some(InstrumentType::Jianyi));
    assert_eq!(parse_instrument_type("简仪"), Some(InstrumentType::Jianyi));
    assert_eq!(parse_instrument_type("XiangYiYi"), Some(InstrumentType::Xiangyiyi));
    assert_eq!(parse_instrument_type("象限仪"), Some(InstrumentType::Xiangyiyi));
    assert_eq!(parse_instrument_type("Modern_EQ"), Some(InstrumentType::ModernEQ));
    assert_eq!(parse_instrument_type("现代赤道仪"), Some(InstrumentType::ModernEQ));
    assert_eq!(parse_instrument_type("telescope"), None);
    assert_eq!(parse_instrument_type(" hunyi"), None);
    assert_eq!(instrument_from_lowercase("HUNYI"), None);
    assert!(str_equals("浑仪", "浑仪"));
    assert!(!str_equals("a", "ab"));
}

#[test]
fn validation_reports_first_failing_field() {
    let mut checks = [RangeCheck::InRange; 11];
    assert_eq!(first_failure(&checks), None);
    checks[9] = RangeCheck::OutOfRange;
    checks[4] = RangeCheck::NotFinite;
    assert_eq!(first_failure(&checks), Some(ValidationFailure { field: 4, check: RangeCheck::NotFinite }));
    assert_eq!(checked_field_name(4), "humidity");
    checks[4] = RangeCheck::InRange;
    let f = first_failure(&checks).unwrap();
    assert_eq!(checked_field_name(f.field), "gear_meshing_error_2");
    assert_eq!(checked_field_range(f.field), RangeKind::MeshingError);
}

#[test]
fn validation_field_table() {
    let names: Vec<&str> = (0..11).map(checked_field_name).collect();
    assert_eq!(
        names,
        vec![
            "axis_azimuth_angle", "axis_elevation_angle", "axis_equatorial_angle", "temperature",
            "humidity", "gear_wear_level_1", "gear_wear_level_2", "gear_wear_level_3",
            "gear_meshing_error_1", "gear_meshing_error_2", "gear_meshing_error_3",
        ]
    );
    assert_eq!(checked_field_range(0), RangeKind::Angle);
    assert_eq!(checked_field_range(1), RangeKind::Elevation);
    assert_eq!(checked_field_range(2), RangeKind::Angle);
    assert_eq!(checked_field_range(3), RangeKind::Temperature);
    assert_eq!(checked_field_range(4), RangeKind::Humidity);
    assert_eq!(checked_field_range(7), RangeKind::Wear);
}

#[test]
fn unknown_instrument_is_a_configuration_error() {
    assert!(matches!(resolve_instrument("JianYi"), Ok(InstrumentType::Jianyi)));
    match resolve_instrument("sextant") {
        Err(HunyiError::Config(m)) => assert_eq!(m, "未知仪器类型: sextant"),
        other => panic!("unexpected {:?}", other),
    }
    match resolve_instrument("sextant") {
        Err(e) => assert_eq!(e.status_code(), 400),
        Ok(_) => panic!("expected an error"),
    }
}
