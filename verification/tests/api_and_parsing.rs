use hunyi_backend::settings::{port_setting, wants_json_logs, DEFAULT_METRICS_PORT, DEFAULT_SERVER_PORT};
use hunyi_backend::api::{ApiResponse, HunyiError};
use hunyi_backend::parse::{parse_i8, parse_u16, parse_usize};
use hunyi_backend::query::{acknowledged_param, device_id_param, limit_param};

#[test]
fn ok_response_carries_data_and_ok_message() {
    let r = ApiResponse::ok(42u32);
    assert!(r.success);
    assert_eq!(r.message, "OK");
    assert_eq!(r.data, Some(42));
}

#[test]
fn success_is_the_same_as_ok() {
    let r = ApiResponse::success("x".to_string());
    assert!(r.success);
    assert_eq!(r.message, "OK");
    assert_eq!(r.data.as_deref(), Some("x"));
}

#[test]
fn error_response_carries_message_and_no_data() {
    let r: ApiResponse<u8> = ApiResponse::error("boom");
    assert!(!r.success);
    assert_eq!(r.message, "boom");
    assert!(r.data.is_none());
}

#[test]
fn client_errors_are_bad_requests() {
    let v = HunyiError::Validation { field: "humidity".to_string(), message: "m".to_string() };
    assert_eq!(v.status_code(), 400);
    assert_eq!(HunyiError::Config("c".to_string()).status_code(), 400);
    let json_err = serde_json::from_str::<u32>("not json").unwrap_err();
    assert_eq!(HunyiError::Json(json_err).status_code(), 400);
}

#[test]
fn server_errors_are_internal() {
    assert_eq!(HunyiError::ClickHouse("down".to_string()).status_code(), 500);
    assert_eq!(HunyiError::Channel("closed".to_string()).status_code(), 500);
    let io = std::io::Error::new(std::io::ErrorKind::NotFound, "missing");
    assert_eq!(HunyiError::Io(io).status_code(), 500);
}

const SAMPLES: &[&str] = &[
    "", "+", "-", "0", "+0", "-0", "7", "+5", "-5", "007", "127", "128", "-128", "-129", "255",
    "256", "65535", "65536", "+65535", "4294967295", "18446744073709551615",
    "18446744073709551616", "99999999999999999999999", " 1", "1 ", "1_0", "1.0", "0x10", "１",
    "٣", "++1", "+-1", "--1", "abc", "12a", "-", "-+1",
];

#[test]
fn u16_parsing_matches_std() {
    for s in SAMPLES {
        assert_eq!(parse_u16(s), s.parse::<u16>().ok(), "input {:?}", s);
    }
}

#[test]
fn usize_parsing_matches_std() {
    for s in SAMPLES {
        assert_eq!(parse_usize(s), s.parse::<usize>().ok(), "input {:?}", s);
    }
}

#[test]
fn i8_parsing_matches_std() {
    for s in SAMPLES {
        assert_eq!(parse_i8(s), s.parse::<i8>().ok(), "input {:?}", s);
    }
}

#[test]
fn exact_parsed_values() {
    assert_eq!(parse_u16("1883"), Some(1883));
    assert_eq!(parse_u16("65536"), None);
    assert_eq!(parse_usize("+250"), Some(250));
    assert_eq!(parse_i8("-128"), Some(-128));
    assert_eq!(parse_i8("128"), None);
    assert_eq!(parse_u16("-1"), None);
}

#[test]
fn limit_defaults_to_one_hundred() {
    assert_eq!(limit_param(None), 100);
    assert_eq!(limit_param(Some("abc")), 100);
    assert_eq!(limit_param(Some("-3")), 100);
    assert_eq!(limit_param(Some("25")), 25);
    assert_eq!(limit_param(Some("0")), 0);
}

#[test]
fn acknowledged_defaults_to_all_alarms() {
    assert_eq!(acknowledged_param(None), -1);
    assert_eq!(acknowledged_param(Some("yes")), -1);
    assert_eq!(acknowledged_param(Some("1")), 1);
    assert_eq!(acknowledged_param(Some("0")), 0);
    assert_eq!(acknowledged_param(Some("300")), -1);
}

#[test]
fn device_id_defaults_to_empty() {
    assert_eq!(device_id_param(None), "");
    let d = "HUNYI-001".to_string();
    assert_eq!(device_id_param(Some(&d)), "HUNYI-001");
}

#[test]
fn port_settings_default_when_unreadable() {
    assert_eq!(port_setting(None, DEFAULT_SERVER_PORT), 8080);
    assert_eq!(port_setting(Some("9000"), DEFAULT_SERVER_PORT), 9000);
    assert_eq!(port_setting(Some("nine"), DEFAULT_METRICS_PORT), 8081);
    assert_eq!(port_setting(Some("70000"), DEFAULT_METRICS_PORT), 8081);
    assert!(wants_json_logs(Some("json")));
    assert!(!wants_json_logs(Some("JSON")));
    assert!(!wants_json_logs(None));
}
