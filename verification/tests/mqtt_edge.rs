use hunyi_backend::mqtt::{
    message_status_label, message_topic_label, mqtt_step, parse_broker_address, poll_error_label,
    strip_scheme, MessageOutcome, MqttAction, MqttEvent, MqttPhase, DEFAULT_MQTT_PORT,
};

#[test]
fn broker_with_scheme_and_port() {
    assert_eq!(parse_broker_address("mqtt://emqx:1884"), ("emqx".to_string(), 1884));
}

#[test]
fn broker_without_port_uses_default() {
    assert_eq!(parse_broker_address("broker"), ("broker".to_string(), 1883));
    assert_eq!(DEFAULT_MQTT_PORT, 1883);
}

#[test]
fn broker_with_unreadable_port_uses_default() {
    assert_eq!(parse_broker_address("host:abc"), ("host".to_string(), 1883));
    assert_eq!(parse_broker_address("host:70000"), ("host".to_string(), 1883));
    assert_eq!(parse_broker_address("host:"), ("host".to_string(), 1883));
    assert_eq!(parse_broker_address("host:1:2"), ("host".to_string(), 1883));
}

#[test]
fn broker_parsing_matches_the_original_expression() {
    for url in ["mqtt://a:1", "mqtt://mqtt://b:2", "c", "mqtt:/d:3", ":9", "", "mqtt://", "e:+5", "名字:1883"] {
        let trimmed = url.trim_start_matches("mqtt://");
        let expected = match trimmed.split_once(':') {
            Some((h, p)) => (h.to_string(), p.parse::<u16>().unwrap_or(1883)),
            None => (trimmed.to_string(), 1883),
        };
        assert_eq!(parse_broker_address(url), expected, "url {:?}", url);
    }
}

#[test]
fn every_leading_scheme_is_removed() {
    assert_eq!(strip_scheme("mqtt://mqtt://x"), "x");
    assert_eq!(strip_scheme("x/mqtt://"), "x/mqtt://");
}

#[test]
fn subscriber_retries_until_subscribed() {
    assert_eq!(
        mqtt_step(MqttPhase::Subscribing, MqttEvent::SubscribeFailed),
        (MqttPhase::Subscribing, MqttAction::RetrySubscribeAfter(3))
    );
    assert_eq!(
        mqtt_step(MqttPhase::Subscribing, MqttEvent::SubscribeOk),
        (MqttPhase::Listening, MqttAction::Subscribed)
    );
}

#[test]
fn listening_subscriber_reacts_to_events() {
    let l = MqttPhase::Listening;
    assert_eq!(mqtt_step(l, MqttEvent::Publish), (l, MqttAction::HandlePayload));
    assert_eq!(mqtt_step(l, MqttEvent::ConnAck), (l, MqttAction::Resubscribe));
    assert_eq!(mqtt_step(l, MqttEvent::SubAck), (l, MqttAction::SubscriptionConfirmed));
    assert_eq!(mqtt_step(l, MqttEvent::PollError), (l, MqttAction::CountErrorAndWait(3)));
    assert_eq!(mqtt_step(l, MqttEvent::PubAck), (l, MqttAction::Continue));
    assert_eq!(mqtt_step(l, MqttEvent::PingResp), (l, MqttAction::Continue));
    assert_eq!(mqtt_step(l, MqttEvent::Outgoing), (l, MqttAction::Continue));
}

#[test]
fn message_labels() {
    assert_eq!(message_topic_label(), "hunyi/sensor");
    assert_eq!(message_status_label(MessageOutcome::Ingested), "ok");
    assert_eq!(message_status_label(MessageOutcome::Refused), "validation_error");
    assert_eq!(message_status_label(MessageOutcome::Unparsable), "parse_error");
    assert_eq!(poll_error_label(), "error");
}
