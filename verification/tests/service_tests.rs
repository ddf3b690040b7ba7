use cloudwatch_bot::digits::parse_u8_decimal;
use cloudwatch_bot::digits::u16_to_string;
use cloudwatch_bot::errors::CloudwatchNotifierError;
use cloudwatch_bot::notification::AlarmDetails;
use cloudwatch_bot::notification::AlarmTrigger;
use cloudwatch_bot::registry::AlarmState;
use cloudwatch_bot::service::Options;
use cloudwatch_bot::service::SnsAction;
use cloudwatch_bot::service::dispatch;
use cloudwatch_bot::service::health_check_route;
use cloudwatch_bot::service::send_notification;

#[test]
fn test_health_check_route_answers_ok() {
    assert_eq!(health_check_route(), "OK");
}

#[test]
fn test_dispatch_subscription_confirmation() {
    let body = "{\"TopicArn\":\"arn:x\",\"SubscribeURL\":\"https://example.org/\",\"Timestamp\":\"t\"}";
    let action = dispatch(Some("SubscriptionConfirmation"), body).unwrap();
    match action {
        SnsAction::Confirm(sub) => {
            assert_eq!(sub.subscribe_url, "https://example.org/");
            assert_eq!(sub.topic_arn, "arn:x");
        },
        other => panic!("unexpected action: {:?}", other),
    }
}

#[test]
fn test_dispatch_notification() {
    let body = "{\"Message\": \"{\\\"AlarmName\\\":\\\"a\\\",\\\"AlarmDescription\\\":\\\"d\\\",\\\"NewStateValue\\\":\\\"ALARM\\\",\\\"NewStateReason\\\":\\\"r\\\",\\\"StateChangeTime\\\":\\\"t\\\",\\\"OldStateValue\\\":\\\"OK\\\",\\\"Trigger\\\":{\\\"MetricName\\\":\\\"m\\\",\\\"Namespace\\\":\\\"n\\\",\\\"Statistic\\\":\\\"s\\\",\\\"Dimensions\\\":[],\\\"ComparisonOperator\\\":\\\"c\\\",\\\"Period\\\":60,\\\"EvaluationPeriods\\\":5,\\\"Threshold\\\":1.5}}\"}";
    let action = dispatch(Some("Notification"), body).unwrap();
    match action {
        SnsAction::Forward(details) => {
            assert_eq!(details.new_state, AlarmState::Alarm);
            assert_eq!(details.previous_state, AlarmState::Okay);
            assert_eq!(details.trigger.threshold, "1.5");
        },
        other => panic!("unexpected action: {:?}", other),
    }
}

#[test]
fn test_dispatch_unsubscribe_confirmation_is_ignored() {
    let action = dispatch(Some("UnsubscribeConfirmation"), "anything").unwrap();
    assert!(matches!(action, SnsAction::Ignore));
}

#[test]
fn test_dispatch_unknown_header_fails_classification() {
    let err = dispatch(Some("Announcement"), "{}").unwrap_err();
    match err {
        CloudwatchNotifierError::EnumParse(e) => {
            assert_eq!(e.value, "Announcement");
            assert_eq!(e.mapping.len(), 3);
        },
        other => panic!("unexpected error kind: {:?}", other),
    }
}

#[test]
fn test_dispatch_absent_header_fails_classification() {
    let err = dispatch(None, "{}").unwrap_err();
    match err {
        CloudwatchNotifierError::EnumParse(e) => {
            assert_eq!(e.value, "");
            let rendered = e.render();
            assert_eq!(
                rendered,
                "'' does not match allowed enum values: Notification | SubscriptionConfirmation | UnsubscribeConfirmation"
            );
        },
        other => panic!("unexpected error kind: {:?}", other),
    }
}

#[test]
fn test_dispatch_subscription_bad_body_is_json_error() {
    let err = dispatch(Some("SubscriptionConfirmation"), "{}").unwrap_err();
    assert!(matches!(err, CloudwatchNotifierError::Json(_)));
}

fn stub_details() -> AlarmDetails {
    AlarmDetails {
        name: "a".to_string(),
        description: "d".to_string(),
        new_state: AlarmState::Okay,
        reason: "r".to_string(),
        timestamp: "t".to_string(),
        previous_state: AlarmState::Alarm,
        trigger: AlarmTrigger {
            metric_name: "m".to_string(),
            namespace: "n".to_string(),
            statistic: "s".to_string(),
            dimensions: Vec::new(),
            op: "c".to_string(),
            period: 60,
            nb_periods: 5,
            threshold: "1.0".to_string(),
        },
    }
}

#[test]
fn test_send_notification_succeeds_with_channel() {
    let options = Options { slack: Some("#alerts".to_string()) };
    assert_eq!(send_notification(options, stub_details()).is_ok(), true);
}

#[test]
fn test_send_notification_succeeds_without_channel() {
    let options = Options { slack: None };
    assert_eq!(send_notification(options, stub_details()).is_ok(), true);
}

#[test]
fn test_u16_rendering() {
    assert_eq!(u16_to_string(0), "0");
    assert_eq!(u16_to_string(200), "200");
    assert_eq!(u16_to_string(404), "404");
    assert_eq!(u16_to_string(65535), "65535");
}

#[test]
fn test_parse_u8_decimal() {
    assert_eq!(parse_u8_decimal("0"), Some(0));
    assert_eq!(parse_u8_decimal("60"), Some(60));
    assert_eq!(parse_u8_decimal("255"), Some(255));
    assert_eq!(parse_u8_decimal("256"), None);
    assert_eq!(parse_u8_decimal(""), None);
    assert_eq!(parse_u8_decimal("1.0"), None);
    assert_eq!(parse_u8_decimal("-1"), None);
    assert_eq!(parse_u8_decimal("007"), Some(7));
}

#[test]
fn test_io_error_render() {
    let err = CloudwatchNotifierError::Io("broken pipe".to_string());
    assert_eq!(err.render(), "IO error: broken pipe");
}

#[test]
fn test_json_error_render() {
    let err = dispatch(Some("Notification"), "not json at all").unwrap_err();
    let rendered = err.render();
    assert!(rendered.starts_with("JSON error: "));
}
