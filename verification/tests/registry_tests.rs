use cloudwatch_bot::registry::AlarmState;
use cloudwatch_bot::registry::MessageType;
use cloudwatch_bot::registry::classify;

#[test]
fn model_test_message_type_from_string_matches() {
    let notification = MessageType::from_string("Notification").unwrap();
    let sub_confirmation = MessageType::from_string("SubscriptionConfirmation").unwrap();
    let unsub_confirmation = MessageType::from_string("UnsubscribeConfirmation").unwrap();

    assert_eq!(notification, MessageType::Notification);
    assert_eq!(sub_confirmation, MessageType::SubscriptionConfirmation);
    assert_eq!(unsub_confirmation, MessageType::UnsubscribeConfirmation);
}

#[test]
fn model_test_message_type_from_string_no_match() {
    let no_match = MessageType::from_string("foo");
    assert_eq!(no_match.is_some(), false);
}

#[test]
fn msg_type_test_message_type_from_string_matches() {
    let notification: MessageType = MessageType::from_str("Notification").expect("should not happen");
    let sub_confirmation: MessageType = MessageType::from_str("SubscriptionConfirmation").expect(
        "should not happen",
    );
    let unsub_confirmation: MessageType = MessageType::from_str("UnsubscribeConfirmation").expect(
        "should not happen",
    );

    assert_eq!(notification, MessageType::Notification);
    assert_eq!(sub_confirmation, MessageType::SubscriptionConfirmation);
    assert_eq!(unsub_confirmation, MessageType::UnsubscribeConfirmation);
}

#[test]
fn msg_type_test_message_type_from_string_no_match() {
    let no_match = MessageType::from_str("foo");
    assert_eq!(no_match.is_ok(), false);
}

#[test]
fn test_alarm_state_from_string_matches() {
    let ok: AlarmState = AlarmState::from_str("OK").expect("Should not happen");
    let alarm: AlarmState = AlarmState::from_str("ALARM").expect("Should not happen");
    let insufficient_data: AlarmState = AlarmState::from_str("INSUFFICIENT_DATA").expect(
        "Should not happen",
    );

    assert_eq!(ok, AlarmState::Okay);
    assert_eq!(alarm, AlarmState::Alarm);
    assert_eq!(insufficient_data, AlarmState::InsufficientData);
}

#[test]
fn test_alarm_state_from_string_no_match() {
    let no_match = AlarmState::from_str("foo");
    assert_eq!(no_match.is_ok(), false);
}

#[test]
fn test_message_type_miss_carries_full_allowed_set() {
    let err = MessageType::from_str("foo").unwrap_err();
    assert_eq!(err.value, "foo");
    let tags: Vec<&str> = err.mapping.iter().map(|p| p.0.as_str()).collect();
    assert_eq!(
        tags,
        vec!["Notification", "SubscriptionConfirmation", "UnsubscribeConfirmation"]
    );
    assert_eq!(
        err.render(),
        "'foo' does not match allowed enum values: Notification | SubscriptionConfirmation | UnsubscribeConfirmation"
    );
}

#[test]
fn test_alarm_state_miss_carries_full_allowed_set() {
    let err = AlarmState::from_str("warn").unwrap_err();
    assert_eq!(err.value, "warn");
    let tags: Vec<&str> = err.mapping.iter().map(|p| p.0.as_str()).collect();
    assert_eq!(tags, vec!["OK", "ALARM", "INSUFFICIENT_DATA"]);
    assert_eq!(
        err.render(),
        "'warn' does not match allowed enum values: OK | ALARM | INSUFFICIENT_DATA"
    );
}

#[test]
fn test_classify_present_header() {
    let r = classify(Some("SubscriptionConfirmation"));
    assert_eq!(r.unwrap(), MessageType::SubscriptionConfirmation);
}

#[test]
fn test_classify_absent_header() {
    let err = classify(None).unwrap_err();
    assert_eq!(err.value, "");
    assert_eq!(err.mapping.len(), 3);
}

#[test]
fn test_classify_unknown_header() {
    let err = classify(Some("notification")).unwrap_err();
    assert_eq!(err.value, "notification");
    assert_eq!(err.mapping.len(), 3);
}
