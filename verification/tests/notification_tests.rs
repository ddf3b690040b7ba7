use cloudwatch_bot::errors::CloudwatchNotifierError;
use cloudwatch_bot::notification::AlarmDetails;
use cloudwatch_bot::notification::Notification;
use cloudwatch_bot::registry::AlarmState;

#[test]
fn test_parse_notification() {
    let json = "\
    {
        \"Type\" : \"Notification\",
        \"MessageId\" : \"d921a633-3dbb-528e-a15c-e978b55d6156\",
        \"TopicArn\" : \"arn:aws:sns:us-east-1:097958131044:jabber-all\",
        \"Subject\" : \"OK: \\\"[RTB-US] UnHealtyhHostCount\\\" in US - N. Virginia\",
        \"Message\" : \"{\\\"AlarmName\\\":\\\"[RTB-US] UnHealthyHostCount\\\",\\\"AlarmDescription\\\":\\\"UnHealthyHostCount\\\",\\\"AWSAccountId\\\":\\\"097958131044\\\",\\\"NewStateValue\\\":\\\"OK\\\",\\\"NewStateReason\\\":\\\"Threshold Crossed: 1 datapoint (0.4482758620689655) was not greater than or equal to the threshold (1.0).\\\",\\\"StateChangeTime\\\":\\\"2016-02-27T11:21:10.602+0000\\\",\\\"Region\\\":\\\"US - N. Virginia\\\",\\\"OldStateValue\\\":\\\"ALARM\\\",\\\"Trigger\\\":{\\\"MetricName\\\":\\\"UnHealthyHostCount\\\",\\\"Namespace\\\":\\\"AWS/ELB\\\",\\\"Statistic\\\":\\\"AVERAGE\\\",\\\"Unit\\\":null,\\\"Dimensions\\\":[{\\\"name\\\":\\\"LoadBalancerName\\\",\\\"value\\\":\\\"rtb\\\"}],\\\"Period\\\":60,\\\"EvaluationPeriods\\\":5,\\\"ComparisonOperator\\\":\\\"GreaterThanOrEqualToThreshold\\\",\\\"Threshold\\\":1.0}}\",
        \"Timestamp\" : \"2016-02-27T11:21:10.645Z\",
        \"SignatureVersion\" : \"1\",
        \"Signature\" : \"c/em6S4BTVjDaZSb9CY2xaZN0CcBrMpjt1oAVkrRWxgSyeRYle7eZfPKqkOqGfDDAISieK+iNvVWmJwsDAGYhzaXGt4hCTzQ5wzO7/Agxkh6LCYZhqiR39JV7NH78mpLqV0PHgI85Rte05Ou1y8BDy+YgyTn6Cyx2Gyldpa3YhOexQQ+HZLO7zTfdOL9pIU0a+xes1VAgcu0W5h7k3oyMKscJvW3EmteXQu+3psieDDs4tjFd8xsTfxMHkkjYlj/4sN/pkn+3aWW12dX8rUey3TrBtxtiEsuiagh6qiAVDNYI8zpfcn7efzVYoskM2uS7gWJ0jRdvYQuz1C5OSuncQ==\",
        \"SigningCertURL\" : \"https://sns.us-east-1.amazonaws.com/SimpleNotificationService-bb750dd426d95ee9390147a5624348ee.pem\",
        \"UnsubscribeURL\" : \"https://sns.us-east-1.amazonaws.com/?Action=Unsubscribe&SubscriptionArn=arn:aws:sns:us-east-1:097958131044:jabber-all:37f2da3a-76fd-4e5b-ac6a-a01ce32b8ea7\"
    }";

    let result = AlarmDetails::from_str(json);
    assert_eq!(result.is_ok(), true);

    let details = result.unwrap();
    let trigger = details.trigger;

    assert_eq!(details.name, "[RTB-US] UnHealthyHostCount");
    assert_eq!(details.description, "UnHealthyHostCount");
    assert_eq!(details.new_state, AlarmState::Okay);
    assert_eq!(
        details.reason,
        "Threshold Crossed: 1 datapoint (0.4482758620689655) was not greater than or equal to the threshold (1.0)."
    );
    assert_eq!(details.previous_state, AlarmState::Alarm);

    assert_eq!(trigger.metric_name, "UnHealthyHostCount");
    assert_eq!(trigger.namespace, "AWS/ELB");
    assert_eq!(trigger.statistic, "AVERAGE");
    assert_eq!(trigger.period, 60);
    assert_eq!(trigger.nb_periods, 5);
    assert_eq!(trigger.op, "GreaterThanOrEqualToThreshold");
    assert_eq!(trigger.threshold, "1.0");

    assert_eq!(trigger.dimensions[0].name, "LoadBalancerName");
    assert_eq!(trigger.dimensions[0].value, "rtb");
}

#[test]
fn test_notification_fail_if_message_not_a_string() {
    let json = "\
    {\
        \"Type\" : \"Notification\",
        \"MessageId\" : \"e8af1a0c-3b6b-5608-ab09-570f57d6cc65\",
        \"TopicArn\" : \"arn:aws:sns:us-east-1:097958131044:jabber-all\",
        \"Subject\" : \"OK: \\\"[TRACKING US] CPU Utilisation >70% for 5 min\\\" in US - N. Virginia\",
        \"Message\" : 10,
        \"Timestamp\" : \"2014-12-11T09:57:17.756Z\",
        \"SignatureVersion\" : \"1\",
        \"Signature\" : \"nSs8D+hDzheuCMq4K5d3zjbb/OL1oP+UQLyM9Qn6/OADKUEJ8TRTmOXA/e6nzjuIT8mt3/Km59bAhO7GuwtwH/VjmlwyCbpO4LKoAUorNiQI0MCCOSWP7rF08Bm1GKnB6XQpu12l/Eig5CGoke86joJpKb4jaMlhGWsk6TVlQduA/Lu0NhW+3iJGIHtgxbFxjnokH18fItZJDalibASkhrUjw9/Ey31xkiojqM7Um+KO78fvo6kEUiTQpGo5cRGXm20u5FGnrARqmwXyMzSY9VFvy9HPxSqnqp/tHh4iCq5Ij0euhy3+S30dYYwC/1cZfq+1dLF1yY4o/WutvFCfOQ==\",
        \"SigningCertURL\" : \"https://sns.us-east-1.amazonaws.com/SimpleNotificationService-d6d679a1d18e95c2f9ffcf11f4f9e198.pem\",
        \"UnsubscribeURL\" : \"https://sns.us-east-1.amazonaws.com/?Action=Unsubscribe&SubscriptionArn=arn:aws:sns:us-east-1:097958131044:jabber-all:37f2da3a-76fd-4e5b-ac6a-a01ce32b8ea7\"
    }";

    let result = AlarmDetails::from_str(json);
    assert_eq!(result.is_ok(), false);
}

#[test]
fn test_notification_fail_if_message_not_json() {
    let json = "\
    {\
        \"Type\" : \"Notification\",
        \"MessageId\" : \"e8af1a0c-3b6b-5608-ab09-570f57d6cc65\",
        \"TopicArn\" : \"arn:aws:sns:us-east-1:097958131044:jabber-all\",
        \"Subject\" : \"OK: \\\"[TRACKING US] CPU Utilisation >70% for 5 min\\\" in US - N. Virginia\",
        \"Message\" : \"\",
        \"Timestamp\" : \"2014-12-11T09:57:17.756Z\",
        \"SignatureVersion\" : \"1\",
        \"Signature\" : \"nSs8D+hDzheuCMq4K5d3zjbb/OL1oP+UQLyM9Qn6/OADKUEJ8TRTmOXA/e6nzjuIT8mt3/Km59bAhO7GuwtwH/VjmlwyCbpO4LKoAUorNiQI0MCCOSWP7rF08Bm1GKnB6XQpu12l/Eig5CGoke86joJpKb4jaMlhGWsk6TVlQduA/Lu0NhW+3iJGIHtgxbFxjnokH18fItZJDalibASkhrUjw9/Ey31xkiojqM7Um+KO78fvo6kEUiTQpGo5cRGXm20u5FGnrARqmwXyMzSY9VFvy9HPxSqnqp/tHh4iCq5Ij0euhy3+S30dYYwC/1cZfq+1dLF1yY4o/WutvFCfOQ==\",
        \"SigningCertURL\" : \"https://sns.us-east-1.amazonaws.com/SimpleNotificationService-d6d679a1d18e95c2f9ffcf11f4f9e198.pem\",
        \"UnsubscribeURL\" : \"https://sns.us-east-1.amazonaws.com/?Action=Unsubscribe&SubscriptionArn=arn:aws:sns:us-east-1:097958131044:jabber-all:37f2da3a-76fd-4e5b-ac6a-a01ce32b8ea7\"
    }";

    let result = AlarmDetails::from_str(json);
    assert_eq!(result.is_ok(), false);
}

#[test]
fn test_notification_envelope_extracts_message() {
    let envelope = Notification::parse("{\"Message\": \"not json, but extracted\"}").unwrap();
    assert_eq!(envelope.message, "not json, but extracted");
}

#[test]
fn test_notification_envelope_requires_message() {
    let err = Notification::parse("{\"Subject\": \"hi\"}").unwrap_err();
    match err {
        CloudwatchNotifierError::Json(je) => {
            assert_eq!(je.message, "missing field");
            assert_eq!(je.path.as_deref(), Some("Message"));
        },
        other => panic!("unexpected error kind: {:?}", other),
    }
}

fn alarm_message(new_state: &str, old_state: &str, period: &str) -> String {
    let mut m = String::from("{\"AlarmName\":\"a\",\"AlarmDescription\":\"d\",\"NewStateValue\":");
    m.push_str(new_state);
    m.push_str(",\"NewStateReason\":\"r\",\"StateChangeTime\":\"t\",\"OldStateValue\":");
    m.push_str(old_state);
    m.push_str(
        ",\"Trigger\":{\"MetricName\":\"m\",\"Namespace\":\"n\",\"Statistic\":\"s\",\"Dimensions\":[],\"ComparisonOperator\":\"c\",\"Period\":",
    );
    m.push_str(period);
    m.push_str(",\"EvaluationPeriods\":5,\"Threshold\":2.5}}");
    m
}

fn notification_body(message: &str) -> String {
    let encoded = message.replace('\\', "\\\\").replace('"', "\\\"");
    let mut body = String::from("{\"Message\": \"");
    body.push_str(&encoded);
    body.push_str("\"}");
    body
}

#[test]
fn test_alarm_state_outside_domain_is_enum_miss() {
    let body = notification_body(&alarm_message("\"WEIRD\"", "\"ALARM\"", "60"));
    let err = AlarmDetails::from_str(&body).unwrap_err();
    match err {
        CloudwatchNotifierError::Json(je) => {
            assert_eq!(
                je.message,
                "'WEIRD' does not match allowed enum values: OK | ALARM | INSUFFICIENT_DATA"
            );
        },
        other => panic!("unexpected error kind: {:?}", other),
    }
}

#[test]
fn test_alarm_state_not_a_string_is_decode_error() {
    let body = notification_body(&alarm_message("3", "\"ALARM\"", "60"));
    let err = AlarmDetails::from_str(&body).unwrap_err();
    match err {
        CloudwatchNotifierError::Json(je) => {
            assert_eq!(je.message, "AlarmState expects a string");
        },
        other => panic!("unexpected error kind: {:?}", other),
    }
}

#[test]
fn test_alarm_period_over_a_byte_fails() {
    let body = notification_body(&alarm_message("\"OK\"", "\"ALARM\"", "300"));
    assert_eq!(AlarmDetails::from_str(&body).is_ok(), false);
}

#[test]
fn test_alarm_missing_trigger_field_fails() {
    let message = "{\"AlarmName\":\"a\",\"AlarmDescription\":\"d\",\"NewStateValue\":\"OK\",\"NewStateReason\":\"r\",\"StateChangeTime\":\"t\",\"OldStateValue\":\"ALARM\"}";
    let body = notification_body(message);
    assert_eq!(AlarmDetails::from_str(&body).is_ok(), false);
}

#[test]
fn test_alarm_dimensions_preserve_source_order() {
    let message = "{\"AlarmName\":\"a\",\"AlarmDescription\":\"d\",\"NewStateValue\":\"OK\",\"NewStateReason\":\"r\",\"StateChangeTime\":\"t\",\"OldStateValue\":\"INSUFFICIENT_DATA\",\"Trigger\":{\"MetricName\":\"m\",\"Namespace\":\"n\",\"Statistic\":\"s\",\"Dimensions\":[{\"name\":\"b\",\"value\":\"2\"},{\"name\":\"a\",\"value\":\"1\"}],\"ComparisonOperator\":\"c\",\"Period\":60,\"EvaluationPeriods\":5,\"Threshold\":0.5}}";
    let body = notification_body(message);
    let details = AlarmDetails::from_str(&body).unwrap();
    assert_eq!(details.previous_state, AlarmState::InsufficientData);
    assert_eq!(details.trigger.dimensions.len(), 2);
    assert_eq!(details.trigger.dimensions[0].name, "b");
    assert_eq!(details.trigger.dimensions[0].value, "2");
    assert_eq!(details.trigger.dimensions[1].name, "a");
    assert_eq!(details.trigger.dimensions[1].value, "1");
    assert_eq!(details.trigger.threshold, "0.5");
}
