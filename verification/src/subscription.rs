//! The subscription-confirmation envelope: the outer JSON delivery envelope
//! of a topic-subscription request, decoded in a single pass. Every declared
//! field is required; fields are read verbatim.
use vstd::prelude::*;

use crate::errors::CloudwatchNotifierError;
use crate::errors::JsonError;
use crate::json::JsonSpecValue;
use crate::json::JsonValue;
use crate::json::deep_view_obj;
use crate::json::get_string_field;
use crate::json::json_of;
use crate::json::parse_json;
use crate::json::str_field;

verus! {

/// A decoded subscription-confirmation envelope: the topic identifier, the
/// callback URL to fetch, and the delivery timestamp (retained, not
/// validated).
#[derive(Debug, Clone)]
pub struct SubscriptionConfirmation {
    pub topic_arn: String,
    pub subscribe_url: String,
    pub timestamp: String,
}

pub struct SubscriptionConfirmationView {
    pub topic_arn: Seq<char>,
    pub subscribe_url: Seq<char>,
    pub timestamp: Seq<char>,
}

impl View for SubscriptionConfirmation {
    type V = SubscriptionConfirmationView;

    open spec fn view(&self) -> SubscriptionConfirmationView {
        SubscriptionConfirmationView {
            topic_arn: self.topic_arn@,
            subscribe_url: self.subscribe_url@,
            timestamp: self.timestamp@,
        }
    }
}

/// The subscription envelope denoted by a JSON document: defined exactly when
/// the document is an object whose "TopicArn", "SubscribeURL" and "Timestamp"
/// fields are all present and are strings.
pub open spec fn sub_of(j: JsonSpecValue) -> Option<SubscriptionConfirmationView> {
    match j {
        JsonSpecValue::Obj(f) => match (str_field(f, "TopicArn"@), str_field(f, "SubscribeURL"@), str_field(f, "Timestamp"@)) {
            (Some(t), Some(u), Some(ts)) => Some(
                SubscriptionConfirmationView { topic_arn: t, subscribe_url: u, timestamp: ts },
            ),
            _ => None,
        },
        _ => None,
    }
}

/// The subscription envelope denoted by a request body.
pub open spec fn sub_from_body(s: Seq<char>) -> Option<SubscriptionConfirmationView> {
    match json_of(s) {
        Some(j) => sub_of(j),
        None => None,
    }
}

/// Reads a subscription envelope out of a decoded JSON document.
pub fn extract_subscription(v: &JsonValue) -> (r: Result<SubscriptionConfirmation, JsonError>)
    ensures
        (r is Ok) == (sub_of(v.deep_view()) is Some),
        r matches Ok(sub) ==> Some(sub@) == sub_of(v.deep_view()),
{
    match v {
        JsonValue::Object(fields) => {
            let topic_arn = get_string_field(fields, "TopicArn")?;
            let subscribe_url = get_string_field(fields, "SubscribeURL")?;
            let timestamp = get_string_field(fields, "Timestamp")?;
            Ok(SubscriptionConfirmation { topic_arn, subscribe_url, timestamp })
        },
        _ => Err(JsonError { message: String::from_str("expected a JSON object"), path: None }),
    }
}

impl SubscriptionConfirmation {
    /// Decodes a request body as a subscription-confirmation envelope.
    pub fn parse(body: &str) -> (r: Result<SubscriptionConfirmation, CloudwatchNotifierError>)
        ensures
            (r is Ok) == (sub_from_body(body@) is Some),
            r matches Ok(sub) ==> Some(sub@) == sub_from_body(body@),
            r matches Err(e) ==> e matches CloudwatchNotifierError::Json(_),
    {
        match parse_json(body) {
            Ok(v) => match extract_subscription(&v) {
                Ok(sub) => Ok(sub),
                Err(je) => Err(CloudwatchNotifierError::Json(je)),
            },
            Err(m) => Err(CloudwatchNotifierError::Json(JsonError { message: m, path: None })),
        }
    }
}

/// Each declared field of the subscription envelope is required — an object
/// missing one (or holding a non-string there) decodes to nothing — and a
/// successful decode reads the fields verbatim.
pub proof fn lemma_subscription_fields(f: Seq<(Seq<char>, JsonSpecValue)>)
    ensures
        str_field(f, "TopicArn"@) is None ==> sub_of(JsonSpecValue::Obj(f)) is None,
        str_field(f, "SubscribeURL"@) is None ==> sub_of(JsonSpecValue::Obj(f)) is None,
        str_field(f, "Timestamp"@) is None ==> sub_of(JsonSpecValue::Obj(f)) is None,
        sub_of(JsonSpecValue::Obj(f)) matches Some(sv) ==> {
            &&& str_field(f, "TopicArn"@) == Some(sv.topic_arn)
            &&& str_field(f, "SubscribeURL"@) == Some(sv.subscribe_url)
            &&& str_field(f, "Timestamp"@) == Some(sv.timestamp)
        },
{
}

} // verus!
