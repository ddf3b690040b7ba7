//! The request-level flow: the classifier selects a path from the
//! message-type header, the matching envelope decode runs, and the result is
//! an action for the surrounding server — confirm a subscription, forward an
//! alarm, or ignore the delivery. All I/O stays with the caller.
use vstd::prelude::*;

use crate::errors::CloudwatchNotifierError;
use crate::notification::AlarmDetails;
use crate::notification::alarm_from_body;
use crate::registry::MessageType;
use crate::registry::classify;
use crate::registry::message_type_table;
use crate::registry::pairs_view;
use crate::registry::tag_lookup;
use crate::subscription::SubscriptionConfirmation;
use crate::subscription::sub_from_body;

verus! {

/// What the server should do with a classified, decoded delivery.
#[derive(Debug)]
pub enum SnsAction {
    Confirm(SubscriptionConfirmation),
    Forward(AlarmDetails),
    Ignore,
}

/// Classifies a delivery by its message-type header and decodes the matching
/// envelope shape. Unsubscribe confirmations are acknowledged and ignored.
pub fn dispatch(header_value: Option<&str>, body: &str) -> (r: Result<
    SnsAction,
    CloudwatchNotifierError,
>)
    ensures
        match header_value {
            None => r matches Err(CloudwatchNotifierError::EnumParse(e)) && e.value@
                == Seq::<char>::empty() && pairs_view(e.mapping@) == message_type_table(),
            Some(h) => match tag_lookup(message_type_table(), h@) {
                None => r matches Err(CloudwatchNotifierError::EnumParse(e)) && e.value@ == h@
                    && pairs_view(e.mapping@) == message_type_table(),
                Some(MessageType::SubscriptionConfirmation) => match sub_from_body(body@) {
                    Some(sv) => r matches Ok(SnsAction::Confirm(sub)) && sub@ == sv,
                    None => r matches Err(CloudwatchNotifierError::Json(_)),
                },
                Some(MessageType::Notification) => match alarm_from_body(body@) {
                    Some(av) => r matches Ok(SnsAction::Forward(a)) && a@ == av,
                    None => r matches Err(CloudwatchNotifierError::Json(_)),
                },
                Some(MessageType::UnsubscribeConfirmation) => r matches Ok(SnsAction::Ignore),
            },
        },
{
    let msg_type = match classify(header_value) {
        Ok(m) => m,
        Err(e) => {
            return Err(CloudwatchNotifierError::EnumParse(e));
        },
    };
    match msg_type {
        MessageType::SubscriptionConfirmation => {
            let sub = SubscriptionConfirmation::parse(body)?;
            Ok(SnsAction::Confirm(sub))
        },
        MessageType::Notification => {
            let details = AlarmDetails::from_str(body)?;
            Ok(SnsAction::Forward(details))
        },
        MessageType::UnsubscribeConfirmation => Ok(SnsAction::Ignore),
    }
}

/// The liveness probe's answer.
pub fn health_check_route() -> (r: &'static str)
    ensures
        r@ == "OK"@,
{
    "OK"
}

/// Where a decoded alarm should be forwarded.
#[derive(Debug, Clone)]
pub struct Options {
    pub slack: Option<String>,
}

/// Hands a decoded alarm to the configured chat channel, if any.
pub fn send_notification(options: Options, notification: AlarmDetails) -> (r: Result<
    (),
    CloudwatchNotifierError,
>)
    ensures
        r is Ok,
{
    if let Some(channel) = options.slack {
        send_to_slack(channel, notification);
    }
    Ok(())
}

/// The chat sink. Posting to the chat system is an external collaborator's
/// job; this core hands the decoded alarm over and promises nothing further.
#[allow(unused_variables)]
pub fn send_to_slack(channel: String, notification: AlarmDetails) {
}

} // verus!
