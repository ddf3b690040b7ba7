//! The subscription confirmer's decision: exactly one GET is issued to the
//! envelope's callback URL (by the caller, which owns the transport), and
//! this module decides what its outcome means. Success is HTTP status 200,
//! strictly: any other status — other 2xx codes included — fails with the
//! callback URL and the observed code, and a transport failure carries the
//! transport's own error.
use vstd::prelude::*;

use crate::errors::CloudwatchNotifierError;
use crate::subscription::SubscriptionConfirmation;

verus! {

/// A failed confirmation handshake: the provider answered with a status
/// other than 200, or the transport failed outright.
#[derive(Debug)]
pub enum SubscriptionConfirmationError {
    BadStatus(String, u16),
    HttpError(String),
}

/// Decides the confirmation handshake from the outcome of the single GET to
/// the envelope's callback URL: `transport` is the observed HTTP status, or
/// the transport's error.
pub fn confirm_subscription(
    sub_confirmation: &SubscriptionConfirmation,
    transport: Result<u16, String>,
) -> (r: Result<(), SubscriptionConfirmationError>)
    ensures
        match transport {
            Ok(status) => if status == 200 {
                r is Ok
            } else {
                r matches Err(SubscriptionConfirmationError::BadStatus(u, c)) && u@
                    == sub_confirmation.subscribe_url@ && c == status
            },
            Err(m) => r matches Err(SubscriptionConfirmationError::HttpError(e)) && e@ == m@,
        },
{
    match transport {
        Ok(status) => {
            if status == 200 {
                Ok(())
            } else {
                Err(
                    SubscriptionConfirmationError::BadStatus(
                        sub_confirmation.subscribe_url.clone(),
                        status,
                    ),
                )
            }
        },
        Err(m) => Err(SubscriptionConfirmationError::HttpError(m)),
    }
}

impl CloudwatchNotifierError {
    /// Maps a confirmation failure into the boundary error model.
    pub fn from_confirmation(e: SubscriptionConfirmationError) -> (r: CloudwatchNotifierError)
        ensures
            match e {
                SubscriptionConfirmationError::BadStatus(u, c) => r matches
                    CloudwatchNotifierError::AutoSubscriptionBadStatus(ru, rc) && ru@ == u@ && rc
                    == c,
                SubscriptionConfirmationError::HttpError(m) => r matches
                    CloudwatchNotifierError::AutoSubscriptionError(rm) && rm@ == m@,
            },
    {
        match e {
            SubscriptionConfirmationError::BadStatus(u, c) => {
                CloudwatchNotifierError::AutoSubscriptionBadStatus(u, c)
            },
            SubscriptionConfirmationError::HttpError(m) => {
                CloudwatchNotifierError::AutoSubscriptionError(m)
            },
        }
    }
}

} // verus!
