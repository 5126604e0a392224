//! Notifications to principals.

use vstd::prelude::*;
use crate::text::{contains_text, has_infix, lowercase, lowercased};

verus! {

/// The keys of a push subscription.
#[derive(Debug, Clone, PartialEq, Eq)]
pub struct PushKeys {
    pub p256dh: String,
    pub auth: String,
}

/// The mathematical value of a `PushKeys`.
pub struct PushKeysModel {
    pub p256dh: Seq<char>,
    pub auth: Seq<char>,
}

impl DeepView for PushKeys {
    type V = PushKeysModel;

    open spec fn deep_view(&self) -> PushKeysModel {
        PushKeysModel {
            p256dh: self.p256dh@,
            auth: self.auth@,
        }
    }
}

/// A push subscription as a browser reports it.
#[derive(Debug, Clone, PartialEq, Eq)]
pub struct PushSubscriptionPayload {
    pub endpoint: String,
    pub keys: PushKeys,
}

/// The mathematical value of a `PushSubscriptionPayload`.
pub struct PushSubscriptionPayloadModel {
    pub endpoint: Seq<char>,
    pub keys: PushKeysModel,
}

impl DeepView for PushSubscriptionPayload {
    type V = PushSubscriptionPayloadModel;

    open spec fn deep_view(&self) -> PushSubscriptionPayloadModel {
        PushSubscriptionPayloadModel {
            endpoint: self.endpoint@,
            keys: self.keys.deep_view(),
        }
    }
}

/// The kind of a notification.
#[derive(Debug, Clone, Copy, PartialEq, Eq, Structural)]
pub enum NotificationType {
    Info,
    Success,
    Warning,
    Error,
}

impl NotificationType {
    /// The name under which the store keeps the kind.
    pub open spec fn name(self) -> Seq<char> {
        match self {
            NotificationType::Info => "info"@,
            NotificationType::Success => "success"@,
            NotificationType::Warning => "warning"@,
            NotificationType::Error => "error"@,
        }
    }

    /// The stored name of the kind.
    pub fn as_str(&self) -> (r: &'static str)
        ensures
            r@ == self.name(),
    {
        match self {
            NotificationType::Info => "info",
            NotificationType::Success => "success",
            NotificationType::Warning => "warning",
            NotificationType::Error => "error",
        }
    }
}

/// Whether a failure that reads `lowered`, in lower case, says that the
/// subscription is of no use any more: the endpoint is not found or gone,
/// or it refuses the request as unauthorized or bad.
pub open spec fn names_dead_endpoint(lowered: Seq<char>) -> bool {
    ||| has_infix(lowered, "not found"@)
    ||| has_infix(lowered, "gone"@)
    ||| has_infix(lowered, "unauthorized"@)
    ||| has_infix(lowered, "bad request"@)
    ||| has_infix(lowered, "badrequest"@)
    ||| has_infix(lowered, "404"@)
    ||| has_infix(lowered, "410"@)
    ||| has_infix(lowered, "401"@)
    ||| has_infix(lowered, "400"@)
}

/// Judges the description of a failed push, given in lower case.
pub fn is_dead_endpoint(lowered: &str) -> (r: bool)
    ensures
        r == names_dead_endpoint(lowered@),
{
    contains_text(lowered, "not found") || contains_text(lowered, "gone") || contains_text(lowered, "unauthorized") || contains_text(lowered, "bad request") || contains_text(lowered, "badrequest") || contains_text(lowered, "404") || contains_text(lowered, "410") || contains_text(lowered, "401") || contains_text(lowered, "400")
}

/// Whether the subscription is to be removed after a push failed with the
/// description `failure`.
pub fn should_remove_subscription(failure: &str) -> (r: bool)
    ensures
        r == names_dead_endpoint(lowercased(failure@)),
{
    let lowered = lowercase(failure);
    is_dead_endpoint(lowered.as_str())
}

} // verus!
