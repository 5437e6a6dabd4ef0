//! The responses that carry an error.
//!
//! An [`ActionErrorResponse`] is the response to one failed action. It is
//! tagged with the action and carries the error, the time, and the
//! identifiers that the action's own response would carry. Its view is the
//! document that goes over the wire.

use crate::api_error::{internal_server_error, ActionError, ErrorView};
use crate::api_type::{ReqID, SubscriptionID};
use crate::clock::unix_timestamp_ms;
use crate::status::StatusCode;
use vstd::prelude::*;

verus! {

/// What a response says: the document that goes over the wire.
pub struct ResponseView {
    /// The member `action`: the tag of the action that failed.
    pub action: Seq<char>,
    /// The member `requestId`. The document has none where this is `None`.
    pub request_id: Option<ReqID>,
    /// The member `subscriptionId`. The document has none where this is
    /// `None`.
    pub subscription_id: Option<SubscriptionID>,
    /// The member `error`.
    pub error: ErrorView,
    /// The member `timestamp`: milliseconds since the Unix epoch.
    pub timestamp: nat,
}

/// The response to a failed action, with one variant for each action.
#[derive(Copy, Clone, PartialEq, Eq, Debug)]
pub enum ActionErrorResponse {
    /// The response to a failed request to authorize.
    Authorize { request_id: ReqID, error: ActionError, timestamp: u128 },
    /// The response to a failed request for metadata.
    GetMetadata { request_id: ReqID, error: ActionError, timestamp: u128 },
    /// The response to a failed request to get a value.
    Get { request_id: ReqID, error: ActionError, timestamp: u128 },
    /// The response to a failed request to set a value.
    SetValue { request_id: ReqID, error: ActionError, timestamp: u128 },
    /// The response to a failed request to subscribe.
    Subscribe { request_id: ReqID, error: ActionError, timestamp: u128 },
    /// The response to a failed subscription.
    Subscription { request_id: ReqID, error: ActionError, timestamp: u128 },
    /// A notification of a subscription that carries an error. It answers no
    /// request, and is the only response without a request identifier.
    SubscriptionNotification { error: ActionError, timestamp: u128, subscription_id: SubscriptionID },
    /// The response to a failed request to end a subscription.
    Unsubscribe {
        request_id: ReqID,
        error: ActionError,
        timestamp: u128,
        subscription_id: SubscriptionID,
    },
    /// The response to a failed request to end all subscriptions.
    UnsubscribeAll { request_id: ReqID, error: ActionError, timestamp: u128 },
}

impl View for ActionErrorResponse {
    type V = ResponseView;

    open spec fn view(&self) -> ResponseView {
        ResponseView {
            action: self.spec_action(),
            request_id: self.spec_request_id(),
            subscription_id: self.spec_subscription_id(),
            error: self.spec_error()@,
            timestamp: self.spec_timestamp() as nat,
        }
    }
}

impl ActionErrorResponse {
    /// The tag of the action that failed, as it stands on the wire.
    pub open spec fn spec_action(self) -> Seq<char> {
        match self {
            ActionErrorResponse::Authorize { .. } => "authorize"@,
            ActionErrorResponse::GetMetadata { .. } => "getMetadata"@,
            ActionErrorResponse::Get { .. } => "get"@,
            ActionErrorResponse::SetValue { .. } => "set"@,
            ActionErrorResponse::Subscribe { .. } => "subscribe"@,
            ActionErrorResponse::Subscription { .. } => "subscription"@,
            ActionErrorResponse::SubscriptionNotification { .. } => "subscriptionNotification"@,
            ActionErrorResponse::Unsubscribe { .. } => "unsubscribe"@,
            ActionErrorResponse::UnsubscribeAll { .. } => "unsubscribeAll"@,
        }
    }

    /// The identifier of the request that failed, where there was a request.
    pub open spec fn spec_request_id(self) -> Option<ReqID> {
        match self {
            ActionErrorResponse::Authorize { request_id, .. }
            | ActionErrorResponse::GetMetadata { request_id, .. }
            | ActionErrorResponse::Get { request_id, .. }
            | ActionErrorResponse::SetValue { request_id, .. }
            | ActionErrorResponse::Subscribe { request_id, .. }
            | ActionErrorResponse::Subscription { request_id, .. }
            | ActionErrorResponse::Unsubscribe { request_id, .. }
            | ActionErrorResponse::UnsubscribeAll { request_id, .. } => Some(request_id),
            ActionErrorResponse::SubscriptionNotification { .. } => None,
        }
    }

    /// The identifier of the subscription, where the response names one.
    pub open spec fn spec_subscription_id(self) -> Option<SubscriptionID> {
        match self {
            ActionErrorResponse::SubscriptionNotification { subscription_id, .. }
            | ActionErrorResponse::Unsubscribe { subscription_id, .. } => Some(subscription_id),
            ActionErrorResponse::Authorize { .. }
            | ActionErrorResponse::GetMetadata { .. }
            | ActionErrorResponse::Get { .. }
            | ActionErrorResponse::SetValue { .. }
            | ActionErrorResponse::Subscribe { .. }
            | ActionErrorResponse::Subscription { .. }
            | ActionErrorResponse::UnsubscribeAll { .. } => None,
        }
    }

    /// The error that the response carries.
    pub open spec fn spec_error(self) -> ActionError {
        match self {
            ActionErrorResponse::Authorize { error, .. }
            | ActionErrorResponse::GetMetadata { error, .. }
            | ActionErrorResponse::Get { error, .. }
            | ActionErrorResponse::SetValue { error, .. }
            | ActionErrorResponse::Subscribe { error, .. }
            | ActionErrorResponse::Subscription { error, .. }
            | ActionErrorResponse::SubscriptionNotification { error, .. }
            | ActionErrorResponse::Unsubscribe { error, .. }
            | ActionErrorResponse::UnsubscribeAll { error, .. } => error,
        }
    }

    /// The time of the response in milliseconds since the Unix epoch.
    pub open spec fn spec_timestamp(self) -> u128 {
        match self {
            ActionErrorResponse::Authorize { timestamp, .. }
            | ActionErrorResponse::GetMetadata { timestamp, .. }
            | ActionErrorResponse::Get { timestamp, .. }
            | ActionErrorResponse::SetValue { timestamp, .. }
            | ActionErrorResponse::Subscribe { timestamp, .. }
            | ActionErrorResponse::Subscription { timestamp, .. }
            | ActionErrorResponse::SubscriptionNotification { timestamp, .. }
            | ActionErrorResponse::Unsubscribe { timestamp, .. }
            | ActionErrorResponse::UnsubscribeAll { timestamp, .. } => timestamp,
        }
    }

    /// The tag of the action that failed, as it stands on the wire.
    pub fn action(&self) -> (action: &'static str)
        ensures
            action@ == self@.action,
    {
        match self {
            ActionErrorResponse::Authorize { .. } => "authorize",
            ActionErrorResponse::GetMetadata { .. } => "getMetadata",
            ActionErrorResponse::Get { .. } => "get",
            ActionErrorResponse::SetValue { .. } => "set",
            ActionErrorResponse::Subscribe { .. } => "subscribe",
            ActionErrorResponse::Subscription { .. } => "subscription",
            ActionErrorResponse::SubscriptionNotification { .. } => "subscriptionNotification",
            ActionErrorResponse::Unsubscribe { .. } => "unsubscribe",
            ActionErrorResponse::UnsubscribeAll { .. } => "unsubscribeAll",
        }
    }

    /// The identifier of the request that failed. Only a notification of a
    /// subscription has none.
    pub fn request_id(&self) -> (request_id: Option<ReqID>)
        ensures
            request_id == self@.request_id,
            request_id is None <==> self is SubscriptionNotification,
    {
        match self {
            ActionErrorResponse::Authorize { request_id, .. }
            | ActionErrorResponse::GetMetadata { request_id, .. }
            | ActionErrorResponse::Get { request_id, .. }
            | ActionErrorResponse::SetValue { request_id, .. }
            | ActionErrorResponse::Subscribe { request_id, .. }
            | ActionErrorResponse::Subscription { request_id, .. }
            | ActionErrorResponse::Unsubscribe { request_id, .. }
            | ActionErrorResponse::UnsubscribeAll { request_id, .. } => Some(*request_id),
            ActionErrorResponse::SubscriptionNotification { .. } => None,
        }
    }

    /// The identifier of the subscription. Only the response to a failed
    /// request to end a subscription and a notification of a subscription
    /// have one.
    pub fn subscription_id(&self) -> (subscription_id: Option<SubscriptionID>)
        ensures
            subscription_id == self@.subscription_id,
            subscription_id is Some <==> self is Unsubscribe || self is SubscriptionNotification,
    {
        match self {
            ActionErrorResponse::SubscriptionNotification { subscription_id, .. }
            | ActionErrorResponse::Unsubscribe { subscription_id, .. } => Some(*subscription_id),
            ActionErrorResponse::Authorize { .. }
            | ActionErrorResponse::GetMetadata { .. }
            | ActionErrorResponse::Get { .. }
            | ActionErrorResponse::SetValue { .. }
            | ActionErrorResponse::Subscribe { .. }
            | ActionErrorResponse::Subscription { .. }
            | ActionErrorResponse::UnsubscribeAll { .. } => None,
        }
    }

    /// The error that the response carries.
    pub fn error(&self) -> (error: ActionError)
        ensures
            error == self.spec_error(),
            error@ == self@.error,
    {
        match self {
            ActionErrorResponse::Authorize { error, .. }
            | ActionErrorResponse::GetMetadata { error, .. }
            | ActionErrorResponse::Get { error, .. }
            | ActionErrorResponse::SetValue { error, .. }
            | ActionErrorResponse::Subscribe { error, .. }
            | ActionErrorResponse::Subscription { error, .. }
            | ActionErrorResponse::SubscriptionNotification { error, .. }
            | ActionErrorResponse::Unsubscribe { error, .. }
            | ActionErrorResponse::UnsubscribeAll { error, .. } => *error,
        }
    }

    /// The time of the response in milliseconds since the Unix epoch.
    pub fn timestamp(&self) -> (timestamp: u128)
        ensures
            timestamp == self.spec_timestamp(),
            timestamp == self@.timestamp,
    {
        match self {
            ActionErrorResponse::Authorize { timestamp, .. }
            | ActionErrorResponse::GetMetadata { timestamp, .. }
            | ActionErrorResponse::Get { timestamp, .. }
            | ActionErrorResponse::SetValue { timestamp, .. }
            | ActionErrorResponse::Subscribe { timestamp, .. }
            | ActionErrorResponse::Subscription { timestamp, .. }
            | ActionErrorResponse::SubscriptionNotification { timestamp, .. }
            | ActionErrorResponse::Unsubscribe { timestamp, .. }
            | ActionErrorResponse::UnsubscribeAll { timestamp, .. } => *timestamp,
        }
    }
}

/// What the response to a failed request says: the tag of the action, the
/// identifier of the request, the error and the time. It names no
/// subscription.
pub open spec fn request_response(
    action: Seq<char>,
    request_id: ReqID,
    error: ErrorView,
    timestamp: u128,
) -> ResponseView {
    ResponseView {
        action,
        request_id: Some(request_id),
        subscription_id: None,
        error,
        timestamp: timestamp as nat,
    }
}

/// What the response to a failed request to end a subscription says: as
/// [`request_response`], and the identifier of the subscription.
pub open spec fn unsubscribe_response(
    request_id: ReqID,
    subscription_id: SubscriptionID,
    error: ErrorView,
    timestamp: u128,
) -> ResponseView {
    ResponseView {
        action: "unsubscribe"@,
        request_id: Some(request_id),
        subscription_id: Some(subscription_id),
        error,
        timestamp: timestamp as nat,
    }
}

/// The response to a failed request to get a value, stamped with the current
/// time.
pub fn new_get_error(request_id: ReqID, error: ActionError) -> (response: ActionErrorResponse)
    ensures
        response == (ActionErrorResponse::Get {
            request_id,
            error,
            timestamp: response.spec_timestamp(),
        }),
        response@ == request_response("get"@, request_id, error@, response.spec_timestamp()),
{
    new_get_error_at(request_id, error, unix_timestamp_ms())
}

/// The response to a failed request to get a value, stamped with the time
/// `timestamp`.
pub fn new_get_error_at(request_id: ReqID, error: ActionError, timestamp: u128) -> (response:
    ActionErrorResponse)
    ensures
        response == (ActionErrorResponse::Get { request_id, error, timestamp }),
        response@ == request_response("get"@, request_id, error@, timestamp),
{
    ActionErrorResponse::Get { request_id, error, timestamp }
}

/// The response to a failed request to set a value, stamped with the current
/// time.
pub fn new_set_error(request_id: ReqID, error: ActionError) -> (response: ActionErrorResponse)
    ensures
        response == (ActionErrorResponse::SetValue {
            request_id,
            error,
            timestamp: response.spec_timestamp(),
        }),
        response@ == request_response("set"@, request_id, error@, response.spec_timestamp()),
{
    new_set_error_at(request_id, error, unix_timestamp_ms())
}

/// The response to a failed request to set a value, stamped with the time
/// `timestamp`.
pub fn new_set_error_at(request_id: ReqID, error: ActionError, timestamp: u128) -> (response:
    ActionErrorResponse)
    ensures
        response == (ActionErrorResponse::SetValue { request_id, error, timestamp }),
        response@ == request_response("set"@, request_id, error@, timestamp),
{
    ActionErrorResponse::SetValue { request_id, error, timestamp }
}

/// The response to a failed request to subscribe, stamped with the current
/// time.
pub fn new_subscribe_error(request_id: ReqID, error: ActionError) -> (response:
    ActionErrorResponse)
    ensures
        response == (ActionErrorResponse::Subscribe {
            request_id,
            error,
            timestamp: response.spec_timestamp(),
        }),
        response@ == request_response(
            "subscribe"@,
            request_id,
            error@,
            response.spec_timestamp(),
        ),
{
    new_subscribe_error_at(request_id, error, unix_timestamp_ms())
}

/// The response to a failed request to subscribe, stamped with the time
/// `timestamp`.
pub fn new_subscribe_error_at(request_id: ReqID, error: ActionError, timestamp: u128) -> (response:
    ActionErrorResponse)
    ensures
        response == (ActionErrorResponse::Subscribe { request_id, error, timestamp }),
        response@ == request_response("subscribe"@, request_id, error@, timestamp),
{
    ActionErrorResponse::Subscribe { request_id, error, timestamp }
}

/// The response to a failed request to end the subscription
/// `subscription_id`, stamped with the current time.
pub fn new_unsubscribe_error(
    request_id: ReqID,
    subscription_id: SubscriptionID,
    error: ActionError,
) -> (response: ActionErrorResponse)
    ensures
        response == (ActionErrorResponse::Unsubscribe {
            request_id,
            subscription_id,
            error,
            timestamp: response.spec_timestamp(),
        }),
        response@ == unsubscribe_response(
            request_id,
            subscription_id,
            error@,
            response.spec_timestamp(),
        ),
{
    new_unsubscribe_error_at(request_id, subscription_id, error, unix_timestamp_ms())
}

/// The response to a failed request to end the subscription
/// `subscription_id`, stamped with the time `timestamp`.
pub fn new_unsubscribe_error_at(
    request_id: ReqID,
    subscription_id: SubscriptionID,
    error: ActionError,
    timestamp: u128,
) -> (response: ActionErrorResponse)
    ensures
        response == (ActionErrorResponse::Unsubscribe {
            request_id,
            subscription_id,
            error,
            timestamp,
        }),
        response@ == unsubscribe_response(request_id, subscription_id, error@, timestamp),
{
    ActionErrorResponse::Unsubscribe { request_id, subscription_id, error, timestamp }
}

/// The response to a failed request to end all subscriptions, stamped with
/// the current time.
pub fn new_unsubscribe_all_error(request_id: ReqID, error: ActionError) -> (response:
    ActionErrorResponse)
    ensures
        response == (ActionErrorResponse::UnsubscribeAll {
            request_id,
            error,
            timestamp: response.spec_timestamp(),
        }),
        response@ == request_response(
            "unsubscribeAll"@,
            request_id,
            error@,
            response.spec_timestamp(),
        ),
{
    new_unsubscribe_all_error_at(request_id, error, unix_timestamp_ms())
}

/// The response to a failed request to end all subscriptions, stamped with
/// the time `timestamp`.
pub fn new_unsubscribe_all_error_at(
    request_id: ReqID,
    error: ActionError,
    timestamp: u128,
) -> (response: ActionErrorResponse)
    ensures
        response == (ActionErrorResponse::UnsubscribeAll { request_id, error, timestamp }),
        response@ == request_response("unsubscribeAll"@, request_id, error@, timestamp),
{
    ActionErrorResponse::UnsubscribeAll { request_id, error, timestamp }
}

/// The response to a failed request for metadata, stamped with the current
/// time.
pub fn new_get_metadata_error(request_id: ReqID, error: ActionError) -> (response:
    ActionErrorResponse)
    ensures
        response == (ActionErrorResponse::GetMetadata {
            request_id,
            error,
            timestamp: response.spec_timestamp(),
        }),
        response@ == request_response(
            "getMetadata"@,
            request_id,
            error@,
            response.spec_timestamp(),
        ),
{
    new_get_metadata_error_at(request_id, error, unix_timestamp_ms())
}

/// The response to a failed request for metadata, stamped with the time
/// `timestamp`.
pub fn new_get_metadata_error_at(
    request_id: ReqID,
    error: ActionError,
    timestamp: u128,
) -> (response: ActionErrorResponse)
    ensures
        response == (ActionErrorResponse::GetMetadata { request_id, error, timestamp }),
        response@ == request_response("getMetadata"@, request_id, error@, timestamp),
{
    ActionErrorResponse::GetMetadata { request_id, error, timestamp }
}

/// The response to a failed request to authorize, stamped with the current
/// time.
pub fn new_authorize_error(request_id: ReqID, error: ActionError) -> (response:
    ActionErrorResponse)
    ensures
        response == (ActionErrorResponse::Authorize {
            request_id,
            error,
            timestamp: response.spec_timestamp(),
        }),
        response@ == request_response(
            "authorize"@,
            request_id,
            error@,
            response.spec_timestamp(),
        ),
{
    new_authorize_error_at(request_id, error, unix_timestamp_ms())
}

/// The response to a failed request to authorize, stamped with the time
/// `timestamp`.
pub fn new_authorize_error_at(request_id: ReqID, error: ActionError, timestamp: u128) -> (response:
    ActionErrorResponse)
    ensures
        response == (ActionErrorResponse::Authorize { request_id, error, timestamp }),
        response@ == request_response("authorize"@, request_id, error@, timestamp),
{
    ActionErrorResponse::Authorize { request_id, error, timestamp }
}

/// The identifier under which a failure of input or output is reported: it
/// names no subscription.
pub open spec fn no_subscription() -> SubscriptionID {
    SubscriptionID::SubscriptionIDInt(0)
}

/// What the response for a failure of input or output says at the time
/// `timestamp`.
pub open spec fn io_error_response(timestamp: u128) -> ResponseView {
    ResponseView {
        action: "subscriptionNotification"@,
        request_id: None,
        subscription_id: Some(no_subscription()),
        error: internal_server_error(),
        timestamp: timestamp as nat,
    }
}

/// The response for a failure of input or output, stamped with the time
/// `timestamp`.
///
/// It is a notification of a subscription, whatever action failed, and an
/// internal server error. Its subscription identifier is 0: that marks the
/// response as this fallback and names no subscription.
pub fn new_io_error_response_at(timestamp: u128) -> (response: ActionErrorResponse)
    ensures
        response is SubscriptionNotification,
        response@ == io_error_response(timestamp),
{
    let error = ActionError::from(StatusCode::internal_server_error());
    ActionErrorResponse::SubscriptionNotification {
        error,
        timestamp,
        subscription_id: SubscriptionID::SubscriptionIDInt(0),
    }
}

/// What `from` returns depends on the clock. It is stated in the `ensures`
/// of `from`: no spec function gives the response itself.
impl vstd::std_specs::convert::FromSpecImpl<std::io::Error> for ActionErrorResponse {
    open spec fn obeys_from_spec() -> bool {
        false
    }

    open spec fn from_spec(error: std::io::Error) -> ActionErrorResponse {
        arbitrary()
    }
}

impl From<std::io::Error> for ActionErrorResponse {
    /// The response for a failure of input or output, stamped with the
    /// current time: see [`new_io_error_response_at`]. Nothing of the failure
    /// reaches the response.
    fn from(_error: std::io::Error) -> (response: ActionErrorResponse)
        ensures
            response is SubscriptionNotification,
            response@ == io_error_response(response.spec_timestamp()),
    {
        new_io_error_response_at(unix_timestamp_ms())
    }
}

/// A response names a subscription if and only if it answers a request to end
/// a subscription or is a notification of one, and the tag on the wire tells
/// which. Every response but a notification names the request that it
/// answers.
pub proof fn lemma_identifiers_follow_action(response: ActionErrorResponse)
    ensures
        response@.subscription_id is Some <==> response is Unsubscribe
            || response is SubscriptionNotification,
        response@.subscription_id is Some <==> response@.action == "unsubscribe"@
            || response@.action == "subscriptionNotification"@,
        response@.request_id is None <==> response is SubscriptionNotification,
        response@.request_id is None <==> response@.action == "subscriptionNotification"@,
{
    lemma_action_mark(response);
    reveal_strlit("unsubscribe");
    reveal_strlit("subscriptionNotification");
}

/// The length of a tag and its first character.
spec fn tag_mark(tag: Seq<char>) -> (nat, char) {
    (tag.len(), tag[0])
}

/// The mark of each variant's tag.
spec fn variant_mark(response: ActionErrorResponse) -> (nat, char) {
    match response {
        ActionErrorResponse::Authorize { .. } => (9, 'a'),
        ActionErrorResponse::GetMetadata { .. } => (11, 'g'),
        ActionErrorResponse::Get { .. } => (3, 'g'),
        ActionErrorResponse::SetValue { .. } => (3, 's'),
        ActionErrorResponse::Subscribe { .. } => (9, 's'),
        ActionErrorResponse::Subscription { .. } => (12, 's'),
        ActionErrorResponse::SubscriptionNotification { .. } => (24, 's'),
        ActionErrorResponse::Unsubscribe { .. } => (11, 'u'),
        ActionErrorResponse::UnsubscribeAll { .. } => (14, 'u'),
    }
}

proof fn lemma_action_mark(response: ActionErrorResponse)
    ensures
        tag_mark(response@.action) == variant_mark(response),
{
    reveal_strlit("authorize");
    reveal_strlit("getMetadata");
    reveal_strlit("get");
    reveal_strlit("set");
    reveal_strlit("subscribe");
    reveal_strlit("subscription");
    reveal_strlit("subscriptionNotification");
    reveal_strlit("unsubscribe");
    reveal_strlit("unsubscribeAll");
}

/// The tag tells the variant: two responses with the same tag are of the same
/// variant.
pub proof fn lemma_action_identifies_variant(a: ActionErrorResponse, b: ActionErrorResponse)
    requires
        a@.action == b@.action,
    ensures
        a is Authorize <==> b is Authorize,
        a is GetMetadata <==> b is GetMetadata,
        a is Get <==> b is Get,
        a is SetValue <==> b is SetValue,
        a is Subscribe <==> b is Subscribe,
        a is Subscription <==> b is Subscription,
        a is SubscriptionNotification <==> b is SubscriptionNotification,
        a is Unsubscribe <==> b is Unsubscribe,
        a is UnsubscribeAll <==> b is UnsubscribeAll,
{
    // No two variants have tags of the same mark.
    lemma_action_mark(a);
    lemma_action_mark(b);
}

} // verus!
