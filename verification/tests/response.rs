use std::io;
use std::time::{SystemTime, UNIX_EPOCH};
use vehicle_information_service::api_error::{
    new_authorize_error, new_authorize_error_at, new_get_error, new_get_error_at,
    new_get_metadata_error, new_get_metadata_error_at, new_io_error_response_at, new_set_error,
    new_set_error_at, new_subscribe_error, new_subscribe_error_at, new_unsubscribe_all_error,
    new_unsubscribe_all_error_at, new_unsubscribe_error, new_unsubscribe_error_at, ActionError,
    ActionErrorResponse, NOT_FOUND_INVALID_PATH, NOT_FOUND_INVALID_SUBSCRIPTION_ID,
    UNAUTHORIZED_READ_ONLY, UNAUTHORIZED_USER_TOKEN_EXPIRED,
};
use vehicle_information_service::api_type::{ReqID, SubscriptionID};
use vehicle_information_service::status::StatusCode;

fn now_ms() -> u128 {
    SystemTime::now().duration_since(UNIX_EPOCH).unwrap().as_millis()
}

fn an_error() -> ActionError {
    ActionError::from(NOT_FOUND_INVALID_PATH)
}

fn one_of_each(error: ActionError, timestamp: u128) -> Vec<ActionErrorResponse> {
    let request_id = ReqID::ReqIDInt(1);
    let subscription_id = SubscriptionID::SubscriptionIDInt(2);
    vec![
        ActionErrorResponse::Authorize { request_id, error, timestamp },
        ActionErrorResponse::GetMetadata { request_id, error, timestamp },
        ActionErrorResponse::Get { request_id, error, timestamp },
        ActionErrorResponse::SetValue { request_id, error, timestamp },
        ActionErrorResponse::Subscribe { request_id, error, timestamp },
        ActionErrorResponse::Subscription { request_id, error, timestamp },
        ActionErrorResponse::SubscriptionNotification { error, timestamp, subscription_id },
        ActionErrorResponse::Unsubscribe { request_id, error, timestamp, subscription_id },
        ActionErrorResponse::UnsubscribeAll { request_id, error, timestamp },
    ]
}

#[test]
fn an_expired_user_token_fails_to_authorize() {
    let error: ActionError = UNAUTHORIZED_USER_TOKEN_EXPIRED.into();
    let before = now_ms();
    let response = new_authorize_error(ReqID::ReqIDInt(42), error);
    let after = now_ms();
    assert_eq!(response.action(), "authorize");
    assert_eq!(response.request_id(), Some(ReqID::ReqIDInt(42)));
    assert_eq!(response.subscription_id(), None);
    assert_eq!(response.error().number(), 401);
    assert_eq!(response.error().reason(), "user_token_expired");
    assert_eq!(response.error().message(), "User token has expired.");
    assert!(before <= response.timestamp() && response.timestamp() <= after);
    assert_eq!(
        response,
        ActionErrorResponse::Authorize {
            request_id: ReqID::ReqIDInt(42),
            error,
            timestamp: response.timestamp(),
        }
    );
}

#[test]
fn an_unknown_subscription_fails_to_unsubscribe() {
    let error: ActionError = NOT_FOUND_INVALID_SUBSCRIPTION_ID.into();
    let response =
        new_unsubscribe_error(ReqID::ReqIDInt(7), SubscriptionID::SubscriptionIDInt(99), error);
    assert_eq!(response.action(), "unsubscribe");
    assert_eq!(response.request_id(), Some(ReqID::ReqIDInt(7)));
    assert_eq!(response.subscription_id(), Some(SubscriptionID::SubscriptionIDInt(99)));
    assert_eq!(response.error().number(), 404);
    assert_eq!(response.error().reason(), "invalid_subscriptionId");
    assert_eq!(response.error().message(), "The specified subscription was not found.");
}

#[test]
fn a_failure_of_input_or_output_becomes_a_notification() {
    let failure = io::Error::new(io::ErrorKind::BrokenPipe, "the pipe to the signal source broke");
    let before = now_ms();
    let response = ActionErrorResponse::from(failure);
    let after = now_ms();
    assert_eq!(response.action(), "subscriptionNotification");
    assert_eq!(response.request_id(), None);
    assert_eq!(response.subscription_id(), Some(SubscriptionID::SubscriptionIDInt(0)));
    assert_eq!(response.error().number(), 500);
    assert_eq!(response.error().reason(), "Internal Server Error");
    assert_eq!(response.error().message(), "");
    assert!(before <= response.timestamp() && response.timestamp() <= after);
    assert!(matches!(response, ActionErrorResponse::SubscriptionNotification { .. }));
}

#[test]
fn a_failure_of_input_or_output_at_a_given_time() {
    let response = new_io_error_response_at(1_700_000_000_000);
    assert_eq!(
        response,
        ActionErrorResponse::SubscriptionNotification {
            error: ActionError::new(StatusCode::internal_server_error(), ""),
            timestamp: 1_700_000_000_000,
            subscription_id: SubscriptionID::SubscriptionIDInt(0),
        }
    );
    let through_into: ActionErrorResponse = io::Error::from(io::ErrorKind::NotFound).into();
    assert_eq!(through_into.error(), response.error());
    assert_eq!(through_into.subscription_id(), response.subscription_id());
}

#[test]
fn a_failure_of_input_or_output_is_an_internal_server_error() {
    let kinds = [
        io::ErrorKind::NotFound,
        io::ErrorKind::PermissionDenied,
        io::ErrorKind::ConnectionReset,
        io::ErrorKind::UnexpectedEof,
        io::ErrorKind::Other,
    ];
    for kind in kinds {
        let error = ActionError::from(io::Error::new(kind, "secret detail of the failure"));
        assert_eq!(error.number(), 500);
        assert_eq!(error.reason(), "Internal Server Error");
        assert_eq!(error.message(), "");
        assert_eq!(error, ActionError::new(StatusCode::internal_server_error(), ""));
    }
    let through_into: ActionError = io::Error::from(io::ErrorKind::TimedOut).into();
    assert_eq!(through_into.number(), 500);
    assert_eq!(through_into.message(), "");
}

#[test]
fn nothing_of_the_failure_reaches_the_response() {
    let failure = io::Error::new(io::ErrorKind::Other, "secret detail of the failure");
    let response = ActionErrorResponse::from(failure);
    let shown = format!("{:?}", response);
    assert!(!shown.contains("secret"));
    assert!(!response.error().reason().contains("secret"));
    assert!(!response.error().message().contains("secret"));
}

#[test]
fn each_constructor_tags_its_action() {
    let error = an_error();
    let request_id = ReqID::ReqIDInt(3);
    let subscription_id = SubscriptionID::SubscriptionIDInt(4);
    assert_eq!(new_get_error(request_id, error).action(), "get");
    assert_eq!(new_set_error(request_id, error).action(), "set");
    assert_eq!(new_subscribe_error(request_id, error).action(), "subscribe");
    assert_eq!(new_unsubscribe_error(request_id, subscription_id, error).action(), "unsubscribe");
    assert_eq!(new_unsubscribe_all_error(request_id, error).action(), "unsubscribeAll");
    assert_eq!(new_get_metadata_error(request_id, error).action(), "getMetadata");
    assert_eq!(new_authorize_error(request_id, error).action(), "authorize");
}

#[test]
fn each_variant_has_its_tag() {
    let tags: Vec<&str> = one_of_each(an_error(), 5).iter().map(|r| r.action()).collect();
    assert_eq!(
        tags,
        vec![
            "authorize",
            "getMetadata",
            "get",
            "set",
            "subscribe",
            "subscription",
            "subscriptionNotification",
            "unsubscribe",
            "unsubscribeAll",
        ]
    );
}

#[test]
fn each_constructor_builds_its_variant() {
    let error = an_error();
    let request_id = ReqID::ReqIDUUID(0x67e5_5044_10b1_426f_9247_bb68_0e5f_e0c8);
    let subscription_id = SubscriptionID::SubscriptionIDUUID(0x0123_4567_89ab_cdef_0123_4567_89ab_cdef);
    let timestamp = 1_555_555_555_555u128;
    assert_eq!(
        new_get_error_at(request_id, error, timestamp),
        ActionErrorResponse::Get { request_id, error, timestamp }
    );
    assert_eq!(
        new_set_error_at(request_id, error, timestamp),
        ActionErrorResponse::SetValue { request_id, error, timestamp }
    );
    assert_eq!(
        new_subscribe_error_at(request_id, error, timestamp),
        ActionErrorResponse::Subscribe { request_id, error, timestamp }
    );
    assert_eq!(
        new_unsubscribe_error_at(request_id, subscription_id, error, timestamp),
        ActionErrorResponse::Unsubscribe { request_id, subscription_id, error, timestamp }
    );
    assert_eq!(
        new_unsubscribe_all_error_at(request_id, error, timestamp),
        ActionErrorResponse::UnsubscribeAll { request_id, error, timestamp }
    );
    assert_eq!(
        new_get_metadata_error_at(request_id, error, timestamp),
        ActionErrorResponse::GetMetadata { request_id, error, timestamp }
    );
    assert_eq!(
        new_authorize_error_at(request_id, error, timestamp),
        ActionErrorResponse::Authorize { request_id, error, timestamp }
    );
}

#[test]
fn a_stamped_constructor_differs_from_a_timed_one_in_the_time_only() {
    let error = ActionError::from(UNAUTHORIZED_READ_ONLY);
    let request_id = ReqID::ReqIDInt(11);
    let subscription_id = SubscriptionID::SubscriptionIDInt(12);
    let r = new_get_error(request_id, error);
    assert_eq!(r, new_get_error_at(request_id, error, r.timestamp()));
    let r = new_set_error(request_id, error);
    assert_eq!(r, new_set_error_at(request_id, error, r.timestamp()));
    let r = new_subscribe_error(request_id, error);
    assert_eq!(r, new_subscribe_error_at(request_id, error, r.timestamp()));
    let r = new_unsubscribe_error(request_id, subscription_id, error);
    assert_eq!(r, new_unsubscribe_error_at(request_id, subscription_id, error, r.timestamp()));
    let r = new_unsubscribe_all_error(request_id, error);
    assert_eq!(r, new_unsubscribe_all_error_at(request_id, error, r.timestamp()));
    let r = new_get_metadata_error(request_id, error);
    assert_eq!(r, new_get_metadata_error_at(request_id, error, r.timestamp()));
    let r = new_authorize_error(request_id, error);
    assert_eq!(r, new_authorize_error_at(request_id, error, r.timestamp()));
}

#[test]
fn only_two_variants_name_a_subscription() {
    for response in one_of_each(an_error(), 6) {
        let names_one = matches!(
            response,
            ActionErrorResponse::Unsubscribe { .. }
                | ActionErrorResponse::SubscriptionNotification { .. }
        );
        assert_eq!(response.subscription_id().is_some(), names_one);
        if names_one {
            assert_eq!(response.subscription_id(), Some(SubscriptionID::SubscriptionIDInt(2)));
        }
    }
}

#[test]
fn only_the_unsubscribe_constructor_names_a_subscription() {
    let error = an_error();
    let request_id = ReqID::ReqIDInt(3);
    let subscription_id = SubscriptionID::SubscriptionIDInt(4);
    assert_eq!(new_get_error(request_id, error).subscription_id(), None);
    assert_eq!(new_set_error(request_id, error).subscription_id(), None);
    assert_eq!(new_subscribe_error(request_id, error).subscription_id(), None);
    assert_eq!(
        new_unsubscribe_error(request_id, subscription_id, error).subscription_id(),
        Some(subscription_id)
    );
    assert_eq!(new_unsubscribe_all_error(request_id, error).subscription_id(), None);
    assert_eq!(new_get_metadata_error(request_id, error).subscription_id(), None);
    assert_eq!(new_authorize_error(request_id, error).subscription_id(), None);
}

#[test]
fn only_a_notification_names_no_request() {
    for response in one_of_each(an_error(), 7) {
        let is_notification =
            matches!(response, ActionErrorResponse::SubscriptionNotification { .. });
        assert_eq!(response.request_id().is_none(), is_notification);
        if !is_notification {
            assert_eq!(response.request_id(), Some(ReqID::ReqIDInt(1)));
        }
    }
}

#[test]
fn a_response_hands_out_its_error_and_its_time() {
    let error = an_error();
    for response in one_of_each(error, 1_234_567_890_123) {
        assert_eq!(response.error(), error);
        assert_eq!(response.timestamp(), 1_234_567_890_123);
    }
    for response in one_of_each(error, u128::MAX) {
        assert_eq!(response.timestamp(), u128::MAX);
    }
}

#[test]
fn the_time_of_a_later_response_is_not_earlier() {
    let error = an_error();
    let request_id = ReqID::ReqIDInt(8);
    let first = new_get_error(request_id, error);
    let second = new_set_error(request_id, error);
    let third = new_authorize_error(request_id, error);
    assert!(first.timestamp() <= second.timestamp());
    assert!(second.timestamp() <= third.timestamp());
}

#[test]
fn the_time_given_is_the_time_kept() {
    let error = an_error();
    let request_id = ReqID::ReqIDInt(9);
    let earlier = new_get_error_at(request_id, error, 10);
    let later = new_get_error_at(request_id, error, 11);
    assert_eq!(earlier.timestamp(), 10);
    assert_eq!(later.timestamp(), 11);
    assert!(earlier.timestamp() <= later.timestamp());
    assert_eq!(new_get_error_at(request_id, error, 0).timestamp(), 0);
}

#[test]
fn no_two_variants_share_a_tag() {
    let responses = one_of_each(an_error(), 5);
    for (i, a) in responses.iter().enumerate() {
        for (j, b) in responses.iter().enumerate() {
            assert_eq!(a.action() == b.action(), i == j);
        }
    }
}

#[test]
fn identifiers_are_numbers_or_uuids() {
    assert_eq!(ReqID::ReqIDInt(5), ReqID::ReqIDInt(5));
    assert_ne!(ReqID::ReqIDInt(5), ReqID::ReqIDUUID(5));
    assert_ne!(SubscriptionID::SubscriptionIDInt(0), SubscriptionID::SubscriptionIDUUID(0));
    let response = new_get_error(ReqID::ReqIDUUID(u128::MAX), an_error());
    assert_eq!(response.request_id(), Some(ReqID::ReqIDUUID(u128::MAX)));
}
