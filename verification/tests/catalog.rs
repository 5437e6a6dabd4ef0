use vehicle_information_service::api_error::{
    ActionError, KnownError, BAD_GATEWAY, BAD_REQUEST, BAD_REQUEST_FILTER_INVALID,
    FORBIDDEN_DEVICE_FORBIDDEN, FORBIDDEN_DEVICE_UNKNOWN, FORBIDDEN_USER_FORBIDDEN,
    FORBIDDEN_USER_UNKNOWN, GATEWAY_TIMEOUT, NOT_ACCEPTABLE, NOT_FOUND_INVALID_PATH,
    NOT_FOUND_INVALID_SUBSCRIPTION_ID, NOT_FOUND_PRIVATE_PATH, NOT_MODIFIED, SERVICE_UNAVAILABLE,
    TOO_MANY_REQUESTS, UNAUTHORIZED_DEVICE_TOKEN_EXPIRED, UNAUTHORIZED_DEVICE_TOKEN_INVALID,
    UNAUTHORIZED_DEVICE_TOKEN_MISSING, UNAUTHORIZED_READ_ONLY, UNAUTHORIZED_TOO_MANY_ATTEMPTS,
    UNAUTHORIZED_USER_TOKEN_EXPIRED, UNAUTHORIZED_USER_TOKEN_INVALID,
    UNAUTHORIZED_USER_TOKEN_MISSING,
};

fn table() -> Vec<(KnownError, u16, &'static str, &'static str)> {
    vec![
        (NOT_MODIFIED, 304, "not_modified", "No changes have been made by the server."),
        (
            BAD_REQUEST,
            400,
            "bad_request",
            "The server is unable to fulfill the client request because the request is malformed.",
        ),
        (BAD_REQUEST_FILTER_INVALID, 400, "filter_invalid", "Filter requested on non-primitive type."),
        (UNAUTHORIZED_USER_TOKEN_EXPIRED, 401, "user_token_expired", "User token has expired."),
        (UNAUTHORIZED_USER_TOKEN_INVALID, 401, "user_token_invalid", "User token is invalid."),
        (UNAUTHORIZED_USER_TOKEN_MISSING, 401, "user_token_missing", "User token is missing."),
        (UNAUTHORIZED_DEVICE_TOKEN_EXPIRED, 401, "device_token_expired", "Device token has expired."),
        (UNAUTHORIZED_DEVICE_TOKEN_INVALID, 401, "device_token_invalid", "Device token is invalid."),
        (UNAUTHORIZED_DEVICE_TOKEN_MISSING, 401, "device_token_missing", "Device token is missing."),
        (
            UNAUTHORIZED_TOO_MANY_ATTEMPTS,
            401,
            "too_many_attempts",
            "The client has failed to authenticate too many times.",
        ),
        (
            UNAUTHORIZED_READ_ONLY,
            401,
            "read_only",
            "The desired signal cannot be set since it is a read only signal.",
        ),
        (
            FORBIDDEN_USER_FORBIDDEN,
            403,
            "user_forbidden",
            "The user is not permitted to access the requested resource. Retrying does not help.",
        ),
        (FORBIDDEN_USER_UNKNOWN, 403, "user_unknown", "The user is unknown. Retrying does not help."),
        (
            FORBIDDEN_DEVICE_FORBIDDEN,
            403,
            "device_forbidden",
            "The device is not permitted to access the requested resource. Retrying does not help.",
        ),
        (
            FORBIDDEN_DEVICE_UNKNOWN,
            403,
            "device_unknown",
            "The device is unknown. Retrying does not help.",
        ),
        (NOT_FOUND_INVALID_PATH, 404, "invalid_path", "The specified data path does not exist."),
        (
            NOT_FOUND_PRIVATE_PATH,
            404,
            "private_path",
            "The specified data path is private and the request is not authorized to access signals on this path.",
        ),
        (
            NOT_FOUND_INVALID_SUBSCRIPTION_ID,
            404,
            "invalid_subscriptionId",
            "The specified subscription was not found.",
        ),
        (
            NOT_ACCEPTABLE,
            406,
            "not_acceptable",
            "The server is unable to generate content that is acceptable to the client",
        ),
        (
            TOO_MANY_REQUESTS,
            429,
            "too_many_requests",
            "The client has sent the server too many requests in a given amount of time.",
        ),
        (
            BAD_GATEWAY,
            502,
            "bad_gateway",
            "The server was acting as a gateway or proxy and received an invalid response from an upstream server.",
        ),
        (
            SERVICE_UNAVAILABLE,
            503,
            "service_unavailable",
            "The server is currently unable to handle the request due to a temporary overload or scheduled maintenance (which may be alleviated after some delay).",
        ),
        (
            GATEWAY_TIMEOUT,
            504,
            "gateway_timeout",
            "The server did not receive a timely response from an upstream server it needed to access in order to complete the request.",
        ),
    ]
}

#[test]
fn every_row_gives_its_number_reason_and_message() {
    let rows = table();
    assert_eq!(rows.len(), 23);
    for (known, number, reason, message) in rows {
        assert_eq!(known.number(), number);
        assert_eq!(known.status().as_u16(), number);
        assert_eq!(known.reason(), reason);
        assert_eq!(known.message(), message);
    }
}

#[test]
fn an_error_from_a_row_copies_the_row() {
    for (known, number, reason, message) in table() {
        let error = ActionError::from(known);
        assert_eq!(error.number(), number);
        assert_eq!(error.reason(), reason);
        assert_eq!(error.message(), message);
        let same: ActionError = known.into();
        assert_eq!(same, error);
    }
}

#[test]
fn a_row_and_its_bare_status_agree_on_the_number() {
    for (known, number, _, message) in table() {
        let from_row = ActionError::from(known);
        let from_status = ActionError::from(known.status());
        assert_eq!(from_row.number(), from_status.number());
        assert_eq!(from_status.number(), number);
        assert_eq!(from_status.message(), "");
        assert_eq!(from_row.message(), message);
    }
}

#[test]
fn no_two_rows_share_a_reason() {
    let rows = table();
    for (i, a) in rows.iter().enumerate() {
        for (j, b) in rows.iter().enumerate() {
            if i != j {
                assert_ne!(a.0, b.0);
                assert_ne!(a.0.reason(), b.0.reason());
            }
        }
    }
}

#[test]
fn every_row_has_a_reason_and_a_message() {
    for (known, _, _, _) in table() {
        assert!(!known.reason().is_empty());
        assert!(!known.message().is_empty());
    }
}

#[test]
fn the_rows_use_ten_status_numbers() {
    let allowed = [304u16, 400, 401, 403, 404, 406, 429, 502, 503, 504];
    for (known, _, _, _) in table() {
        assert!(allowed.contains(&known.number()));
    }
    for number in allowed {
        assert!(table().iter().any(|row| row.0.number() == number));
    }
}

#[test]
fn a_constant_names_its_variant() {
    assert_eq!(NOT_MODIFIED, KnownError::NotModified);
    assert_eq!(UNAUTHORIZED_USER_TOKEN_EXPIRED, KnownError::UnauthorizedUserTokenExpired);
    assert_eq!(NOT_FOUND_INVALID_SUBSCRIPTION_ID, KnownError::NotFoundInvalidSubscriptionId);
    assert_eq!(GATEWAY_TIMEOUT, KnownError::GatewayTimeout);
}
