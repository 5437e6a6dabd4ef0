//! The errors that the service's protocol lists by name.
//!
//! The protocol gives a table of errors. Each row has a status number, a
//! reason that tells rows with the same number apart, and a message. The
//! table is closed: [`KnownError`] has one variant for each row, and a
//! constant names each of them.

use crate::api_error::ErrorView;
use crate::status::{is_status_number, StatusCode};
use vstd::prelude::*;

verus! {

/// A row of the protocol's table of errors.
#[derive(Clone, Copy, Debug, PartialEq, Eq, Hash)]
pub enum KnownError {
    /// The server made no changes.
    NotModified,
    /// The request is malformed.
    BadRequest,
    /// A filter was requested on a type that is not primitive.
    BadRequestFilterInvalid,
    /// The user's token has expired.
    UnauthorizedUserTokenExpired,
    /// The user's token is invalid.
    UnauthorizedUserTokenInvalid,
    /// The user's token is missing.
    UnauthorizedUserTokenMissing,
    /// The device's token has expired.
    UnauthorizedDeviceTokenExpired,
    /// The device's token is invalid.
    UnauthorizedDeviceTokenInvalid,
    /// The device's token is missing.
    UnauthorizedDeviceTokenMissing,
    /// The client failed to authenticate too many times.
    UnauthorizedTooManyAttempts,
    /// The signal to be set can only be read.
    UnauthorizedReadOnly,
    /// The user may not access the resource.
    ForbiddenUserForbidden,
    /// The user is unknown.
    ForbiddenUserUnknown,
    /// The device may not access the resource.
    ForbiddenDeviceForbidden,
    /// The device is unknown.
    ForbiddenDeviceUnknown,
    /// The data path does not exist.
    NotFoundInvalidPath,
    /// The data path is private, and the request may not access it.
    NotFoundPrivatePath,
    /// The subscription was not found.
    NotFoundInvalidSubscriptionId,
    /// The server has no content that the client accepts.
    NotAcceptable,
    /// The client sent too many requests in a given time.
    TooManyRequests,
    /// An upstream server gave the server an invalid response.
    BadGateway,
    /// The server is overloaded or under maintenance for a while.
    ServiceUnavailable,
    /// An upstream server did not answer the server in time.
    GatewayTimeout,
}

pub const NOT_MODIFIED: KnownError = KnownError::NotModified;

pub const BAD_REQUEST: KnownError = KnownError::BadRequest;

pub const BAD_REQUEST_FILTER_INVALID: KnownError = KnownError::BadRequestFilterInvalid;

pub const UNAUTHORIZED_USER_TOKEN_EXPIRED: KnownError = KnownError::UnauthorizedUserTokenExpired;

pub const UNAUTHORIZED_USER_TOKEN_INVALID: KnownError = KnownError::UnauthorizedUserTokenInvalid;

pub const UNAUTHORIZED_USER_TOKEN_MISSING: KnownError = KnownError::UnauthorizedUserTokenMissing;

pub const UNAUTHORIZED_DEVICE_TOKEN_EXPIRED: KnownError =
    KnownError::UnauthorizedDeviceTokenExpired;

pub const UNAUTHORIZED_DEVICE_TOKEN_INVALID: KnownError =
    KnownError::UnauthorizedDeviceTokenInvalid;

pub const UNAUTHORIZED_DEVICE_TOKEN_MISSING: KnownError =
    KnownError::UnauthorizedDeviceTokenMissing;

pub const UNAUTHORIZED_TOO_MANY_ATTEMPTS: KnownError = KnownError::UnauthorizedTooManyAttempts;

pub const UNAUTHORIZED_READ_ONLY: KnownError = KnownError::UnauthorizedReadOnly;

pub const FORBIDDEN_USER_FORBIDDEN: KnownError = KnownError::ForbiddenUserForbidden;

pub const FORBIDDEN_USER_UNKNOWN: KnownError = KnownError::ForbiddenUserUnknown;

pub const FORBIDDEN_DEVICE_FORBIDDEN: KnownError = KnownError::ForbiddenDeviceForbidden;

pub const FORBIDDEN_DEVICE_UNKNOWN: KnownError = KnownError::ForbiddenDeviceUnknown;

pub const NOT_FOUND_INVALID_PATH: KnownError = KnownError::NotFoundInvalidPath;

pub const NOT_FOUND_PRIVATE_PATH: KnownError = KnownError::NotFoundPrivatePath;

pub const NOT_FOUND_INVALID_SUBSCRIPTION_ID: KnownError =
    KnownError::NotFoundInvalidSubscriptionId;

pub const NOT_ACCEPTABLE: KnownError = KnownError::NotAcceptable;

pub const TOO_MANY_REQUESTS: KnownError = KnownError::TooManyRequests;

pub const BAD_GATEWAY: KnownError = KnownError::BadGateway;

pub const SERVICE_UNAVAILABLE: KnownError = KnownError::ServiceUnavailable;

pub const GATEWAY_TIMEOUT: KnownError = KnownError::GatewayTimeout;

impl View for KnownError {
    type V = ErrorView;

    /// The row as the number, the reason and the message that it gives to an
    /// error.
    open spec fn view(&self) -> ErrorView {
        ErrorView {
            number: self.spec_number(),
            reason: self.spec_reason(),
            message: self.spec_message(),
        }
    }
}

impl KnownError {
    /// The status number of the row.
    pub open spec fn spec_number(self) -> nat {
        match self {
            KnownError::NotModified => 304,
            KnownError::BadRequest | KnownError::BadRequestFilterInvalid => 400,
            KnownError::UnauthorizedUserTokenExpired
            | KnownError::UnauthorizedUserTokenInvalid
            | KnownError::UnauthorizedUserTokenMissing
            | KnownError::UnauthorizedDeviceTokenExpired
            | KnownError::UnauthorizedDeviceTokenInvalid
            | KnownError::UnauthorizedDeviceTokenMissing
            | KnownError::UnauthorizedTooManyAttempts
            | KnownError::UnauthorizedReadOnly => 401,
            KnownError::ForbiddenUserForbidden
            | KnownError::ForbiddenUserUnknown
            | KnownError::ForbiddenDeviceForbidden
            | KnownError::ForbiddenDeviceUnknown => 403,
            KnownError::NotFoundInvalidPath
            | KnownError::NotFoundPrivatePath
            | KnownError::NotFoundInvalidSubscriptionId => 404,
            KnownError::NotAcceptable => 406,
            KnownError::TooManyRequests => 429,
            KnownError::BadGateway => 502,
            KnownError::ServiceUnavailable => 503,
            KnownError::GatewayTimeout => 504,
        }
    }

    /// The reason of the row: a short token for machines.
    pub open spec fn spec_reason(self) -> Seq<char> {
        match self {
            KnownError::NotModified => "not_modified"@,
            KnownError::BadRequest => "bad_request"@,
            KnownError::BadRequestFilterInvalid => "filter_invalid"@,
            KnownError::UnauthorizedUserTokenExpired => "user_token_expired"@,
            KnownError::UnauthorizedUserTokenInvalid => "user_token_invalid"@,
            KnownError::UnauthorizedUserTokenMissing => "user_token_missing"@,
            KnownError::UnauthorizedDeviceTokenExpired => "device_token_expired"@,
            KnownError::UnauthorizedDeviceTokenInvalid => "device_token_invalid"@,
            KnownError::UnauthorizedDeviceTokenMissing => "device_token_missing"@,
            KnownError::UnauthorizedTooManyAttempts => "too_many_attempts"@,
            KnownError::UnauthorizedReadOnly => "read_only"@,
            KnownError::ForbiddenUserForbidden => "user_forbidden"@,
            KnownError::ForbiddenUserUnknown => "user_unknown"@,
            KnownError::ForbiddenDeviceForbidden => "device_forbidden"@,
            KnownError::ForbiddenDeviceUnknown => "device_unknown"@,
            KnownError::NotFoundInvalidPath => "invalid_path"@,
            KnownError::NotFoundPrivatePath => "private_path"@,
            KnownError::NotFoundInvalidSubscriptionId => "invalid_subscriptionId"@,
            KnownError::NotAcceptable => "not_acceptable"@,
            KnownError::TooManyRequests => "too_many_requests"@,
            KnownError::BadGateway => "bad_gateway"@,
            KnownError::ServiceUnavailable => "service_unavailable"@,
            KnownError::GatewayTimeout => "gateway_timeout"@,
        }
    }

    /// The message of the row: a sentence for people.
    pub open spec fn spec_message(self) -> Seq<char> {
        match self {
            KnownError::NotModified => "No changes have been made by the server."@,
            KnownError::BadRequest => "The server is unable to fulfill the client request because the request is malformed."@,
            KnownError::BadRequestFilterInvalid => "Filter requested on non-primitive type."@,
            KnownError::UnauthorizedUserTokenExpired => "User token has expired."@,
            KnownError::UnauthorizedUserTokenInvalid => "User token is invalid."@,
            KnownError::UnauthorizedUserTokenMissing => "User token is missing."@,
            KnownError::UnauthorizedDeviceTokenExpired => "Device token has expired."@,
            KnownError::UnauthorizedDeviceTokenInvalid => "Device token is invalid."@,
            KnownError::UnauthorizedDeviceTokenMissing => "Device token is missing."@,
            KnownError::UnauthorizedTooManyAttempts => "The client has failed to authenticate too many times."@,
            KnownError::UnauthorizedReadOnly => "The desired signal cannot be set since it is a read only signal."@,
            KnownError::ForbiddenUserForbidden => "The user is not permitted to access the requested resource. Retrying does not help."@,
            KnownError::ForbiddenUserUnknown => "The user is unknown. Retrying does not help."@,
            KnownError::ForbiddenDeviceForbidden => "The device is not permitted to access the requested resource. Retrying does not help."@,
            KnownError::ForbiddenDeviceUnknown => "The device is unknown. Retrying does not help."@,
            KnownError::NotFoundInvalidPath => "The specified data path does not exist."@,
            KnownError::NotFoundPrivatePath => "The specified data path is private and the request is not authorized to access signals on this path."@,
            KnownError::NotFoundInvalidSubscriptionId => "The specified subscription was not found."@,
            KnownError::NotAcceptable => "The server is unable to generate content that is acceptable to the client"@,
            KnownError::TooManyRequests => "The client has sent the server too many requests in a given amount of time."@,
            KnownError::BadGateway => "The server was acting as a gateway or proxy and received an invalid response from an upstream server."@,
            KnownError::ServiceUnavailable => "The server is currently unable to handle the request due to a temporary overload or scheduled maintenance (which may be alleviated after some delay)."@,
            KnownError::GatewayTimeout => "The server did not receive a timely response from an upstream server it needed to access in order to complete the request."@,
        }
    }

    /// The status number of the row.
    pub fn number(&self) -> (number: u16)
        ensures
            number == self@.number,
            is_status_number(number as int),
    {
        match self {
            KnownError::NotModified => 304,
            KnownError::BadRequest | KnownError::BadRequestFilterInvalid => 400,
            KnownError::UnauthorizedUserTokenExpired
            | KnownError::UnauthorizedUserTokenInvalid
            | KnownError::UnauthorizedUserTokenMissing
            | KnownError::UnauthorizedDeviceTokenExpired
            | KnownError::UnauthorizedDeviceTokenInvalid
            | KnownError::UnauthorizedDeviceTokenMissing
            | KnownError::UnauthorizedTooManyAttempts
            | KnownError::UnauthorizedReadOnly => 401,
            KnownError::ForbiddenUserForbidden
            | KnownError::ForbiddenUserUnknown
            | KnownError::ForbiddenDeviceForbidden
            | KnownError::ForbiddenDeviceUnknown => 403,
            KnownError::NotFoundInvalidPath
            | KnownError::NotFoundPrivatePath
            | KnownError::NotFoundInvalidSubscriptionId => 404,
            KnownError::NotAcceptable => 406,
            KnownError::TooManyRequests => 429,
            KnownError::BadGateway => 502,
            KnownError::ServiceUnavailable => 503,
            KnownError::GatewayTimeout => 504,
        }
    }

    /// The status code of the row.
    pub fn status(&self) -> (status: StatusCode)
        ensures
            status@ == self@.number,
    {
        StatusCode::from_u16(self.number()).unwrap()
    }

    /// The reason of the row.
    pub fn reason(&self) -> (reason: &'static str)
        ensures
            reason@ == self@.reason,
    {
        match self {
            KnownError::NotModified => "not_modified",
            KnownError::BadRequest => "bad_request",
            KnownError::BadRequestFilterInvalid => "filter_invalid",
            KnownError::UnauthorizedUserTokenExpired => "user_token_expired",
            KnownError::UnauthorizedUserTokenInvalid => "user_token_invalid",
            KnownError::UnauthorizedUserTokenMissing => "user_token_missing",
            KnownError::UnauthorizedDeviceTokenExpired => "device_token_expired",
            KnownError::UnauthorizedDeviceTokenInvalid => "device_token_invalid",
            KnownError::UnauthorizedDeviceTokenMissing => "device_token_missing",
            KnownError::UnauthorizedTooManyAttempts => "too_many_attempts",
            KnownError::UnauthorizedReadOnly => "read_only",
            KnownError::ForbiddenUserForbidden => "user_forbidden",
            KnownError::ForbiddenUserUnknown => "user_unknown",
            KnownError::ForbiddenDeviceForbidden => "device_forbidden",
            KnownError::ForbiddenDeviceUnknown => "device_unknown",
            KnownError::NotFoundInvalidPath => "invalid_path",
            KnownError::NotFoundPrivatePath => "private_path",
            KnownError::NotFoundInvalidSubscriptionId => "invalid_subscriptionId",
            KnownError::NotAcceptable => "not_acceptable",
            KnownError::TooManyRequests => "too_many_requests",
            KnownError::BadGateway => "bad_gateway",
            KnownError::ServiceUnavailable => "service_unavailable",
            KnownError::GatewayTimeout => "gateway_timeout",
        }
    }

    /// The message of the row.
    pub fn message(&self) -> (message: &'static str)
        ensures
            message@ == self@.message,
    {
        match self {
            KnownError::NotModified => "No changes have been made by the server.",
            KnownError::BadRequest => "The server is unable to fulfill the client request because the request is malformed.",
            KnownError::BadRequestFilterInvalid => "Filter requested on non-primitive type.",
            KnownError::UnauthorizedUserTokenExpired => "User token has expired.",
            KnownError::UnauthorizedUserTokenInvalid => "User token is invalid.",
            KnownError::UnauthorizedUserTokenMissing => "User token is missing.",
            KnownError::UnauthorizedDeviceTokenExpired => "Device token has expired.",
            KnownError::UnauthorizedDeviceTokenInvalid => "Device token is invalid.",
            KnownError::UnauthorizedDeviceTokenMissing => "Device token is missing.",
            KnownError::UnauthorizedTooManyAttempts => "The client has failed to authenticate too many times.",
            KnownError::UnauthorizedReadOnly => "The desired signal cannot be set since it is a read only signal.",
            KnownError::ForbiddenUserForbidden => "The user is not permitted to access the requested resource. Retrying does not help.",
            KnownError::ForbiddenUserUnknown => "The user is unknown. Retrying does not help.",
            KnownError::ForbiddenDeviceForbidden => "The device is not permitted to access the requested resource. Retrying does not help.",
            KnownError::ForbiddenDeviceUnknown => "The device is unknown. Retrying does not help.",
            KnownError::NotFoundInvalidPath => "The specified data path does not exist.",
            KnownError::NotFoundPrivatePath => "The specified data path is private and the request is not authorized to access signals on this path.",
            KnownError::NotFoundInvalidSubscriptionId => "The specified subscription was not found.",
            KnownError::NotAcceptable => "The server is unable to generate content that is acceptable to the client",
            KnownError::TooManyRequests => "The client has sent the server too many requests in a given amount of time.",
            KnownError::BadGateway => "The server was acting as a gateway or proxy and received an invalid response from an upstream server.",
            KnownError::ServiceUnavailable => "The server is currently unable to handle the request due to a temporary overload or scheduled maintenance (which may be alleviated after some delay).",
            KnownError::GatewayTimeout => "The server did not receive a timely response from an upstream server it needed to access in order to complete the request.",
        }
    }
}

/// The length of a reason and its seventh character from the end.
spec fn reason_mark(reason: Seq<char>) -> (nat, char) {
    (reason.len(), reason[reason.len() - 7])
}

/// The mark of each row's reason. No two rows have the same.
spec fn row_mark(known: KnownError) -> (nat, char) {
    match known {
        KnownError::NotModified => (12, 'o'),
        KnownError::BadRequest => (11, 'r'),
        KnownError::BadRequestFilterInvalid => (14, 'i'),
        KnownError::UnauthorizedUserTokenExpired => (18, 'e'),
        KnownError::UnauthorizedUserTokenInvalid => (18, 'i'),
        KnownError::UnauthorizedUserTokenMissing => (18, 'm'),
        KnownError::UnauthorizedDeviceTokenExpired => (20, 'e'),
        KnownError::UnauthorizedDeviceTokenInvalid => (20, 'i'),
        KnownError::UnauthorizedDeviceTokenMissing => (20, 'm'),
        KnownError::UnauthorizedTooManyAttempts => (17, 't'),
        KnownError::UnauthorizedReadOnly => (9, 'a'),
        KnownError::ForbiddenUserForbidden => (14, 'r'),
        KnownError::ForbiddenUserUnknown => (12, 'u'),
        KnownError::ForbiddenDeviceForbidden => (16, 'r'),
        KnownError::ForbiddenDeviceUnknown => (14, 'u'),
        KnownError::NotFoundInvalidPath => (12, 'i'),
        KnownError::NotFoundPrivatePath => (12, 't'),
        KnownError::NotFoundInvalidSubscriptionId => (22, 'p'),
        KnownError::NotAcceptable => (14, 'e'),
        KnownError::TooManyRequests => (17, 'e'),
        KnownError::BadGateway => (11, 'g'),
        KnownError::ServiceUnavailable => (19, 'a'),
        KnownError::GatewayTimeout => (15, 't'),
    }
}

/// The reason of a row has the mark that `row_mark` gives for the row.
proof fn lemma_row_mark(known: KnownError)
    ensures
        reason_mark(known@.reason) == row_mark(known),
{
    reveal_strlit("not_modified");
    reveal_strlit("bad_request");
    reveal_strlit("filter_invalid");
    reveal_strlit("user_token_expired");
    reveal_strlit("user_token_invalid");
    reveal_strlit("user_token_missing");
    reveal_strlit("device_token_expired");
    reveal_strlit("device_token_invalid");
    reveal_strlit("device_token_missing");
    reveal_strlit("too_many_attempts");
    reveal_strlit("read_only");
    reveal_strlit("user_forbidden");
    reveal_strlit("user_unknown");
    reveal_strlit("device_forbidden");
    reveal_strlit("device_unknown");
    reveal_strlit("invalid_path");
    reveal_strlit("private_path");
    reveal_strlit("invalid_subscriptionId");
    reveal_strlit("not_acceptable");
    reveal_strlit("too_many_requests");
    reveal_strlit("bad_gateway");
    reveal_strlit("service_unavailable");
    reveal_strlit("gateway_timeout");
}

/// No two rows of the table share a reason: the reason alone tells which row
/// an error came from.
pub proof fn lemma_reason_identifies_row(a: KnownError, b: KnownError)
    requires
        a@.reason == b@.reason,
    ensures
        a == b,
{
    lemma_row_mark(a);
    lemma_row_mark(b);
}

/// Every row of the table has a reason and a message: neither is empty.
pub proof fn lemma_row_is_complete(known: KnownError)
    ensures
        known@.reason.len() > 0,
        known@.message.len() > 0,
{
    lemma_row_mark(known);
    reveal_strlit("No changes have been made by the server.");
    reveal_strlit("The server is unable to fulfill the client request because the request is malformed.");
    reveal_strlit("Filter requested on non-primitive type.");
    reveal_strlit("User token has expired.");
    reveal_strlit("User token is invalid.");
    reveal_strlit("User token is missing.");
    reveal_strlit("Device token has expired.");
    reveal_strlit("Device token is invalid.");
    reveal_strlit("Device token is missing.");
    reveal_strlit("The client has failed to authenticate too many times.");
    reveal_strlit("The desired signal cannot be set since it is a read only signal.");
    reveal_strlit("The user is not permitted to access the requested resource. Retrying does not help.");
    reveal_strlit("The user is unknown. Retrying does not help.");
    reveal_strlit("The device is not permitted to access the requested resource. Retrying does not help.");
    reveal_strlit("The device is unknown. Retrying does not help.");
    reveal_strlit("The specified data path does not exist.");
    reveal_strlit("The specified data path is private and the request is not authorized to access signals on this path.");
    reveal_strlit("The specified subscription was not found.");
    reveal_strlit("The server is unable to generate content that is acceptable to the client");
    reveal_strlit("The client has sent the server too many requests in a given amount of time.");
    reveal_strlit("The server was acting as a gateway or proxy and received an invalid response from an upstream server.");
    reveal_strlit("The server is currently unable to handle the request due to a temporary overload or scheduled maintenance (which may be alleviated after some delay).");
    reveal_strlit("The server did not receive a timely response from an upstream server it needed to access in order to complete the request.");
}

/// Every row of the table carries the number of a status code, one of the ten
/// that the protocol uses.
pub proof fn lemma_row_number(known: KnownError)
    ensures
        is_status_number(known@.number as int),
        known@.number == 304 || known@.number == 400 || known@.number == 401 || known@.number
            == 403 || known@.number == 404 || known@.number == 406 || known@.number == 429
            || known@.number == 502 || known@.number == 503 || known@.number == 504,
{
}

} // verus!
