//! Errors that the server returns.
//!
//! An [`ActionError`] says what went wrong: a status number, a reason for
//! machines and a message for people. It is made from a row of the
//! protocol's table of errors, or from a bare status code. The responses
//! that carry an error, and the table itself, are modules of their own;
//! their items are found here as well.

use crate::status::{
    canonical_reason_of, is_status_number, lemma_empty_literal, reason_or_empty, reason_text,
    StatusCode,
};
use vstd::prelude::*;

pub use crate::known_error::{
    KnownError, BAD_GATEWAY, BAD_REQUEST, BAD_REQUEST_FILTER_INVALID, FORBIDDEN_DEVICE_FORBIDDEN,
    FORBIDDEN_DEVICE_UNKNOWN, FORBIDDEN_USER_FORBIDDEN, FORBIDDEN_USER_UNKNOWN, GATEWAY_TIMEOUT,
    NOT_ACCEPTABLE, NOT_FOUND_INVALID_PATH, NOT_FOUND_INVALID_SUBSCRIPTION_ID,
    NOT_FOUND_PRIVATE_PATH, NOT_MODIFIED, SERVICE_UNAVAILABLE, TOO_MANY_REQUESTS,
    UNAUTHORIZED_DEVICE_TOKEN_EXPIRED, UNAUTHORIZED_DEVICE_TOKEN_INVALID,
    UNAUTHORIZED_DEVICE_TOKEN_MISSING, UNAUTHORIZED_READ_ONLY, UNAUTHORIZED_TOO_MANY_ATTEMPTS,
    UNAUTHORIZED_USER_TOKEN_EXPIRED, UNAUTHORIZED_USER_TOKEN_INVALID,
    UNAUTHORIZED_USER_TOKEN_MISSING,
};
pub use crate::response::{
    new_authorize_error, new_authorize_error_at, new_get_error, new_get_error_at,
    new_get_metadata_error, new_get_metadata_error_at, new_io_error_response_at, new_set_error,
    new_set_error_at, new_subscribe_error, new_subscribe_error_at, new_unsubscribe_all_error,
    new_unsubscribe_all_error_at, new_unsubscribe_error, new_unsubscribe_error_at,
    ActionErrorResponse, ResponseView,
};

verus! {

/// What an error says: the member `error` of a response on the wire.
pub struct ErrorView {
    /// The number of an HTTP status code.
    pub number: nat,
    /// A fixed token that tells errors with the same number apart.
    pub reason: Seq<char>,
    /// A text that describes the cause.
    pub message: Seq<char>,
}

/// The error for a bare status code: the reason is the standard phrase of
/// the status code, or empty where it has none.
pub open spec fn status_error(status: nat, message: Seq<char>) -> ErrorView {
    ErrorView { number: status, reason: reason_text(canonical_reason_of(status as u16)), message }
}

/// The error for a failure inside the server: status 500 under its standard
/// phrase, without a message.
pub open spec fn internal_server_error() -> ErrorView {
    ErrorView { number: 500, reason: "Internal Server Error"@, message: Seq::empty() }
}

/// Whether the reason of `error` is the standard phrase of its status code.
pub open spec fn is_fallback(error: ErrorView) -> bool {
    error.reason == reason_text(canonical_reason_of(error.number as u16))
}

/// Whether `error` is a row of the protocol's table of errors.
pub open spec fn is_table_row(error: ErrorView) -> bool {
    exists|known: KnownError| #[trigger] known@ == error
}

/// What holds of every error: its number is that of a status code, and it is
/// a row of the protocol's table or has the reason that its status code
/// stands for.
pub open spec fn well_formed(error: ErrorView) -> bool {
    is_status_number(error.number as int) && (is_fallback(error) || is_table_row(error))
}

/// An error with which the server answers a request: a number, a reason and
/// a message.
#[derive(PartialEq, Eq, Debug, Copy, Clone)]
pub struct ActionError {
    /// The number of an HTTP status code.
    number: u16,
    /// A fixed token that tells errors with the same number apart, such as
    /// `user_token_expired` and `user_token_invalid`.
    reason: &'static str,
    /// A text that describes the cause, such as "User token has expired."
    message: &'static str,
}

impl View for ActionError {
    type V = ErrorView;

    closed spec fn view(&self) -> ErrorView {
        ErrorView { number: self.number as nat, reason: self.reason@, message: self.message@ }
    }
}

impl ActionError {
    #[verifier::type_invariant]
    spec fn holds_well_formed(self) -> bool {
        well_formed(self@)
    }

    /// The error for the status code `http_status_code`, with `message` as
    /// its message and the standard phrase of the status code as its reason.
    pub fn new(http_status_code: StatusCode, message: &'static str) -> (error: ActionError)
        ensures
            error@ == status_error(http_status_code@, message@),
            http_status_code@ == 400 ==> error@.reason == "Bad Request"@,
            http_status_code@ == 500 ==> error@.reason == "Internal Server Error"@,
            well_formed(error@),
    {
        let number: u16 = http_status_code.as_u16();
        let reason = reason_or_empty(http_status_code.canonical_reason());
        ActionError { number, reason, message }
    }

    /// The number of the status code.
    pub fn number(&self) -> (number: u16)
        ensures
            number == self@.number,
            is_status_number(number as int),
    {
        proof {
            use_type_invariant(self);
        }
        self.number
    }

    /// The reason: a fixed token for machines.
    pub fn reason(&self) -> (reason: &'static str)
        ensures
            reason@ == self@.reason,
            well_formed(self@),
    {
        proof {
            use_type_invariant(self);
        }
        self.reason
    }

    /// The message: a text for people.
    pub fn message(&self) -> (message: &'static str)
        ensures
            message@ == self@.message,
    {
        self.message
    }
}

/// The standard library's error of input and output. This library looks at
/// nothing inside it.
#[verifier::external_type_specification]
#[verifier::external_body]
pub struct ExIoError(std::io::Error);

/// What `from` returns is stated over views, in its `ensures`: no spec
/// function gives the error itself.
impl vstd::std_specs::convert::FromSpecImpl<std::io::Error> for ActionError {
    open spec fn obeys_from_spec() -> bool {
        false
    }

    open spec fn from_spec(error: std::io::Error) -> ActionError {
        arbitrary()
    }
}

impl From<std::io::Error> for ActionError {
    /// The error for a failure of input or output: an internal server error,
    /// whatever the failure was. Nothing of the failure reaches the client.
    fn from(_error: std::io::Error) -> (res: ActionError)
        ensures
            res@ == internal_server_error(),
            res@ == status_error(500, Seq::empty()),
            well_formed(res@),
    {
        proof {
            lemma_empty_literal();
        }
        ActionError::new(StatusCode::internal_server_error(), "")
    }
}

/// What `from` returns is stated over views, in its `ensures`: no spec
/// function gives the error itself.
impl vstd::std_specs::convert::FromSpecImpl<StatusCode> for ActionError {
    open spec fn obeys_from_spec() -> bool {
        false
    }

    open spec fn from_spec(status_code: StatusCode) -> ActionError {
        arbitrary()
    }
}

impl From<StatusCode> for ActionError {
    /// The error for a bare status code: its number and standard phrase,
    /// without a message.
    fn from(status_code: StatusCode) -> (res: ActionError)
        ensures
            res@ == status_error(status_code@, Seq::empty()),
            status_code@ == 400 ==> res@.reason == "Bad Request"@,
            status_code@ == 500 ==> res@.reason == "Internal Server Error"@,
            well_formed(res@),
    {
        proof {
            lemma_empty_literal();
        }
        ActionError::new(status_code, "")
    }
}

/// What `from` returns is stated over views, in its `ensures`: no spec
/// function gives the error itself.
impl vstd::std_specs::convert::FromSpecImpl<KnownError> for ActionError {
    open spec fn obeys_from_spec() -> bool {
        false
    }

    open spec fn from_spec(known_error: KnownError) -> ActionError {
        arbitrary()
    }
}

impl From<KnownError> for ActionError {
    /// The error of a row of the protocol's table: the row's number, reason
    /// and message, unchanged.
    fn from(known_error: KnownError) -> (res: ActionError)
        ensures
            res@ == known_error@,
            well_formed(res@),
    {
        let number: u16 = known_error.number();
        let reason = known_error.reason();
        let message = known_error.message();
        ActionError { number, reason, message }
    }
}

/// The error for a request that could not be read: a bad request under the
/// standard phrase of its status code, without a message.
pub fn new_deserialization_error() -> (error: ActionError)
    ensures
        error@ == (ErrorView { number: 400, reason: "Bad Request"@, message: Seq::empty() }),
        error@ == status_error(400, Seq::empty()),
{
    ActionError::from(StatusCode::bad_request())
}

/// An error from a row of the table and the error from the row's bare status
/// code carry the same number: they differ in the reason and the message at
/// most.
pub proof fn lemma_row_and_status_agree(known: KnownError)
    ensures
        is_status_number(known@.number as int),
        status_error(known@.number, Seq::empty()).number == known@.number,
        well_formed(known@),
        well_formed(status_error(known@.number, Seq::empty())),
{
    assert(is_table_row(known@));
}

/// An error without a message is no row of the table: its reason is the
/// standard phrase of its status code.
pub proof fn lemma_empty_message_is_fallback(error: ErrorView)
    requires
        well_formed(error),
        error.message.len() == 0,
    ensures
        is_fallback(error),
        !is_table_row(error),
{
    assert forall|known: KnownError| #[trigger] known@ != error by {
        crate::known_error::lemma_row_is_complete(known);
    }
}

} // verus!
