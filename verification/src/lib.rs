//! Error responses of a vehicle information service.
//!
//! A server that answers typed actions (authorize, get, set, subscribe and
//! the like) reports a failed action as an error response: an envelope that
//! is tagged with the action and carries an error of three parts, a status
//! number, a reason for machines and a message for people.

pub mod api_error;
pub mod api_type;
pub mod clock;
pub mod known_error;
pub mod response;
pub mod status;

pub use clock::unix_timestamp_ms;
