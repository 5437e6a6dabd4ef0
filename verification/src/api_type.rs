//! Identifiers that correlate a response with a request or a subscription.
//!
//! On the wire an identifier is a number or the text of a UUID. Here a UUID
//! is held as its 128-bit value.

use vstd::prelude::*;

verus! {

/// The identifier that a client gave to a request.
#[derive(Clone, Copy, Debug, PartialEq, Eq, Hash)]
pub enum ReqID {
    /// A number.
    ReqIDInt(u64),
    /// A UUID, as its 128-bit value.
    ReqIDUUID(u128),
}

/// The identifier that the server gave to a subscription.
#[derive(Clone, Copy, Debug, PartialEq, Eq, Hash)]
pub enum SubscriptionID {
    /// A number.
    SubscriptionIDInt(u64),
    /// A UUID, as its 128-bit value.
    SubscriptionIDUUID(u128),
}

} // verus!
