//! HTTP status codes and their standard reason phrases.
//!
//! A [`StatusCode`] holds the number of a status code. The reason phrase that
//! belongs to a number is looked up in the `http` crate.

use vstd::prelude::*;

verus! {

/// An HTTP status code: a number between 100 and 999.
#[derive(Clone, Copy, Debug, PartialEq, Eq, Hash)]
pub struct StatusCode {
    code: u16,
}

/// The error of [`StatusCode::from_u16`]: the number is below 100 or above 999.
#[derive(Clone, Copy, Debug, PartialEq, Eq)]
pub struct InvalidStatusCode;

/// The standard reason phrase that the `http` crate knows for the status code
/// `code`, or `None` where it knows none.
pub uninterp spec fn canonical_reason_of(code: u16) -> Option<Seq<char>>;

/// The characters of an optional phrase.
pub open spec fn phrase_view(phrase: Option<&'static str>) -> Option<Seq<char>> {
    match phrase {
        Some(text) => Some(text@),
        None => None,
    }
}

/// The text that stands for an optional phrase: the phrase, or nothing.
pub open spec fn reason_text(phrase: Option<Seq<char>>) -> Seq<char> {
    match phrase {
        Some(text) => text,
        None => Seq::empty(),
    }
}

/// Whether `n` is the number of a status code.
pub open spec fn is_status_number(n: int) -> bool {
    100 <= n <= 999
}

impl View for StatusCode {
    type V = nat;

    closed spec fn view(&self) -> nat {
        self.code as nat
    }
}

impl StatusCode {
    #[verifier::type_invariant]
    spec fn in_range(self) -> bool {
        is_status_number(self.code as int)
    }

    /// The status code with the number `src`, which must lie between 100 and
    /// 999.
    pub fn from_u16(src: u16) -> (r: Result<StatusCode, InvalidStatusCode>)
        ensures
            r is Ok <==> is_status_number(src as int),
            r matches Ok(status) ==> status@ == src,
    {
        if 100 <= src && src <= 999 {
            Ok(StatusCode { code: src })
        } else {
            Err(InvalidStatusCode)
        }
    }

    /// 400 Bad Request.
    pub fn bad_request() -> (status: StatusCode)
        ensures
            status@ == 400,
    {
        StatusCode { code: 400 }
    }

    /// 500 Internal Server Error.
    pub fn internal_server_error() -> (status: StatusCode)
        ensures
            status@ == 500,
    {
        StatusCode { code: 500 }
    }

    /// The number of this status code.
    pub fn as_u16(&self) -> (n: u16)
        ensures
            n == self@,
            is_status_number(n as int),
    {
        proof {
            use_type_invariant(self);
        }
        self.code
    }

    /// The standard reason phrase of this status code, where there is one.
    pub fn canonical_reason(&self) -> (phrase: Option<&'static str>)
        ensures
            phrase_view(phrase) == canonical_reason_of(self@ as u16),
            self@ == 400 ==> phrase_view(phrase) == Some("Bad Request"@),
            self@ == 500 ==> phrase_view(phrase) == Some("Internal Server Error"@),
    {
        lookup_canonical_reason(self.as_u16())
    }
}

/// Makes the `http` crate's status code of the number `code` with
/// `http::StatusCode::from_u16` and calls `http::StatusCode::canonical_reason`
/// on it.
///
/// Trusted: the phrase returned is the one that the `http` crate's table of
/// status codes holds for `code`, or none where the table has no row for it.
/// This library calls it `canonical_reason_of(code)`. Two rows of the table
/// are stated: 400 is "Bad Request" and 500 is "Internal Server Error".
#[verifier::external_body]
fn lookup_canonical_reason(code: u16) -> (phrase: Option<&'static str>)
    requires
        is_status_number(code as int),
    ensures
        phrase_view(phrase) == canonical_reason_of(code),
        code == 400 ==> phrase_view(phrase) == Some("Bad Request"@),
        code == 500 ==> phrase_view(phrase) == Some("Internal Server Error"@),
{
    match http::StatusCode::from_u16(code) {
        Ok(status) => status.canonical_reason(),
        Err(_) => None,
    }
}

/// The reason of an error whose status code has the standard phrase `phrase`:
/// the phrase itself, or the empty string where the status code has none.
pub fn reason_or_empty(phrase: Option<&'static str>) -> (reason: &'static str)
    ensures
        reason@ == reason_text(phrase_view(phrase)),
{
    match phrase {
        Some(text) => text,
        None => {
            proof {
                lemma_empty_literal();
            }
            ""
        },
    }
}

/// The empty string literal has no characters.
pub proof fn lemma_empty_literal()
    ensures
        ""@ == Seq::<char>::empty(),
{
    reveal_strlit("");
    assert(""@ =~= Seq::<char>::empty());
}

} // verus!
