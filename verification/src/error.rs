//! Outer layer of the error taxonomy: the call itself gave no answer.

use crate::text::join;
use vstd::prelude::*;
use vstd::std_specs::convert::FromSpecImpl;
use vstd::string::*;

verus! {

/// `reqwest::Error`, carried through the library as an opaque value.
#[verifier::external_type_specification]
#[verifier::external_body]
pub struct ExTransportError(reqwest::Error);

/// A call that did not yield an answer from the API.
#[derive(Debug)]
pub enum HttpError {
    /// The request could not be sent, or the response could not be read or
    /// decoded.
    RequestFailed(reqwest::Error),
    /// The server answered with a status of 500 or above; the raw body text
    /// is kept for diagnostics.
    InternalServerError(String),
    /// The server answered with status 429.
    RateLimited,
}

impl From<reqwest::Error> for HttpError {
    fn from(e: reqwest::Error) -> (r: HttpError) {
        HttpError::RequestFailed(e)
    }
}

impl FromSpecImpl<reqwest::Error> for HttpError {
    open spec fn obeys_from_spec() -> bool {
        true
    }

    open spec fn from_spec(e: reqwest::Error) -> HttpError {
        HttpError::RequestFailed(e)
    }
}

/// The text that announces a request that failed for the reason `detail`.
pub open spec fn request_failed_text(detail: Seq<char>) -> Seq<char> {
    "Request failed: "@ + detail
}

/// The text that announces a server fault with the response text `why`.
pub open spec fn server_fault_text(why: Seq<char>) -> Seq<char> {
    "Internal server error: "@ + why
}

/// The text that announces rate limiting.
pub open spec fn rate_limited_text() -> Seq<char> {
    "KSoft server responded with code 429 (Ratelimited)"@
}

/// Announces a request that failed for the reason `detail`.
pub fn describe_request_failure(detail: &str) -> (text: String)
    ensures
        text@ == request_failed_text(detail@),
{
    join("Request failed: ", detail)
}

impl HttpError {
    /// Human-readable description of the error. For a request that failed,
    /// the reason is what the transport's error displays.
    pub fn to_string(&self) -> (text: String)
        ensures
            self matches HttpError::RequestFailed(why) ==> exists|detail: String|
                to_string_from_display_ensures::<reqwest::Error>(why, detail) && text@
                    == request_failed_text(detail@),
            self matches HttpError::InternalServerError(why) ==> text@ == server_fault_text(why@),
            self is RateLimited ==> text@ == rate_limited_text(),
    {
        match self {
            HttpError::RequestFailed(why) => {
                let detail = why.to_string();
                describe_request_failure(detail.as_str())
            },
            HttpError::InternalServerError(why) => join("Internal server error: ", why.as_str()),
            HttpError::RateLimited => String::from_str(
                "KSoft server responded with code 429 (Ratelimited)",
            ),
        }
    }
}

} // verus!
