//! The typed dispatcher: from what the transport observed for one request
//! to the classified outcome.

use crate::error::HttpError;
use vstd::pervasive::unreached;
use vstd::prelude::*;

verus! {

/// Answer of the API to a call that completed: the success record, or the
/// failure record that the service reported.
pub type ApiResponse<S, E> = Result<S, E>;

/// Outcome of one call: the outer layer says whether the call completed,
/// the inner layer what the service answered.
pub type HttpResult<S, E> = Result<ApiResponse<S, E>, HttpError>;

/// What the status code of a response says has to be done with its body.
#[derive(Clone, Copy, Debug, PartialEq, Eq, Structural)]
pub enum Disposition {
    /// Status 429: the body is ignored.
    RateLimited,
    /// Status 500 or above: the body is kept as raw text.
    ServerFault,
    /// Status 200: the body is decoded as the success record.
    Success,
    /// Any other status: the body is decoded as the failure record.
    Failure,
}

/// Classification of a status code; the first matching rule wins.
pub open spec fn disposition_of(status: u16) -> Disposition {
    if status == 429 {
        Disposition::RateLimited
    } else if status >= 500 {
        Disposition::ServerFault
    } else if status == 200 {
        Disposition::Success
    } else {
        Disposition::Failure
    }
}

/// Classifies a status code.
pub fn disposition(status: u16) -> (d: Disposition)
    ensures
        d == disposition_of(status),
{
    if status == 429 {
        Disposition::RateLimited
    } else if status >= 500 {
        Disposition::ServerFault
    } else if status == 200 {
        Disposition::Success
    } else {
        Disposition::Failure
    }
}

/// What was read from the body of a response.
#[derive(Debug)]
pub enum Payload<S, E> {
    /// The body was left unread.
    Skipped,
    /// The body as raw text.
    Text(String),
    /// The body decoded as the success record.
    Success(S),
    /// The body decoded as the failure record.
    Failure(E),
}

/// Whether `body` is a reading that `disposition` asks for. A failed reading
/// fits every disposition, and under `RateLimited` the body is not looked at.
pub open spec fn fits<S, E>(
    disposition: Disposition,
    body: Result<Payload<S, E>, reqwest::Error>,
) -> bool {
    match body {
        Err(_) => true,
        Ok(payload) => match disposition {
            Disposition::RateLimited => true,
            Disposition::ServerFault => payload is Text,
            Disposition::Success => payload is Success,
            Disposition::Failure => payload is Failure,
        },
    }
}

/// A response as the transport observed it: the status code, and the body
/// read as the status code's disposition asks.
#[derive(Debug)]
pub struct Response<S, E> {
    status: u16,
    body: Result<Payload<S, E>, reqwest::Error>,
}

impl<S, E> Response<S, E> {
    #[verifier::type_invariant]
    spec fn well_formed(self) -> bool {
        fits(disposition_of(self.status), self.body)
    }

    /// The status code of the response.
    pub closed spec fn status(self) -> u16 {
        self.status
    }

    /// What reading the body gave.
    pub closed spec fn body(self) -> Result<Payload<S, E>, reqwest::Error> {
        self.body
    }

    /// The response with this status and body; `None` if the body is not a
    /// reading that the status asks for.
    pub fn new(status: u16, body: Result<Payload<S, E>, reqwest::Error>) -> (r: Option<Self>)
        ensures
            r is Some <==> fits(disposition_of(status), body),
            r matches Some(response) ==> response.status() == status && response.body() == body,
    {
        let fitting = match &body {
            Err(_) => true,
            Ok(payload) => match disposition(status) {
                Disposition::RateLimited => true,
                Disposition::ServerFault => match payload {
                    Payload::Text(_) => true,
                    _ => false,
                },
                Disposition::Success => match payload {
                    Payload::Success(_) => true,
                    _ => false,
                },
                Disposition::Failure => match payload {
                    Payload::Failure(_) => true,
                    _ => false,
                },
            },
        };
        if fitting {
            Some(Response { status, body })
        } else {
            None
        }
    }
}

/// The outcome that the classification rules give for what the transport
/// observed, where `sent` is `Err` when no response arrived. The rules, of
/// which the first that matches wins: no response is a transport failure;
/// status 429 is rate limiting, whatever the body; status 500 or above is a
/// server fault that keeps the raw text; status 200 completes with the
/// success record; any other status completes with the failure record. A
/// body that could not be read or decoded is a transport failure. `None`
/// where the body is not a reading that the status asks for.
pub open spec fn outcome_of<S, E>(sent: Result<Response<S, E>, reqwest::Error>) -> Option<
    HttpResult<S, E>,
> {
    match sent {
        Err(e) => Some(Err(HttpError::RequestFailed(e))),
        Ok(response) => match disposition_of(response.status()) {
            Disposition::RateLimited => Some(Err(HttpError::RateLimited)),
            Disposition::ServerFault => match response.body() {
                Ok(Payload::Text(text)) => Some(Err(HttpError::InternalServerError(text))),
                Err(e) => Some(Err(HttpError::RequestFailed(e))),
                _ => None,
            },
            Disposition::Success => match response.body() {
                Ok(Payload::Success(data)) => Some(Ok(Ok(data))),
                Err(e) => Some(Err(HttpError::RequestFailed(e))),
                _ => None,
            },
            Disposition::Failure => match response.body() {
                Ok(Payload::Failure(err)) => Some(Ok(Err(err))),
                Err(e) => Some(Err(HttpError::RequestFailed(e))),
                _ => None,
            },
        },
    }
}

/// The five kinds of outcome.
#[derive(Clone, Copy, Debug, PartialEq, Eq, Structural)]
pub enum OutcomeKind {
    /// No answer: the request or the reading of the response failed.
    TransportFailure,
    /// The server refused the call with status 429.
    RateLimited,
    /// The server failed with status 500 or above.
    ServerFault,
    /// The call completed and the service answered with the success record.
    CompletedOk,
    /// The call completed and the service reported a failure.
    CompletedErr,
}

/// Whether `r` is an outcome of kind `kind`.
pub open spec fn is_of_kind<S, E>(r: HttpResult<S, E>, kind: OutcomeKind) -> bool {
    match kind {
        OutcomeKind::TransportFailure => r matches Err(HttpError::RequestFailed(_)),
        OutcomeKind::RateLimited => r matches Err(HttpError::RateLimited),
        OutcomeKind::ServerFault => r matches Err(HttpError::InternalServerError(_)),
        OutcomeKind::CompletedOk => r matches Ok(Ok(_)),
        OutcomeKind::CompletedErr => r matches Ok(Err(_)),
    }
}

/// Classifies what the transport observed for one request: `sent` is the
/// response, or the error that kept it from arriving.
pub fn make_request<S, E>(sent: Result<Response<S, E>, reqwest::Error>) -> (r: HttpResult<S, E>)
    ensures
        outcome_of(sent) == Some(r),
        // No response: a transport failure that carries the error.
        sent matches Err(e) ==> r matches Err(HttpError::RequestFailed(cause)) && cause == e,
        // Status 429: rate limited, whatever the body.
        sent matches Ok(response) ==> (response.status() == 429 ==> r matches Err(
            HttpError::RateLimited,
        )),
        // Status 500 to 599: a server fault that keeps the text as it was
        // read, unless reading it failed.
        sent matches Ok(response) ==> (500 <= response.status() <= 599 ==> (r matches Err(
            HttpError::InternalServerError(_),
        ) <==> response.body() is Ok)),
        sent matches Ok(response) ==> (500 <= response.status() <= 599 ==> (
        response.body() matches Ok(Payload::Text(text)) ==> r matches Err(
            HttpError::InternalServerError(kept),
        ) && kept == text)),
        // Status 200: completed with the success record if and only if the
        // body was decoded; else a transport failure.
        sent matches Ok(response) ==> (response.status() == 200 ==> (r matches Ok(Ok(_))
            <==> response.body() is Ok)),
        sent matches Ok(response) ==> (response.status() == 200 ==> (
        response.body() matches Ok(Payload::Success(data)) ==> r matches Ok(Ok(answer))
            && answer == data)),
        sent matches Ok(response) ==> (response.status() == 200 ==> (
        response.body() matches Err(e) ==> r matches Err(HttpError::RequestFailed(cause))
            && cause == e)),
        // Any other status: completed with the failure record if and only
        // if the body was decoded; else a transport failure.
        sent matches Ok(response) ==> (disposition_of(response.status()) is Failure ==> (
        r matches Ok(Err(_)) <==> response.body() is Ok)),
        sent matches Ok(response) ==> (disposition_of(response.status()) is Failure ==> (
        response.body() matches Ok(Payload::Failure(err)) ==> r matches Ok(Err(answer))
            && answer == err)),
{
    match sent {
        Err(e) => Err(HttpError::from(e)),
        Ok(response) => {
            proof {
                use_type_invariant(&response);
            }
            let Response { status, body } = response;
            match disposition(status) {
                Disposition::RateLimited => Err(HttpError::RateLimited),
                _ => match body {
                    Err(e) => Err(HttpError::from(e)),
                    Ok(Payload::Text(text)) => Err(HttpError::InternalServerError(text)),
                    Ok(Payload::Success(data)) => Ok(Ok(data)),
                    Ok(Payload::Failure(err)) => Ok(Err(err)),
                    Ok(Payload::Skipped) => unreached(),
                },
            }
        },
    }
}

/// Every outcome is of exactly one of the five kinds.
pub proof fn lemma_exactly_one_kind<S, E>(r: HttpResult<S, E>)
    ensures
        exists|kind: OutcomeKind| is_of_kind(r, kind),
        forall|a: OutcomeKind, b: OutcomeKind| is_of_kind(r, a) && is_of_kind(r, b) ==> a == b,
{
    match r {
        Err(HttpError::RequestFailed(_)) => {
            assert(is_of_kind(r, OutcomeKind::TransportFailure));
        },
        Err(HttpError::RateLimited) => {
            assert(is_of_kind(r, OutcomeKind::RateLimited));
        },
        Err(HttpError::InternalServerError(_)) => {
            assert(is_of_kind(r, OutcomeKind::ServerFault));
        },
        Ok(Ok(_)) => {
            assert(is_of_kind(r, OutcomeKind::CompletedOk));
        },
        Ok(Err(_)) => {
            assert(is_of_kind(r, OutcomeKind::CompletedErr));
        },
    }
}

} // verus!
