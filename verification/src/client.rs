//! The upstream API client's decisions: how a limiter answer holds back a
//! request, which URL a call aims at, and what each response status means.
//! The HTTP traffic itself stays at the boundary, which consults these
//! before sending and after receiving.
use vstd::prelude::*;

verus! {

use vstd::string::StringExecFns;
use crate::limiter::{LimiterOutcome, RateLimiterError};

/// What a call through the client can fail with.
#[derive(Debug, Clone)]
pub enum ClientError {
    /// The response carried this unexpected status.
    HttpError(u16),
    /// The request never went out.
    SendFailed,
    /// The response body did not decode to the typed shape.
    DeserializeError,
    /// The caller hit a rate limit.
    RateLimited,
    /// The response's rate-limit headers could not be read, or the limiter
    /// refused the update.
    RateLimiterRuleError(RateLimiterError),
    /// Authentication is missing or was rejected.
    AuthError,
    /// The request was malformed.
    BadRequest,
    /// Something inside the client went wrong.
    UnknownError,
}

/// Turns the limiter's answer into the decision before a request: an
/// endpoint the limiter does not know yet proceeds, any other limiter
/// failure aborts the call.
pub fn limiter_verdict(check: Result<LimiterOutcome, RateLimiterError>) -> (r: Result<
    LimiterOutcome,
    ClientError,
>)
    ensures
        check matches Ok(o) ==> r matches Ok(o2) && o2 == o,
        check matches Err(e) ==> (match e {
            RateLimiterError::UnknownEndpoint(_) => r matches Ok(o2) && o2
                == LimiterOutcome::Proceed,
            _ => r matches Err(ce) && ce is UnknownError,
        }),
{
    match check {
        Ok(o) => Ok(o),
        Err(e) => match e {
            RateLimiterError::UnknownEndpoint(_) => Ok(LimiterOutcome::Proceed),
            _ => Err(ClientError::UnknownError),
        },
    }
}

/// The URL of the public-stash endpoint, with the change-id cursor when one
/// is given.
pub fn stash_url(next_change_id: Option<&str>) -> (url: String)
    ensures
        (match next_change_id {
            Some(id) => url@ == "https://api.pathofexile.com/public-stash-tabs?id="@ + id@,
            None => url@ == "https://api.pathofexile.com/public-stash-tabs"@,
        }),
{
    match next_change_id {
        Some(id) => {
            let mut url = String::from_str("https://api.pathofexile.com/public-stash-tabs?id=");
            url.append(id);
            url
        },
        None => String::from_str("https://api.pathofexile.com/public-stash-tabs"),
    }
}

/// The URL the token exchange posts to.
pub fn oauth_token_url() -> (url: String)
    ensures
        url@ == "https://www.pathofexile.com/oauth/token"@,
{
    String::from_str("https://www.pathofexile.com/oauth/token")
}

/// What a public-stash response status means: 200 decodes, 401 is an
/// authentication failure, anything else surfaces its status.
pub fn stashes_status_error(status: u16) -> (r: Option<ClientError>)
    ensures
        status == 200 ==> r is None,
        status == 401 ==> (r matches Some(e) && e is AuthError),
        status != 200 && status != 401 ==> (r matches Some(e) && e matches ClientError::HttpError(
            s,
        ) && s == status),
{
    if status == 200 {
        None
    } else if status == 401 {
        Some(ClientError::AuthError)
    } else {
        Some(ClientError::HttpError(status))
    }
}

/// What a token-exchange response status means: only 200 carries a token.
pub fn authorize_status_error(status: u16) -> (r: Option<ClientError>)
    ensures
        status == 200 ==> r is None,
        status != 200 ==> (r matches Some(e) && e matches ClientError::HttpError(s) && s
            == status),
{
    if status == 200 {
        None
    } else {
        Some(ClientError::HttpError(status))
    }
}

/// The bearer token a stash call needs; a client that never authorized must
/// fail the call instead of sending it.
pub fn require_token<'a>(token: &'a Option<String>) -> (r: Result<&'a String, ClientError>)
    ensures
        r is Ok <==> token is Some,
        r matches Ok(t) ==> t@ == token->0@,
        r matches Err(e) ==> e is AuthError,
{
    match token {
        Some(t) => Ok(t),
        None => Err(ClientError::AuthError),
    }
}

} // verus!
