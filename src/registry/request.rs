//! The decisions of the HTTP client: how a response is classified, and what the
//! request loop does next (return, follow a redirect, retry, authenticate, or
//! give up). The caller performs each request and each token fetch.
use super::auth::{
    bearer_of_tokens, bearer_prefix, bearer_result_is, regex_matches, token_pattern, AuthHeaderError,
    BearerConfig,
};
use crate::text::has_prefix;
use vstd::prelude::*;

verus! {

/// How one attempt ended.
#[derive(Clone, Debug)]
pub enum Outcome {
    /// A response to hand back to the caller.
    Success,
    /// A redirect to this location.
    Redirection(String),
    /// The connection could not be made.
    ConnectError,
    /// Any other transport failure.
    TransportError,
    /// A 401 with a bearer challenge.
    AuthFailure(BearerConfig),
    /// A 401 whose challenge could not be read.
    BadChallenge(AuthHeaderError),
    /// A 5xx status.
    ServerError(u16),
}

/// Classifies a response from its status and its `WWW-Authenticate` and
/// `Location` headers: a 401 with a challenge asks for a token, a 3xx with a
/// location redirects, a 5xx is a server error, anything else is returned.
pub fn classify_response(status: u16, www_authenticate: Option<&str>, location: Option<&str>) -> (r: Outcome)
    ensures
        status == 401 && www_authenticate is Some ==> challenge_read(r, www_authenticate->Some_0@),
        !(status == 401 && www_authenticate is Some) && 300 <= status < 400 && location is Some
            ==> (r matches Outcome::Redirection(l) && l@ == location->Some_0@),
        !(status == 401 && www_authenticate is Some) && !(300 <= status < 400 && location is Some)
            && status >= 500 ==> r == Outcome::ServerError(status),
        !(status == 401 && www_authenticate is Some) && !(300 <= status < 400 && location is Some)
            && status < 500 ==> r is Success,
{
    if status == 401 {
        match www_authenticate {
            Some(h) => {
                return match BearerConfig::from_auth_header(h) {
                    Ok(b) => Outcome::AuthFailure(b),
                    Err(e) => Outcome::BadChallenge(e),
                };
            },
            None => {},
        }
    }
    if 300 <= status && status < 400 {
        match location {
            Some(l) => {
                return Outcome::Redirection(l.to_string());
            },
            None => {},
        }
    }
    if status >= 500 {
        Outcome::ServerError(status)
    } else {
        Outcome::Success
    }
}

/// Whether `r` is what reading the challenge header `h` gives (see
/// `BearerConfig::from_auth_header`).
pub open spec fn challenge_read(r: Outcome, h: Seq<char>) -> bool {
    let tokens = regex_matches(token_pattern(), h.subrange(7, h.len() as int));
    match r {
        Outcome::AuthFailure(b) => has_prefix(h, bearer_prefix())
            && bearer_result_is(Ok(b), bearer_of_tokens(tokens)),
        Outcome::BadChallenge(e) => if has_prefix(h, bearer_prefix()) {
            bearer_result_is(Err(e), bearer_of_tokens(tokens))
        } else {
            e == AuthHeaderError::NotBearer
        },
        _ => false,
    }
}

/// Classifies a failure to get any response.
pub fn classify_transport_failure(is_connect: bool) -> (r: Outcome)
    ensures
        is_connect ==> r is ConnectError,
        !is_connect ==> r is TransportError,
{
    if is_connect {
        Outcome::ConnectError
    } else {
        Outcome::TransportError
    }
}

/// What the request loop does next.
#[derive(Clone, Debug)]
pub enum RetryAction {
    /// Hand the response back.
    Return,
    /// Drop the bearer token and retry at this location.
    FollowRedirect(String),
    /// Retry as before.
    Retry,
    /// Fetch a token for this challenge, then retry.
    Authenticate(BearerConfig),
    /// Give up with the last outcome.
    Fail,
}

/// The counters of the request loop: attempts made after the first, and
/// token fetches, each against its own budget.
#[derive(Clone, Copy, Debug, PartialEq, Eq, Structural)]
pub struct RetryState {
    pub attempt: usize,
    pub auth_attempt: usize,
    pub retries: usize,
    pub auth_retries: usize,
}

/// Whether an outcome ends the loop whatever the budgets.
pub open spec fn is_terminal(o: Outcome) -> bool {
    o is TransportError || o is BadChallenge
}

impl RetryState {
    /// The counters before the first attempt; `retries` extra attempts are
    /// allowed, and `max(retries, 3)` token fetches.
    pub fn new(retries: usize) -> (r: RetryState)
        ensures
            r.attempt == 0,
            r.auth_attempt == 0,
            r.retries == retries,
            r.auth_retries == if retries > 3 { retries } else { 3 },
    {
        RetryState { attempt: 0, auth_attempt: 0, retries, auth_retries: if retries > 3 { retries } else { 3 } }
    }

    /// Decides what follows an attempt. Redirects, connection failures and
    /// server errors spend an attempt of the main budget; a challenge spends a
    /// token fetch of its own budget and no attempt. A failure whose budget is
    /// spent gives up.
    pub fn on_outcome(&mut self, outcome: Outcome) -> (r: RetryAction)
        ensures
            outcome is Success ==> r is Return && *final(self) == *old(self),
            !(outcome is Success) && (!budget_left(*old(self), outcome) || is_terminal(outcome))
                ==> r is Fail && *final(self) == *old(self),
            outcome is AuthFailure && old(self).auth_attempt < old(self).auth_retries ==> r is Authenticate,
            !(outcome is Success) && budget_left(*old(self), outcome) && !is_terminal(outcome) ==> {
                &&& match outcome {
                    Outcome::Redirection(l) => r == RetryAction::FollowRedirect(l),
                    Outcome::AuthFailure(b) => r == RetryAction::Authenticate(b),
                    _ => r is Retry,
                }
                &&& final(self).retries == old(self).retries
                &&& final(self).auth_retries == old(self).auth_retries
                &&& if outcome is AuthFailure {
                    final(self).attempt == old(self).attempt && final(self).auth_attempt == old(self).auth_attempt + 1
                } else {
                    final(self).attempt == old(self).attempt + 1 && final(self).auth_attempt == old(self).auth_attempt
                }
            },
    {
        match outcome {
            Outcome::Success => RetryAction::Return,
            Outcome::AuthFailure(b) => {
                if self.auth_attempt >= self.auth_retries {
                    return RetryAction::Fail;
                }
                self.auth_attempt = self.auth_attempt + 1;
                RetryAction::Authenticate(b)
            },
            Outcome::Redirection(l) => {
                if self.attempt >= self.retries {
                    return RetryAction::Fail;
                }
                self.attempt = self.attempt + 1;
                RetryAction::FollowRedirect(l)
            },
            Outcome::ConnectError | Outcome::ServerError(_) => {
                if self.attempt >= self.retries {
                    return RetryAction::Fail;
                }
                self.attempt = self.attempt + 1;
                RetryAction::Retry
            },
            _ => RetryAction::Fail,
        }
    }
}

/// Whether the budget that an outcome spends has room left: token fetches for
/// a challenge, attempts for anything else.
pub open spec fn budget_left(s: RetryState, o: Outcome) -> bool {
    if o is AuthFailure {
        s.auth_attempt < s.auth_retries
    } else {
        s.attempt < s.retries
    }
}

/// A URI split into the parts the client works with.
#[derive(Clone, Debug)]
pub struct UriParts {
    pub scheme: Option<String>,
    pub authority: Option<String>,
    pub path_and_query: Option<String>,
}

/// The URI to retry at after a redirect: the new one when it names a host,
/// else the previous scheme and authority with the new path and query.
pub fn rebase_redirect(current: &UriParts, location: &UriParts) -> (r: UriParts)
    ensures
        location.authority is Some ==> r == *location,
        location.authority is None ==> r == (UriParts {
            scheme: current.scheme,
            authority: current.authority,
            path_and_query: location.path_and_query,
        }),
{
    if location.authority.is_some() {
        UriParts {
            scheme: location.scheme.clone(),
            authority: location.authority.clone(),
            path_and_query: location.path_and_query.clone(),
        }
    } else {
        UriParts {
            scheme: current.scheme.clone(),
            authority: current.authority.clone(),
            path_and_query: location.path_and_query.clone(),
        }
    }
}

} // verus!
