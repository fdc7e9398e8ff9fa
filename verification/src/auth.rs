//! The first form of the authentication middleware. It decides as the
//! installed one does, except that it answers a request without an
//! `Authorization` header with an explanation, and forwards an
//! authenticated request without attaching the account's uuid.

use vstd::prelude::*;

use crate::gate::{authorize_at, gate, is_authorization_of, is_gate_for, Decision, Gate};
use crate::token::{now_seconds, TokenError, UserToken};

verus! {

/// The middleware's factory.
pub struct Authentication;

/// The middleware around the service `S` that it guards.
pub struct AuthenticationMiddleware<S> {
    service: S,
}

/// The body of the answer to a request without an `Authorization` header.
pub open spec fn missing_header_body() -> Seq<char> {
    "We did not find an authentication header."@
}

impl Authentication {
    /// Wraps `service` in the middleware.
    pub fn new_transform<S>(&self, service: S) -> (m: AuthenticationMiddleware<S>)
        ensures
            m.guarded() == service,
    {
        AuthenticationMiddleware { service }
    }
}

impl<S> AuthenticationMiddleware<S> {
    /// The guarded service.
    pub closed spec fn guarded(&self) -> S {
        self.service
    }

    /// The guarded service.
    pub fn service(&self) -> (r: &S)
        ensures
            *r == self.guarded(),
    {
        &self.service
    }

    /// The first look at a request for `path` with the given
    /// `Authorization` header value.
    pub fn call(&self, path: &str, authorization: Option<&[u8]>) -> (g: Gate)
        ensures
            is_gate_for(
                path@,
                match authorization {
                    Some(h) => Some(h@),
                    None => None,
                },
                Some(missing_header_body()),
                g,
            ),
    {
        let missing = "We did not find an authentication header.";
        gate(path, authorization, Some(missing))
    }

    /// What becomes of a request whose token read as `decoded`, at time
    /// `now` (Unix seconds): a valid token forwards the request unchanged.
    pub fn authorize_at(&self, decoded: Result<UserToken, TokenError>, now: i64) -> (d: Decision)
        ensures
            is_authorization_of(decoded, now as int, false, d),
    {
        authorize_at(decoded, now, false)
    }

    /// What becomes of a request whose token read as `decoded`, now.
    pub fn authorize(&self, decoded: Result<UserToken, TokenError>) -> (d: Decision)
        ensures
            exists|now: int|
                0 <= now <= 10_000_000_000_000 && is_authorization_of(
                    decoded,
                    now,
                    false,
                    d,
                ),
    {
        let now = now_seconds();
        self.authorize_at(decoded, now)
    }
}

} // verus!
