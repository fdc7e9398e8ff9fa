//! The authentication middleware that the server installs: requests to
//! routes other than registering and logging in must carry a valid bearer
//! token, and the authenticated account's uuid goes with the request.

use vstd::prelude::*;

use std::rc::Rc;

use crate::gate::{authorize_at, gate, is_authorization_of, is_gate_for, Decision, Gate};
use crate::token::{now_seconds, TokenError, UserToken};

verus! {

/// The middleware's factory.
pub struct Auth;

/// The middleware around the service `S` that it guards.
pub struct AuthMiddleware<S> {
    service: Rc<S>,
}

impl Auth {
    /// Wraps `service` in the middleware.
    pub fn new_transform<S>(&self, service: S) -> (m: AuthMiddleware<S>)
        ensures
            *m.guarded() == service,
    {
        AuthMiddleware { service: Rc::new(service) }
    }
}

impl<S> AuthMiddleware<S> {
    /// The guarded service.
    pub closed spec fn guarded(&self) -> Rc<S> {
        self.service
    }

    /// The guarded service, shared.
    pub fn service(&self) -> (r: &Rc<S>)
        ensures
            *r == self.guarded(),
    {
        &self.service
    }

    /// The first look at a request for `path` with the given
    /// `Authorization` header value: a request without the header is
    /// answered with an empty 401.
    pub fn call(&self, path: &str, authorization: Option<&[u8]>) -> (g: Gate)
        ensures
            is_gate_for(
                path@,
                match authorization {
                    Some(h) => Some(h@),
                    None => None,
                },
                None,
                g,
            ),
    {
        gate(path, authorization, None)
    }

    /// What becomes of a request whose token read as `decoded`, at time
    /// `now` (Unix seconds): a valid token forwards the request with the
    /// account's uuid attached.
    pub fn authorize_at(&self, decoded: Result<UserToken, TokenError>, now: i64) -> (d: Decision)
        ensures
            is_authorization_of(decoded, now as int, true, d),
    {
        authorize_at(decoded, now, true)
    }

    /// What becomes of a request whose token read as `decoded`, now.
    pub fn authorize(&self, decoded: Result<UserToken, TokenError>) -> (d: Decision)
        ensures
            exists|now: int|
                0 <= now <= 10_000_000_000_000 && is_authorization_of(
                    decoded,
                    now,
                    true,
                    d,
                ),
    {
        let now = now_seconds();
        self.authorize_at(decoded, now)
    }
}

} // verus!
