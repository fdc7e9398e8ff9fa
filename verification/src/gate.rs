//! The decisions of the authentication middleware, shared by both of its
//! forms. A request is first looked at without any token work (`gate`):
//! routes that need no authentication pass, requests without a usable
//! `Authorization: Bearer <token>` header are turned away, and the rest
//! name the token to check. Once the token's claims have been read, the
//! second step (`authorize_at`) turns away undecodable or expired tokens and
//! forwards the others.

use vstd::prelude::*;

use crate::routes::{ignores, is_ignored_route, IGNORE_ROUTES};
use crate::text::{chars_of, chars_start_with, concat_strs, is_prefix_of, trim, trim_chars};
use crate::token::{TokenError, UserToken, ONE_WEEK};

verus! {

/// What the first look at a request decides.
#[derive(Debug)]
pub enum Gate {
    /// The route needs no authentication: forward the request unchanged.
    Pass,
    /// Answer 401 Unauthorized, with this body (none: an empty answer).
    Reject(Option<String>),
    /// Check this bearer token.
    Verify(String),
}

/// What the middleware finally does with a request whose token was read.
#[derive(Debug)]
pub enum Decision {
    /// Forward the request unchanged.
    Forward,
    /// Forward the request, attaching the authenticated account's uuid.
    ForwardAs(String),
    /// Answer 401 Unauthorized, with this body (none: an empty answer).
    Reject(Option<String>),
}

/// A byte that may stand in a header value read as text: visible ASCII or
/// a tab (`http::HeaderValue::to_str`).
pub open spec fn is_visible_ascii(b: u8) -> bool {
    (32 <= b && b < 127) || b == 9
}

/// Every byte of the header value may stand in text.
pub open spec fn is_header_text(h: Seq<u8>) -> bool {
    forall|i: int| 0 <= i < h.len() ==> is_visible_ascii(#[trigger] h[i])
}

/// The header value's bytes as characters.
pub open spec fn header_text(h: Seq<u8>) -> Seq<char> {
    h.map_values(|b: u8| b as char)
}

/// The text starts with the `Bearer` scheme, capitalised or not.
pub open spec fn has_bearer_prefix(s: Seq<char>) -> bool {
    is_prefix_of("Bearer"@, s) || is_prefix_of("bearer"@, s)
}

/// The body for a header value that is not text.
pub open spec fn not_text_body() -> Seq<char> {
    "The authorization header doesn't seem to be stringifyable"@
}

/// The body for a header value without the bearer scheme.
pub open spec fn not_bearer_body() -> Seq<char> {
    "The authorization header doesn't start with 'bearer'"@
}

/// The body for a token that could not be read, before the error's message.
pub open spec fn undecodable_prefix() -> Seq<char> {
    "Could not decode the token: "@
}

/// The body for an expired token.
pub open spec fn invalid_token_body() -> Seq<char> {
    "Invalid Token"@
}

/// `g` is the first look at a request for `path` with the given
/// `Authorization` header value; `missing` is the body of the answer to a
/// request without one.
pub open spec fn is_gate_for(
    path: Seq<char>,
    authorization: Option<Seq<u8>>,
    missing: Option<Seq<char>>,
    g: Gate,
) -> bool {
    if is_ignored_route(path) {
        g is Pass
    } else {
        match authorization {
            None => match missing {
                None => g matches Gate::Reject(None),
                Some(m) => g matches Gate::Reject(Some(b)) && b@ == m,
            },
            Some(h) => if !is_header_text(h) {
                g matches Gate::Reject(Some(b)) && b@ == not_text_body()
            } else if !has_bearer_prefix(header_text(h)) {
                g matches Gate::Reject(Some(b)) && b@ == not_bearer_body()
            } else {
                g matches Gate::Verify(t) && t@ == trim(header_text(h).skip(6))
            },
        }
    }
}

/// `d` is what becomes of a request whose token read as `decoded`, at time
/// `now`; `attach` says whether the account's uuid goes with a forwarded
/// request.
pub open spec fn is_authorization_of(
    decoded: Result<UserToken, TokenError>,
    now: int,
    attach: bool,
    d: Decision,
) -> bool {
    match decoded {
        Err(e) => d matches Decision::Reject(Some(b)) && b@ == undecodable_prefix() + e.message@,
        Ok(t) => if now < t.exp {
            if attach {
                d matches Decision::ForwardAs(u) && u@ == t.uuid@
            } else {
                d is Forward
            }
        } else {
            d matches Decision::Reject(Some(b)) && b@ == invalid_token_body()
        },
    }
}

/// The header value as text (`http::HeaderValue::to_str`): its bytes as
/// characters when all of them may stand in text.
pub fn header_to_text(h: &[u8]) -> (r: Option<Vec<char>>)
    ensures
        r is Some <==> is_header_text(h@),
        r matches Some(cs) ==> cs@ == header_text(h@),
{
    let mut cs: Vec<char> = Vec::new();
    let mut i: usize = 0;
    while i < h.len()
        invariant
            i <= h@.len(),
            forall|k: int| 0 <= k < i ==> is_visible_ascii(#[trigger] h@[k]),
            cs@ == header_text(h@.take(i as int)),
        decreases h.len() - i,
    {
        let b = h[i];
        if !((32 <= b && b < 127) || b == 9) {
            return None;
        }
        cs.push(b as char);
        assert(header_text(h@.take(i as int + 1)) =~= header_text(h@.take(i as int)).push(
            b as char,
        ));
        i = i + 1;
    }
    assert(h@.take(h@.len() as int) =~= h@);
    Some(cs)
}

/// The first look at a request for `path` whose `Authorization` header is
/// `authorization`; `missing` is the body of the answer to a request
/// without one.
pub fn gate(path: &str, authorization: Option<&[u8]>, missing: Option<&str>) -> (g: Gate)
    ensures
        is_gate_for(
            path@,
            match authorization {
                Some(h) => Some(h@),
                None => None,
            },
            match missing {
                Some(m) => Some(m@),
                None => None,
            },
            g,
        ),
{
    if ignores(path) {
        return Gate::Pass;
    }
    let h = match authorization {
        Some(h) => h,
        None => {
            return match missing {
                Some(m) => Gate::Reject(Some(String::from_str(m))),
                None => Gate::Reject(None),
            };
        },
    };
    let text = match header_to_text(h) {
        Some(cs) => cs,
        None => {
            return Gate::Reject(
                Some(String::from_str("The authorization header doesn't seem to be stringifyable")),
            );
        },
    };
    let upper = chars_of("Bearer");
    let lower = chars_of("bearer");
    if !chars_start_with(text.as_slice(), upper.as_slice()) && !chars_start_with(
        text.as_slice(),
        lower.as_slice(),
    ) {
        return Gate::Reject(
            Some(String::from_str("The authorization header doesn't start with 'bearer'")),
        );
    }
    proof {
        reveal_strlit("Bearer");
        reveal_strlit("bearer");
    }
    assert(text@.len() >= 6);
    Gate::Verify(trim_chars(text.as_slice(), 6))
}

/// What becomes of a request whose token read as `decoded`, at time `now`
/// (Unix seconds); `attach` says whether the account's uuid goes with a
/// forwarded request.
pub fn authorize_at(decoded: Result<UserToken, TokenError>, now: i64, attach: bool) -> (d: Decision)
    ensures
        is_authorization_of(decoded, now as int, attach, d),
{
    match decoded {
        Err(e) => Decision::Reject(Some(concat_strs("Could not decode the token: ", e.message.as_str()))),
        Ok(t) => {
            if !t.is_still_valid_at(now) {
                Decision::Reject(Some(String::from_str("Invalid Token")))
            } else if attach {
                Decision::ForwardAs(t.uuid)
            } else {
                Decision::Forward
            }
        },
    }
}

/// Requests to the registration and login routes are let through, with
/// any `Authorization` header or none.
pub proof fn lemma_open_routes_pass(
    path: Seq<char>,
    authorization: Option<Seq<u8>>,
    missing: Option<Seq<char>>,
    g: Gate,
)
    requires
        is_prefix_of("/api/register"@, path) || is_prefix_of("/api/login"@, path),
        is_gate_for(path, authorization, missing, g),
    ensures
        g is Pass,
{
    if is_prefix_of("/api/register"@, path) {
        assert(IGNORE_ROUTES@[0] == "/api/register");
    } else {
        assert(IGNORE_ROUTES@[1] == "/api/login");
    }
}

/// A request to any other route without an `Authorization` header is
/// turned away.
pub proof fn lemma_guarded_route_needs_header(path: Seq<char>, missing: Option<Seq<char>>, g: Gate)
    requires
        !is_ignored_route(path),
        is_gate_for(path, None, missing, g),
    ensures
        g is Reject,
{
}

/// A token issued at `issued` for an account forwards a request with that
/// account's uuid exactly while `now` is within a week of `issued`;
/// afterwards the request is turned away as carrying an invalid token.
pub proof fn lemma_issued_token_lifetime(
    account: Seq<char>,
    t: UserToken,
    issued: i64,
    now: int,
    d: Decision,
)
    requires
        t.iat == issued,
        t.exp == issued + ONE_WEEK,
        t.uuid@ == account,
        is_authorization_of(Ok(t), now, true, d),
    ensures
        now < issued + ONE_WEEK ==> (d matches Decision::ForwardAs(u) && u@ == account),
        now >= issued + ONE_WEEK ==> (d matches Decision::Reject(Some(b)) && b@
            == invalid_token_body()),
{
}

} // verus!
