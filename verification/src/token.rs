//! Access tokens: the claims a token carries for a user, their lifetime,
//! and the signed JWT form (HS256, through the `jsonwebtoken` crate). The
//! claims travel as JSON text; turning that text into a `UserToken` and
//! back is serde's work and is done by the program around the library.

use vstd::prelude::*;

use crate::fresh::now_utc_millis;
use crate::user;

verus! {

/// How long a token stays valid, in seconds.
pub const ONE_WEEK: i64 = 60 * 60 * 24 * 7;

/// The claims of an access token.
#[derive(Debug)]
pub struct UserToken {
    /// Issued at (Unix seconds).
    pub iat: i64,
    /// Expires at (Unix seconds).
    pub exp: i64,
    pub username: String,
    /// The account's identifier.
    pub uuid: String,
}

/// Why a token could not be made or read: the `jsonwebtoken` error's
/// message.
#[derive(Debug)]
pub struct TokenError {
    pub message: String,
}

#[verifier::external_type_specification]
#[verifier::external_body]
pub struct ExJwtError(jsonwebtoken::errors::Error);

/// The claims text that a token carries when its HS256 signature verifies
/// under `secret`: the base64url-decoded payload, as `serde_json`'s
/// `RawValue` captures it.
pub uninterp spec fn jwt_verified_claims(token: Seq<char>, secret: Seq<u8>) -> Option<Seq<char>>;

/// What `jsonwebtoken::encode` returns for the default header (HS256),
/// claims given as JSON text, and an HMAC key made from `secret`: the
/// token, or nothing where the text is not JSON.
pub uninterp spec fn jwt_encoded(claims: Seq<char>, secret: Seq<u8>) -> Option<Seq<char>>;

/// Whether `serde_json::value::RawValue::from_string` accepts the text:
/// whether it is one well-formed JSON value.
pub uninterp spec fn json_text_accepted(text: Seq<char>) -> bool;

/// The characters that JSON allows around a value.
pub open spec fn is_json_whitespace(c: char) -> bool {
    c == ' ' || c == '\t' || c == '\n' || c == '\r'
}

/// `s` has no JSON whitespace at either end.
pub open spec fn is_json_trimmed(s: Seq<char>) -> bool {
    s.len() > 0 && !is_json_whitespace(s[0]) && !is_json_whitespace(s.last())
}

/// `jsonwebtoken::decode::<Box<RawValue>>(token, &DecodingKey::from_secret(secret),
/// &Validation::default())`, keeping the claims' JSON text. Besides the
/// signature this checks the `exp` claim against the system clock (with
/// 60 seconds of leeway), so whether it succeeds depends on the time; what
/// holds of every success is that the text is the token's verified claims.
#[verifier::external_body]
fn jwt_decode(token: &str, secret: &[u8]) -> (r: Result<String, jsonwebtoken::errors::Error>)
    ensures
        r matches Ok(c) ==> jwt_verified_claims(token@, secret@) == Some(c@),
{
    match jsonwebtoken::decode::<Box<serde_json::value::RawValue>>(
        token,
        &jsonwebtoken::DecodingKey::from_secret(secret),
        &jsonwebtoken::Validation::default(),
    ) {
        Ok(data) => Ok(data.claims.get().to_string()),
        Err(e) => Err(e),
    }
}

/// `jsonwebtoken::encode(&Header::default(), &claims, &EncodingKey::from_secret(secret))`
/// with the claims text taken as a `serde_json` `RawValue` (which fails on
/// text that is not JSON). The result is named by `jwt_encoded`. The
/// payload of the token is the claims text itself (a `RawValue` is written
/// verbatim, without the whitespace around it), signed with HMAC-SHA256
/// under the same key that decoding checks, so the verified claims of the
/// token are that text; that fact is stated for text without whitespace
/// at its ends. With the default header and an HMAC key, `encode` cannot
/// fail (the key's family matches HS256, serialising the header and a
/// `RawValue` cannot fail, and HMAC signing always succeeds), so the call
/// fails exactly where `RawValue::from_string` refuses the text; that is
/// stated through `json_text_accepted`.
#[verifier::external_body]
fn jwt_encode(claims: &str, secret: &[u8]) -> (r: Result<String, jsonwebtoken::errors::Error>)
    ensures
        r is Ok <==> jwt_encoded(claims@, secret@) is Some,
        r is Ok <==> json_text_accepted(claims@),
        r matches Ok(t) ==> jwt_encoded(claims@, secret@) == Some(t@),
        r matches Ok(t) ==> (is_json_trimmed(claims@) ==> jwt_verified_claims(t@, secret@)
            == Some(claims@)),
{
    match serde_json::value::RawValue::from_string(claims.to_string()) {
        Ok(raw) => jsonwebtoken::encode(
            &jsonwebtoken::Header::default(),
            &raw,
            &jsonwebtoken::EncodingKey::from_secret(secret),
        ),
        Err(e) => Err(jsonwebtoken::errors::Error::from(e)),
    }
}

/// The message of a `jsonwebtoken` error (its `Display` text).
#[verifier::external_body]
fn jwt_error_text(e: &jsonwebtoken::errors::Error) -> String {
    e.to_string()
}

/// `r` is the outcome of reading the claims of `token` under `secret`: on
/// success, the token's verified claims.
pub open spec fn is_decoding_of(token: Seq<char>, secret: Seq<u8>, r: Result<String, TokenError>) -> bool {
    r matches Ok(c) ==> jwt_verified_claims(token, secret) == Some(c@)
}

/// `r` is the outcome of signing the claims text `claims` under `secret`:
/// the token named by `jwt_encoded`, or an error exactly where the text is
/// not one JSON value; a token made from text without whitespace at its
/// ends carries that text as its verified claims.
pub open spec fn is_encoding_of(claims: Seq<char>, secret: Seq<u8>, r: Result<String, TokenError>) -> bool {
    &&& r is Ok <==> jwt_encoded(claims, secret) is Some
    &&& r is Ok <==> json_text_accepted(claims)
    &&& r matches Ok(t) ==> jwt_encoded(claims, secret) == Some(t@)
    &&& r matches Ok(t) ==> (is_json_trimmed(claims) ==> jwt_verified_claims(t@, secret) == Some(
        claims,
    ))
}

/// Whole seconds in `ms` milliseconds, rounding toward zero (Rust's `/`).
pub open spec fn seconds_of_millis(ms: int) -> int {
    if ms >= 0 {
        ms / 1000
    } else {
        -((-ms) / 1000)
    }
}

/// The current time in Unix seconds (UTC): the clock's milliseconds
/// divided by 1000. The clock reading itself is not known to callers, only
/// its range.
pub fn now_seconds() -> (r: i64)
    ensures
        exists|ms: int|
            0 <= ms < 10_000_000_000_000_000 && r == #[trigger] seconds_of_millis(ms),
        0 <= r <= 10_000_000_000_000,
{
    let ms = now_utc_millis();
    // Rust's `/` rounds toward zero.
    let r = if ms >= 0 {
        ms / 1000
    } else {
        -((-ms) / 1000)
    };
    assert(r == seconds_of_millis(ms as int));
    r
}

/// A token expiring at `exp` is still valid at time `now`.
pub open spec fn is_valid_at(exp: i64, now: int) -> bool {
    now < exp
}

impl UserToken {
    /// The claims of a token issued to `user` at time `now`: valid for one
    /// week from `now`.
    pub fn for_user(user: &user::Model, now: i64) -> (t: UserToken)
        requires
            now <= i64::MAX - ONE_WEEK,
        ensures
            t.iat == now,
            t.exp == now + ONE_WEEK,
            t.username@ == user.username@,
            t.uuid@ == user.uuid@,
    {
        UserToken {
            iat: now,
            exp: now + ONE_WEEK,
            username: user.username.clone(),
            uuid: user.uuid.clone(),
        }
    }

    /// The claims of a token issued to `user` now: issued at the current
    /// UTC time in seconds, valid for one week.
    pub fn issue(user: &user::Model) -> (t: UserToken)
        ensures
            exists|ms: int|
                0 <= ms < 10_000_000_000_000_000 && t.iat
                    == #[trigger] seconds_of_millis(ms),
            0 <= t.iat <= 10_000_000_000_000,
            t.exp == t.iat + ONE_WEEK,
            t.username@ == user.username@,
            t.uuid@ == user.uuid@,
    {
        let now = now_seconds();
        UserToken::for_user(user, now)
    }

    /// Whether the token is still valid at time `now` (Unix seconds): it
    /// expires at `exp`.
    pub fn is_still_valid_at(&self, now: i64) -> (r: bool)
        ensures
            r == (now < self.exp),
    {
        now < self.exp
    }

    /// Whether the token is still valid now, by the UTC clock.
    pub fn is_still_valid(&self) -> (r: bool)
        ensures
            exists|now: int|
                0 <= now <= 10_000_000_000_000 && r == #[trigger] is_valid_at(
                    self.exp,
                    now,
                ),
    {
        let now = now_seconds();
        let r = self.is_still_valid_at(now);
        assert(r == is_valid_at(self.exp, now as int));
        r
    }

    /// The verified claims text of `token` under `secret`: the token must
    /// carry a valid HS256 signature and a required `exp` claim that has
    /// not passed (with 60 seconds of leeway).
    pub fn decode_claims(token: &str, secret: &[u8]) -> (r: Result<String, TokenError>)
        ensures
            is_decoding_of(token@, secret@, r),
    {
        match jwt_decode(token, secret) {
            Ok(c) => Ok(c),
            Err(e) => Err(TokenError { message: jwt_error_text(&e) }),
        }
    }

    /// A token carrying the claims text `claims`, signed with `secret`.
    pub fn encode_claims(claims: &str, secret: &[u8]) -> (r: Result<String, TokenError>)
        ensures
            is_encoding_of(claims@, secret@, r),
    {
        match jwt_encode(claims, secret) {
            Ok(t) => Ok(t),
            Err(e) => Err(TokenError { message: jwt_error_text(&e) }),
        }
    }
}

/// A token made from claims text without whitespace at its ends, once
/// decoded with the same secret, gives back exactly that text.
pub proof fn lemma_claims_round_trip(
    claims: Seq<char>,
    secret: Seq<u8>,
    token: String,
    decoded: String,
)
    requires
        is_json_trimmed(claims),
        is_encoding_of(claims, secret, Ok(token)),
        is_decoding_of(token@, secret, Ok(decoded)),
    ensures
        decoded@ == claims,
{
}

/// Two accounts with the same name and identifier get the same claims at
/// the same time: the password hash and the creation time never enter a
/// token.
pub proof fn lemma_claims_ignore_password(
    a: user::Model,
    b: user::Model,
    now: i64,
    ta: UserToken,
    tb: UserToken,
)
    requires
        a.username@ == b.username@,
        a.uuid@ == b.uuid@,
        ta.iat == now && ta.exp == now + ONE_WEEK && ta.username@ == a.username@ && ta.uuid@
            == a.uuid@,
        tb.iat == now && tb.exp == now + ONE_WEEK && tb.username@ == b.username@ && tb.uuid@
            == b.uuid@,
    ensures
        ta.iat == tb.iat,
        ta.exp == tb.exp,
        ta.username@ == tb.username@,
        ta.uuid@ == tb.uuid@,
{
}

/// Signing the same claims text with the same secret gives the same token.
pub proof fn lemma_signing_is_deterministic(
    claims: Seq<char>,
    secret: Seq<u8>,
    a: Result<String, TokenError>,
    b: Result<String, TokenError>,
)
    requires
        is_encoding_of(claims, secret, a),
        is_encoding_of(claims, secret, b),
    ensures
        a is Ok <==> b is Ok,
        a matches Ok(x) ==> (b matches Ok(y) && x@ == y@),
{
}

} // verus!
