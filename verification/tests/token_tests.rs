use backend::token::{now_seconds, UserToken, ONE_WEEK};
use backend::user::Model;

fn account() -> Model {
    Model {
        uuid: "0b7c1e2a-0000-4000-8000-000000000001".to_string(),
        username: "alice".to_string(),
        password: String::new(),
        created: backend::clock::LocalTime { secs: 0, nanos: 0 },
    }
}

fn claims(iat: i64, exp: i64) -> String {
    format!(r#"{{"iat":{},"exp":{},"username":"alice","uuid":"u-1"}}"#, iat, exp)
}

#[test]
fn one_week() {
    assert_eq!(ONE_WEEK, 604800);
}

#[test]
fn payload_for_user() {
    let t = UserToken::for_user(&account(), 1_700_000_000);
    assert_eq!(t.iat, 1_700_000_000);
    assert_eq!(t.exp, 1_700_604_800);
    assert_eq!(t.username, "alice");
    assert_eq!(t.uuid, "0b7c1e2a-0000-4000-8000-000000000001");
}

#[test]
fn validity_is_strictly_before_exp() {
    let t = UserToken::for_user(&account(), 100);
    assert!(t.is_still_valid_at(100));
    assert!(t.is_still_valid_at(100 + ONE_WEEK - 1));
    assert!(!t.is_still_valid_at(100 + ONE_WEEK));
    assert!(!t.is_still_valid());
    let fresh = UserToken::for_user(&account(), now_seconds());
    assert!(fresh.is_still_valid());
}

#[test]
fn claims_round_trip() {
    let now = now_seconds();
    let c = claims(now, now + ONE_WEEK);
    let token = UserToken::encode_claims(&c, b"secret").unwrap();
    assert_eq!(token.split('.').count(), 3);
    assert_eq!(UserToken::decode_claims(&token, b"secret").unwrap(), c);
}

#[test]
fn wrong_secret_is_refused() {
    let now = now_seconds();
    let token = UserToken::encode_claims(&claims(now, now + 100), b"secret").unwrap();
    let err = UserToken::decode_claims(&token, b"other").unwrap_err();
    assert_eq!(err.message, "InvalidSignature");
}

#[test]
fn expired_token_is_refused() {
    let now = now_seconds();
    let token = UserToken::encode_claims(&claims(now - 1000, now - 500), b"k").unwrap();
    let err = UserToken::decode_claims(&token, b"k").unwrap_err();
    assert_eq!(err.message, "ExpiredSignature");
}

#[test]
fn garbage_is_refused() {
    let err = UserToken::decode_claims("not a token", b"k").unwrap_err();
    assert_eq!(err.message, "InvalidToken");
    let err = UserToken::encode_claims("{not json", b"k").unwrap_err();
    assert!(err.message.starts_with("JSON error: "));
}

#[test]
fn missing_exp_is_refused() {
    let token = UserToken::encode_claims(r#"{"iat":1,"username":"a","uuid":"b"}"#, b"k").unwrap();
    let err = UserToken::decode_claims(&token, b"k").unwrap_err();
    assert_eq!(err.message, "Missing required claim: exp");
}

#[test]
fn encoding_is_deterministic() {
    let a = UserToken::encode_claims(&claims(1, 2), b"k").unwrap();
    let b = UserToken::encode_claims(&claims(1, 2), b"k").unwrap();
    assert_eq!(a, b);
    let c = UserToken::encode_claims(&claims(1, 3), b"k").unwrap();
    assert_ne!(a, c);
}

#[test]
fn issued_at_is_the_clock_in_seconds() {
    let before = std::time::SystemTime::now()
        .duration_since(std::time::UNIX_EPOCH)
        .unwrap()
        .as_secs() as i64;
    let t = UserToken::issue(&account());
    let after = std::time::SystemTime::now()
        .duration_since(std::time::UNIX_EPOCH)
        .unwrap()
        .as_secs() as i64;
    assert!(before <= t.iat && t.iat <= after);
    assert_eq!(t.exp, t.iat + ONE_WEEK);
}

#[test]
fn password_never_enters_the_claims() {
    let mut other = account();
    other.password = "$argon2i$different".to_string();
    other.created = backend::clock::LocalTime { secs: 99, nanos: 3 };
    let a = UserToken::for_user(&account(), 1_000);
    let b = UserToken::for_user(&other, 1_000);
    assert_eq!((a.iat, a.exp, a.username.clone(), a.uuid.clone()), (b.iat, b.exp, b.username, b.uuid));
    let ta = UserToken::encode_claims(&claims(1, 2), b"k").unwrap();
    let tb = UserToken::encode_claims(&claims(1, 2), b"k").unwrap();
    assert_eq!(ta, tb);
}

#[test]
fn signing_valid_json_succeeds() {
    for text in [r#"{}"#, r#"{"a":1}"#, "[1,2]", "3", r#" {"a":1} "#] {
        assert!(UserToken::encode_claims(text, b"k").is_ok());
    }
    for text in ["", "{", "{} {}", "nul"] {
        assert!(UserToken::encode_claims(text, b"k").is_err());
    }
}

#[test]
fn clock_reading_is_after_the_epoch() {
    let now = now_seconds();
    assert!(now > 1_600_000_000);
}
