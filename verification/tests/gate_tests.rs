use backend::gate::{authorize_at, gate, header_to_text, Decision, Gate};
use backend::routes::{ignores, IGNORE_ROUTES};
use backend::token::{TokenError, UserToken};
use backend::{Auth, Authentication};

fn token(exp: i64, uuid: &str) -> UserToken {
    UserToken { iat: exp - 10, exp, username: "bob".to_string(), uuid: uuid.to_string() }
}

#[test]
fn ignored_routes() {
    assert_eq!(IGNORE_ROUTES, ["/api/register", "/api/login"]);
    assert!(ignores("/api/login"));
    assert!(ignores("/api/register?x=1"));
    assert!(!ignores("/api/currentUser"));
    assert!(!ignores("/api/ab"));
    assert!(!ignores("/"));
}

#[test]
fn open_routes_pass_without_header() {
    let mw = Auth.new_transform(());
    assert!(matches!(mw.call("/api/login", None), Gate::Pass));
    assert!(matches!(mw.call("/api/register", Some(b"garbage\x01")), Gate::Pass));
}

#[test]
fn missing_header_is_rejected() {
    let mw = Auth.new_transform(());
    assert!(matches!(mw.call("/api/ab", None), Gate::Reject(None)));
    let old = Authentication.new_transform(());
    match old.call("/api/ab", None) {
        Gate::Reject(Some(b)) => assert_eq!(b, "We did not find an authentication header."),
        other => panic!("unexpected {:?}", other),
    }
}

#[test]
fn header_must_be_text() {
    assert_eq!(header_to_text(b"ab\tc"), Some(vec!['a', 'b', '\t', 'c']));
    assert_eq!(header_to_text(b"ab\nc"), None);
    assert_eq!(header_to_text("é".as_bytes()), None);
    match gate("/api/ab", Some(b"Bearer \x7f"), None) {
        Gate::Reject(Some(b)) => {
            assert_eq!(b, "The authorization header doesn't seem to be stringifyable")
        }
        other => panic!("unexpected {:?}", other),
    }
}

#[test]
fn header_must_be_bearer() {
    match gate("/api/ab", Some(b"Basic abc"), None) {
        Gate::Reject(Some(b)) => assert_eq!(b, "The authorization header doesn't start with 'bearer'"),
        other => panic!("unexpected {:?}", other),
    }
    match gate("/api/ab", Some(b"BEARER abc"), None) {
        Gate::Reject(Some(_)) => {}
        other => panic!("unexpected {:?}", other),
    }
}

#[test]
fn bearer_token_is_taken_and_trimmed() {
    match gate("/api/ab", Some(b"Bearer   abc.def.ghi  "), None) {
        Gate::Verify(t) => assert_eq!(t, "abc.def.ghi"),
        other => panic!("unexpected {:?}", other),
    }
    match gate("/api/ab", Some(b"bearer\tx"), None) {
        Gate::Verify(t) => assert_eq!(t, "x"),
        other => panic!("unexpected {:?}", other),
    }
    match gate("/api/ab", Some(b"Bearer"), None) {
        Gate::Verify(t) => assert_eq!(t, ""),
        other => panic!("unexpected {:?}", other),
    }
    match gate("/api/ab", Some(b"Bearerabc"), None) {
        Gate::Verify(t) => assert_eq!(t, "abc"),
        other => panic!("unexpected {:?}", other),
    }
}

#[test]
fn valid_token_forwards_with_uuid() {
    let mw = Auth.new_transform(());
    match mw.authorize_at(Ok(token(1000, "u-1")), 999) {
        Decision::ForwardAs(u) => assert_eq!(u, "u-1"),
        other => panic!("unexpected {:?}", other),
    }
    let old = Authentication.new_transform(());
    assert!(matches!(old.authorize_at(Ok(token(1000, "u-1")), 999), Decision::Forward));
}

#[test]
fn expired_token_is_invalid() {
    match authorize_at(Ok(token(1000, "u-1")), 1000, true) {
        Decision::Reject(Some(b)) => assert_eq!(b, "Invalid Token"),
        other => panic!("unexpected {:?}", other),
    }
}

#[test]
fn undecodable_token_is_explained() {
    let err = TokenError { message: "InvalidSignature".to_string() };
    match authorize_at(Err(err), 0, true) {
        Decision::Reject(Some(b)) => assert_eq!(b, "Could not decode the token: InvalidSignature"),
        other => panic!("unexpected {:?}", other),
    }
}

#[test]
fn token_issued_now_is_accepted_now() {
    let mw = Auth.new_transform(());
    let account = backend::user::Model {
        uuid: "u-9".to_string(),
        username: "eve".to_string(),
        password: String::new(),
        created: backend::clock::LocalTime { secs: 0, nanos: 0 },
    };
    let t = UserToken::issue(&account);
    assert_eq!(t.exp - t.iat, 7 * 24 * 3600);
    match mw.authorize(Ok(t)) {
        Decision::ForwardAs(u) => assert_eq!(u, "u-9"),
        other => panic!("unexpected {:?}", other),
    }
}

#[test]
fn service_is_kept() {
    let mw = Auth.new_transform(41u32);
    assert_eq!(**mw.service(), 41);
    let old = Authentication.new_transform(7u8);
    assert_eq!(*old.service(), 7);
}
