use backend::account::{current_user, granted, login, register, register_with, LoginStep};
use backend::hash::{hash_password, hash_password_with_salt, verify_password};
use backend::clock::LocalTime;
use backend::user::{LoginRequest, Model, RegisterRequest};

fn request(username: &str, password: &str) -> LoginRequest {
    LoginRequest {
        username: username.to_string(),
        password: password.to_string(),
        id: String::new(),
        uuid: String::new(),
    }
}

fn stored(password: &str) -> Model {
    Model {
        uuid: "u-1".to_string(),
        username: "alice".to_string(),
        password: hash_password(password).unwrap(),
        created: LocalTime { secs: 5, nanos: 0 },
    }
}

#[test]
fn hashing_and_verifying() {
    let h = hash_password("pw").unwrap();
    assert!(h.starts_with("$argon2i$v=19$m=4096,t=3,p=1$"));
    assert_eq!(verify_password(h.clone(), "pw".to_string()), Ok(true));
    assert_eq!(verify_password(h, "other".to_string()), Ok(false));
    assert_eq!(verify_password("garbage".to_string(), "pw".to_string()), Err(false));
}

#[test]
fn hashing_with_salt_is_deterministic() {
    let a = hash_password_with_salt("password", b"somesalt").unwrap();
    let b = hash_password_with_salt("password", b"somesalt").unwrap();
    assert_eq!(a, b);
    assert_eq!(
        a,
        "$argon2i$v=19$m=4096,t=3,p=1$c29tZXNhbHQ$iWh06vD8Fy27wf9npn6FXWiCX4K6pW6Ue1Bnzz07Z8A"
    );
    assert_eq!(hash_password_with_salt("pw", b"short"), Err("not generated".to_string()));
}

#[test]
fn two_hashes_differ_but_both_verify() {
    let a = hash_password("pw").unwrap();
    let b = hash_password("pw").unwrap();
    assert_ne!(a, b);
    assert_eq!(verify_password(a, "pw".to_string()), Ok(true));
    assert_eq!(verify_password(b, "pw".to_string()), Ok(true));
}

#[test]
fn login_unknown_user() {
    match login(None, request("nobody", "pw")) {
        LoginStep::Reply(Err(r)) => {
            assert_eq!(r.error, "Could not found");
            assert!(!r.success);
            assert_eq!(r.access_token, "");
        }
        other => panic!("unexpected {:?}", other),
    }
}

#[test]
fn login_wrong_password() {
    match login(Some(stored("right")), request("alice", "wrong")) {
        LoginStep::Reply(Err(r)) => assert_eq!(r.error, "Could not verify"),
        other => panic!("unexpected {:?}", other),
    }
}

#[test]
fn login_unreadable_hash() {
    let mut m = stored("x");
    m.password = "plain".to_string();
    match login(Some(m), request("alice", "plain")) {
        LoginStep::Reply(Err(r)) => assert_eq!(r.error, "Could not verify"),
        other => panic!("unexpected {:?}", other),
    }
}

#[test]
fn login_right_password() {
    let m = stored("right");
    match login(Some(m.clone()), request("alice", "right")) {
        LoginStep::IssueToken(u) => assert_eq!(u, m),
        other => panic!("unexpected {:?}", other),
    }
}

#[test]
fn granted_answer() {
    let r = granted(&stored("x"), "tok".to_string());
    assert_eq!(r.user.name, "alice");
    assert_eq!(r.user.uuid, "u-1");
    assert_eq!(r.access_token, "tok");
    assert!(r.success);
    assert_eq!(r.error, "");
}

#[test]
fn current_user_steps() {
    match current_user(None) {
        LoginStep::Reply(Err(r)) => assert_eq!(r.error, "Could not verify"),
        other => panic!("unexpected {:?}", other),
    }
    let m = stored("x");
    match current_user(Some(m.clone())) {
        LoginStep::IssueToken(u) => assert_eq!(u, m),
        other => panic!("unexpected {:?}", other),
    }
}

#[test]
fn register_taken_name() {
    let req = RegisterRequest { username: "a@b.c".to_string(), password: "pw".to_string() };
    let plan = register(true, &req);
    assert!(plan.insert.is_none());
    let r = plan.reply.unwrap();
    assert_eq!(r.message, "This e-mail is using by some user, please enter another e-mail.");
    assert!(!r.success);
}

#[test]
fn register_free_name() {
    let req = RegisterRequest { username: "a@b.c".to_string(), password: "pw".to_string() };
    let plan = register(false, &req);
    let m = plan.insert.unwrap();
    assert_eq!(m.username, "a@b.c");
    assert_eq!(m.uuid.len(), 36);
    assert!(m.created.secs > 1_600_000_000);
    assert_eq!(verify_password(m.password.clone(), "pw".to_string()), Ok(true));
    let r = plan.reply.unwrap();
    assert_eq!(r.message, "User a@b.c created");
    assert!(r.success);
}

#[test]
fn register_with_failed_hash() {
    let req = RegisterRequest { username: "x".to_string(), password: "pw".to_string() };
    let plan = register_with(false, &req, Err("not generated".to_string()), "u".to_string(), LocalTime { secs: 1, nanos: 0 });
    assert!(plan.insert.is_none());
    let r = plan.reply.unwrap_err();
    assert_eq!(r.message, "User can't created");
    assert!(r.success);
}

#[test]
fn register_with_fixed_values() {
    let req = RegisterRequest { username: "x".to_string(), password: "pw".to_string() };
    let plan = register_with(false, &req, Ok("H".to_string()), "u".to_string(), LocalTime { secs: 7, nanos: 8 });
    assert_eq!(
        plan.insert.unwrap(),
        Model { uuid: "u".to_string(), username: "x".to_string(), password: "H".to_string(), created: LocalTime { secs: 7, nanos: 8 } }
    );
}

#[test]
fn registered_account_can_log_in() {
    let req = RegisterRequest { username: "carol".to_string(), password: "s3cret".to_string() };
    let m = register(false, &req).insert.unwrap();
    match login(Some(m.clone()), request("carol", "s3cret")) {
        LoginStep::IssueToken(u) => assert_eq!(u, m),
        other => panic!("unexpected {:?}", other),
    }
}

#[test]
fn made_hash_reads_for_any_password() {
    let h = hash_password("pw").unwrap();
    for other in ["", "pw", "PW", "a much longer password with ünïcödé"] {
        assert!(verify_password(h.clone(), other.to_string()).is_ok());
    }
    assert!(hash_password("").is_ok());
}

#[test]
fn registered_account_gets_v4_uuid() {
    let req = RegisterRequest { username: "dave".to_string(), password: "pw".to_string() };
    let m = register(false, &req).insert.unwrap();
    let b = m.uuid.as_bytes();
    assert_eq!(b.len(), 36);
    assert_eq!((b[8], b[13], b[14], b[18], b[23]), (b'-', b'-', b'4', b'-', b'-'));
    assert!(matches!(b[19], b'8' | b'9' | b'a' | b'b'));
}

#[test]
fn taken_name_is_not_stored_again() {
    let names = ["alice", "bob"];
    let req = RegisterRequest { username: "bob".to_string(), password: "pw".to_string() };
    let plan = register(names.contains(&req.username.as_str()), &req);
    assert!(plan.insert.is_none());
    let req = RegisterRequest { username: "carol".to_string(), password: "pw".to_string() };
    let plan = register(names.contains(&req.username.as_str()), &req);
    assert_eq!(plan.insert.unwrap().username, "carol");
}
