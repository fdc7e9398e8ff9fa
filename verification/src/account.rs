//! Registration, login and the current-user query. The account lookups
//! and the insertion of a new account are the caller's (they touch the
//! database); each function here takes what the lookup found and says what
//! to answer and what to store. A successful login or current-user query
//! answers with a fresh access token, which the caller issues for the
//! account (`LoginStep::IssueToken`) before building the answer with
//! `granted`.

use vstd::prelude::*;

use crate::clock::LocalTime;
use crate::fresh::{new_uuid, now_local};
use crate::ids::is_uuid_v4_text;
use crate::hash::{argon2_hash_encoded, argon2_verify_encoded, hash_password, is_hash_of, verify_password};
use crate::text::concat_strs;
use crate::user::{self, LoginRequest, LoginResponse, RegisterRequest, RegisterResponse, User};

verus! {

/// What a login or current-user query leads to.
#[derive(Debug)]
pub enum LoginStep {
    /// Answer with this.
    Reply(Result<LoginResponse, LoginResponse>),
    /// The account is authenticated: issue an access token for it and
    /// answer with `granted`.
    IssueToken(user::Model),
}

/// What a registration leads to: the account to store, if any, and the
/// answer. The answer does not depend on whether storing succeeds.
#[derive(Debug)]
pub struct RegisterPlan {
    pub insert: Option<user::Model>,
    pub reply: Result<RegisterResponse, RegisterResponse>,
}

/// The error of a login for an unknown user name.
pub open spec fn not_found_error() -> Seq<char> {
    "Could not found"@
}

/// The error of a login with a wrong password, and of a current-user query
/// for an unknown account.
pub open spec fn not_verified_error() -> Seq<char> {
    "Could not verify"@
}

/// The message of a registration for a user name already in use.
pub open spec fn name_taken_message() -> Seq<char> {
    "This e-mail is using by some user, please enter another e-mail."@
}

/// The message of a registration whose password could not be hashed.
pub open spec fn not_created_message() -> Seq<char> {
    "User can't created"@
}

/// The message of a successful registration.
pub open spec fn created_message(username: Seq<char>) -> Seq<char> {
    "User "@ + username + " created"@
}

/// `r` is a failed login answer with the given error and nothing else.
pub open spec fn is_failure(r: Result<LoginResponse, LoginResponse>, error: Seq<char>) -> bool {
    r matches Err(resp) && resp.error@ == error && !resp.success && resp.user.name@
        == Seq::<char>::empty() && resp.user.uuid@ == Seq::<char>::empty()
        && resp.access_token@ == Seq::<char>::empty()
}

/// `step` is what a login with `password` leads to, when the lookup by
/// user name found `found`.
pub open spec fn is_login_step(found: Option<user::Model>, password: Seq<char>, step: LoginStep) -> bool {
    match found {
        None => step matches LoginStep::Reply(r) && is_failure(r, not_found_error()),
        Some(u) => if argon2_verify_encoded(u.password@, password) == Some(true) {
            step == LoginStep::IssueToken(u)
        } else {
            step matches LoginStep::Reply(r) && is_failure(r, not_verified_error())
        },
    }
}

/// `step` is what a current-user query leads to, when the lookup by
/// account identifier found `found`.
pub open spec fn is_current_user_step(found: Option<user::Model>, step: LoginStep) -> bool {
    match found {
        None => step matches LoginStep::Reply(r) && is_failure(r, not_verified_error()),
        Some(u) => step == LoginStep::IssueToken(u),
    }
}

/// `plan` stores nothing and answers that the user name is in use.
pub open spec fn is_name_taken_plan(plan: RegisterPlan) -> bool {
    &&& plan.insert is None
    &&& plan.reply matches Ok(resp) && resp.message@ == name_taken_message() && !resp.success
}

/// `plan` is what registering `username` leads to when the name is
/// `taken` or not, the password's hash came out as `hashed`, and a new
/// account would get identifier `uuid` and creation instant `created`.
pub open spec fn is_registration_with(
    taken: bool,
    username: Seq<char>,
    hashed: Result<String, String>,
    uuid: Seq<char>,
    created: LocalTime,
    plan: RegisterPlan,
) -> bool {
    if taken {
        is_name_taken_plan(plan)
    } else {
        match hashed {
            Ok(h) => {
                &&& plan.insert matches Some(m) && m.uuid@ == uuid && m.username@ == username
                    && m.password@ == h@ && m.created == created
                &&& plan.reply matches Ok(resp) && resp.message@ == created_message(username)
                    && resp.success
            },
            Err(_) => {
                &&& plan.insert is None
                &&& plan.reply matches Err(resp) && resp.message@ == not_created_message()
                    && resp.success
            },
        }
    }
}

/// `plan` is what registering `username` with `password` leads to when
/// the name is `taken` or not: for a free name, the password is hashed
/// with some 32-byte salt and the new account, if the hash was made,
/// stores it under a version 4 UUID.
pub open spec fn is_registration(
    taken: bool,
    username: Seq<char>,
    password: Seq<char>,
    plan: RegisterPlan,
) -> bool {
    if taken {
        is_name_taken_plan(plan)
    } else {
        exists|salt: Seq<u8>, hashed: Result<String, String>, uuid: Seq<char>, created: LocalTime|
            salt.len() == 32 && #[trigger] is_hash_of(password, salt, hashed) && (hashed is Ok
                ==> is_uuid_v4_text(uuid)) && #[trigger] is_registration_with(
                false,
                username,
                hashed,
                uuid,
                created,
                plan,
            )
    }
}

/// A failed login answer with the given error.
fn failure(error: &str) -> (r: Result<LoginResponse, LoginResponse>)
    ensures
        is_failure(r, error@),
{
    let d = LoginResponse::default();
    Err(LoginResponse { error: String::from_str(error), success: false, ..d })
}

/// What a current-user query leads to, when the lookup by account
/// identifier found `found`.
pub fn current_user(found: Option<user::Model>) -> (step: LoginStep)
    ensures
        is_current_user_step(found, step),
{
    match found {
        Some(u) => LoginStep::IssueToken(u),
        None => LoginStep::Reply(failure("Could not verify")),
    }
}

/// What a login leads to, when the lookup by the request's user name found
/// `found`: the password must match the account's stored hash.
pub fn login(found: Option<user::Model>, login_req: LoginRequest) -> (step: LoginStep)
    ensures
        is_login_step(found, login_req.password@, step),
{
    match found {
        Some(u) => {
            match verify_password(u.password.clone(), login_req.password) {
                Ok(result) => {
                    if result {
                        LoginStep::IssueToken(u)
                    } else {
                        LoginStep::Reply(failure("Could not verify"))
                    }
                },
                Err(_) => LoginStep::Reply(failure("Could not verify")),
            }
        },
        None => LoginStep::Reply(failure("Could not found")),
    }
}

/// The answer to a successful login or current-user query for `user`,
/// carrying the access token issued for it.
pub fn granted(user: &user::Model, token: String) -> (r: LoginResponse)
    ensures
        r.user.name@ == user.username@,
        r.user.uuid@ == user.uuid@,
        r.access_token == token,
        r.success,
        r.error@ == Seq::<char>::empty(),
{
    LoginResponse {
        user: User { name: user.username.clone(), uuid: user.uuid.clone() },
        access_token: token,
        success: true,
        error: String::new(),
    }
}

/// What registering `register_req` leads to when its user name is `taken`
/// or not, its password's hash came out as `hashed`, and a new account
/// would get identifier `uuid` and creation instant `created`.
pub fn register_with(
    taken: bool,
    register_req: &RegisterRequest,
    hashed: Result<String, String>,
    uuid: String,
    created: LocalTime,
) -> (plan: RegisterPlan)
    ensures
        is_registration_with(taken, register_req.username@, hashed, uuid@, created, plan),
{
    if taken {
        return RegisterPlan {
            insert: None,
            reply: Ok(
                RegisterResponse {
                    message: String::from_str(
                        "This e-mail is using by some user, please enter another e-mail.",
                    ),
                    success: false,
                },
            ),
        };
    }
    match hashed {
        Ok(password) => {
            let account = user::Model {
                uuid,
                username: register_req.username.clone(),
                password,
                created,
            };
            let head = concat_strs("User ", register_req.username.as_str());
            let message = concat_strs(head.as_str(), " created");
            RegisterPlan {
                insert: Some(account),
                reply: Ok(RegisterResponse { message, success: true }),
            }
        },
        Err(_) => RegisterPlan {
            insert: None,
            reply: Err(
                RegisterResponse { message: String::from_str("User can't created"), success: true },
            ),
        },
    }
}

/// What registering `register_req` leads to when its user name is `taken`
/// or not: for a free name, the password is hashed with a fresh random
/// salt and the new account gets a fresh random identifier and the current
/// local time.
pub fn register(taken: bool, register_req: &RegisterRequest) -> (plan: RegisterPlan)
    ensures
        is_registration(taken, register_req.username@, register_req.password@, plan),
{
    if taken {
        return register_with(
            true,
            register_req,
            Err(String::new()),
            String::new(),
            LocalTime { secs: 0, nanos: 0 },
        );
    }
    let hashed = hash_password(register_req.password.as_str());
    let ghost h = hashed;
    let (uuid, created) = if hashed.is_ok() {
        (new_uuid(), now_local())
    } else {
        (String::new(), LocalTime { secs: 0, nanos: 0 })
    };
    let ghost u = uuid@;
    let plan = register_with(false, register_req, hashed, uuid, created);
    assert(is_registration_with(false, register_req.username@, h, u, created, plan));
    plan
}

/// An account stored by a registration can log in with the password it was
/// registered with.
pub proof fn lemma_registered_account_logs_in(
    username: Seq<char>,
    password: Seq<char>,
    plan: RegisterPlan,
    step: LoginStep,
)
    requires
        is_registration(false, username, password, plan),
        plan.insert is Some,
        is_login_step(plan.insert, password, step),
    ensures
        step == LoginStep::IssueToken(plan.insert->0),
{
    let (salt, hashed, uuid, created) = choose|
        salt: Seq<u8>,
        hashed: Result<String, String>,
        uuid: Seq<char>,
        created: LocalTime,
    |
        salt.len() == 32 && #[trigger] is_hash_of(password, salt, hashed)
            && #[trigger] is_registration_with(false, username, hashed, uuid, created, plan);
    assert(argon2_hash_encoded(password, salt) is Some);
}

/// No two of the stored user names are the same.
pub open spec fn names_distinct(names: Seq<Seq<char>>) -> bool {
    forall|i: int, j: int| 0 <= i < j < names.len() ==> names[i] != names[j]
}

/// A registration whose name lookup ran against the stored user names
/// `names` keeps them pairwise distinct: it stores an account only under a
/// name not among them.
pub proof fn lemma_registration_keeps_names_distinct(
    names: Seq<Seq<char>>,
    username: Seq<char>,
    password: Seq<char>,
    plan: RegisterPlan,
)
    requires
        names_distinct(names),
        is_registration(names.contains(username), username, password, plan),
    ensures
        plan.insert matches Some(m) ==> names_distinct(names.push(m.username@)),
{
    if plan.insert is Some {
        let m = plan.insert->0;
        assert(!names.contains(username));
        let (salt, hashed, uuid, created) = choose|
            salt: Seq<u8>,
            hashed: Result<String, String>,
            uuid: Seq<char>,
            created: LocalTime,
        |
            salt.len() == 32 && #[trigger] is_hash_of(password, salt, hashed)
                && #[trigger] is_registration_with(false, username, hashed, uuid, created, plan);
        assert(m.username@ == username);
        let all = names.push(m.username@);
        assert forall|i: int, j: int| 0 <= i < j < all.len() implies all[i] != all[j] by {
            if j == names.len() {
                assert(names[i] == all[i]);
                if names[i] == username {
                    assert(names.contains(username));
                }
            } else {
                assert(all[i] == names[i] && all[j] == names[j]);
            }
        }
    }
}

} // verus!
