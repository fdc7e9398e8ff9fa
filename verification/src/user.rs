//! The account records and the request and response bodies of the
//! registration, login and current-user endpoints.

use vstd::prelude::*;

use crate::clock::LocalTime;

verus! {

/// Body of a registration request.
#[derive(Debug)]
pub struct RegisterRequest {
    pub username: String,
    pub password: String,
}

impl Default for RegisterRequest {
    fn default() -> (r: Self)
        ensures
            r.username@ == Seq::<char>::empty(),
            r.password@ == Seq::<char>::empty(),
    {
        RegisterRequest { username: String::new(), password: String::new() }
    }
}

/// Answer to a registration request.
#[derive(Debug)]
pub struct RegisterResponse {
    pub success: bool,
    pub message: String,
}

impl Default for RegisterResponse {
    fn default() -> (r: Self)
        ensures
            !r.success,
            r.message@ == Seq::<char>::empty(),
    {
        RegisterResponse { success: false, message: String::new() }
    }
}

/// Body of a login request.
#[derive(Debug)]
pub struct LoginRequest {
    pub username: String,
    pub password: String,
    pub id: String,
    pub uuid: String,
}

/// The public face of an account: its name and identifier.
#[derive(Debug)]
pub struct User {
    pub name: String,
    pub uuid: String,
}

impl Default for User {
    fn default() -> (r: Self)
        ensures
            r.name@ == Seq::<char>::empty(),
            r.uuid@ == Seq::<char>::empty(),
    {
        User { name: String::new(), uuid: String::new() }
    }
}

/// Answer to a login or current-user request.
#[derive(Debug)]
pub struct LoginResponse {
    pub user: User,
    pub access_token: String,
    pub success: bool,
    pub error: String,
}

impl Default for LoginResponse {
    fn default() -> (r: Self)
        ensures
            r.user.name@ == Seq::<char>::empty(),
            r.user.uuid@ == Seq::<char>::empty(),
            r.access_token@ == Seq::<char>::empty(),
            !r.success,
            r.error@ == Seq::<char>::empty(),
    {
        LoginResponse {
            user: User::default(),
            access_token: String::new(),
            success: false,
            error: String::new(),
        }
    }
}

/// A stored account (the `user` table). `password` holds the encoded
/// password hash; `created` is the creation instant.
#[derive(Clone, Debug, PartialEq)]
pub struct Model {
    pub uuid: String,
    pub username: String,
    pub password: String,
    pub created: LocalTime,
}


} // verus!
