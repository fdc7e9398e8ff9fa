//! What the endpoints that act for an account decide before doing
//! anything: they need the account that the authentication middleware
//! attached to the request.

use vstd::prelude::*;

verus! {

/// The body of the 403 answer to a request without an authenticated
/// account.
pub open spec fn no_user_body() -> Seq<char> {
    "No User"@
}

/// The account a request acts for, or the body of the 403 Forbidden answer
/// when the request carries none.
pub fn acting_user(user_uuid: Option<String>) -> (r: Result<String, String>)
    ensures
        match user_uuid {
            Some(u) => r == Ok::<String, String>(u),
            None => r matches Err(b) && b@ == no_user_body(),
        },
{
    match user_uuid {
        Some(u) => Ok(u),
        None => Err(String::from_str("No User")),
    }
}

} // verus!
