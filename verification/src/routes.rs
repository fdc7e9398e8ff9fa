//! The routes that the request gate lets through without a token.

use vstd::prelude::*;

use crate::text::{is_prefix_of, starts_with};

verus! {

/// Paths that need no authentication: registering and logging in.
pub const IGNORE_ROUTES: [&'static str; 2] = ["/api/register", "/api/login"];

/// The path starts with one of the routes that need no authentication.
pub open spec fn is_ignored_route(path: Seq<char>) -> bool {
    exists|i: int| 0 <= i < IGNORE_ROUTES@.len() && is_prefix_of((#[trigger] IGNORE_ROUTES@[i])@, path)
}

/// Whether `path` starts with one of the routes that need no
/// authentication.
pub fn ignores(path: &str) -> (r: bool)
    ensures
        r == is_ignored_route(path@),
{
    let routes = IGNORE_ROUTES;
    let mut i: usize = 0;
    while i < 2
        invariant
            i <= 2,
            routes@ == IGNORE_ROUTES@,
            forall|k: int| 0 <= k < i ==> !is_prefix_of((#[trigger] IGNORE_ROUTES@[k])@, path@),
        decreases 2 - i,
    {
        if starts_with(path, routes[i]) {
            return true;
        }
        i = i + 1;
    }
    false
}

} // verus!
