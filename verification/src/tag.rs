//! The stored address-book tags (the `tag` table), as far as the address
//! book reads and writes them.

use vstd::prelude::*;

verus! {

/// A stored tag: its name and the account it belongs to.
#[derive(Clone, Debug, PartialEq)]
pub struct Model {
    pub name: String,
    pub user: String,
}

} // verus!
