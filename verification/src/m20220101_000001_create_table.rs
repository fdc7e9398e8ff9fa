//! The migration that creates the `user` table.

use vstd::prelude::*;

use crate::schema::{column, is_column, ColumnType, TableSpec};

verus! {

/// Creates (and drops) the `user` table.
pub struct Migration;

impl Migration {
    /// The migration's name.
    pub fn name(&self) -> (r: &'static str)
        ensures
            r@ == "m20220101_000001_create_table"@,
    {
        "m20220101_000001_create_table"
    }

    /// The table that the migration creates: accounts keyed by uuid, with
    /// their user name, password hash and creation time, none of them null.
    pub fn up(&self) -> (t: TableSpec)
        ensures
            t.name@ == "user"@,
            t.if_not_exists,
            t.columns@.len() == 4,
            is_column(t.columns@[0], "uuid"@, ColumnType::String, true, true),
            is_column(t.columns@[1], "username"@, ColumnType::String, true, false),
            is_column(t.columns@[2], "password"@, ColumnType::String, true, false),
            is_column(t.columns@[3], "created"@, ColumnType::DateTime, true, false),
    {
        let mut columns = Vec::new();
        columns.push(column("uuid", ColumnType::String, true, true));
        columns.push(column("username", ColumnType::String, true, false));
        columns.push(column("password", ColumnType::String, true, false));
        columns.push(column("created", ColumnType::DateTime, true, false));
        TableSpec { name: String::from_str("user"), if_not_exists: true, columns }
    }

    /// The table that undoing the migration drops.
    pub fn down(&self) -> (name: String)
        ensures
            name@ == "user"@,
    {
        String::from_str("user")
    }
}

} // verus!
