//! The migration that creates the `peer` table.

use vstd::prelude::*;

use crate::schema::{column, is_column, ColumnType, TableSpec};

verus! {

/// Creates (and drops) the `peer` table.
pub struct Migration;

impl Migration {
    /// The migration's name.
    pub fn name(&self) -> (r: &'static str)
        ensures
            r@ == "m20220101_000002_create_table"@,
    {
        "m20220101_000002_create_table"
    }

    /// The table that the migration creates: peers keyed by their record
    /// uuid, with the peer id, owner and creation time required and the
    /// alias, hostname, platform and joined tags optional.
    pub fn up(&self) -> (t: TableSpec)
        ensures
            t.name@ == "peer"@,
            t.if_not_exists,
            t.columns@.len() == 8,
            is_column(t.columns@[0], "id"@, ColumnType::String, true, false),
            is_column(t.columns@[1], "uuid"@, ColumnType::String, true, true),
            is_column(t.columns@[2], "user"@, ColumnType::String, true, false),
            is_column(t.columns@[3], "alias"@, ColumnType::String, false, false),
            is_column(t.columns@[4], "hostname"@, ColumnType::String, false, false),
            is_column(t.columns@[5], "platform"@, ColumnType::String, false, false),
            is_column(t.columns@[6], "tags"@, ColumnType::String, false, false),
            is_column(t.columns@[7], "created"@, ColumnType::DateTime, true, false),
    {
        let mut columns = Vec::new();
        columns.push(column("id", ColumnType::String, true, false));
        columns.push(column("uuid", ColumnType::String, true, true));
        columns.push(column("user", ColumnType::String, true, false));
        columns.push(column("alias", ColumnType::String, false, false));
        columns.push(column("hostname", ColumnType::String, false, false));
        columns.push(column("platform", ColumnType::String, false, false));
        columns.push(column("tags", ColumnType::String, false, false));
        columns.push(column("created", ColumnType::DateTime, true, false));
        TableSpec { name: String::from_str("peer"), if_not_exists: true, columns }
    }

    /// The table that undoing the migration drops.
    pub fn down(&self) -> (name: String)
        ensures
            name@ == "peer"@,
    {
        String::from_str("peer")
    }
}

} // verus!
