//! Table definitions, as the database migrations create them.

use vstd::prelude::*;

verus! {

/// The type of a column.
#[derive(Clone, Copy, Debug, PartialEq, Eq, Structural)]
pub enum ColumnType {
    String,
    DateTime,
}

/// A column: its name, its type, whether it may not be null and whether it
/// is the primary key.
#[derive(Debug)]
pub struct ColumnSpec {
    pub name: String,
    pub kind: ColumnType,
    pub not_null: bool,
    pub primary_key: bool,
}

/// A table to create (only if it does not exist yet).
#[derive(Debug)]
pub struct TableSpec {
    pub name: String,
    pub if_not_exists: bool,
    pub columns: Vec<ColumnSpec>,
}

/// `c` is the column `name` of type `kind`, with the given flags.
pub open spec fn is_column(c: ColumnSpec, name: Seq<char>, kind: ColumnType, not_null: bool, primary_key: bool) -> bool {
    c.name@ == name && c.kind == kind && c.not_null == not_null && c.primary_key == primary_key
}

/// The column `name` of type `kind`, with the given flags.
pub fn column(name: &str, kind: ColumnType, not_null: bool, primary_key: bool) -> (c: ColumnSpec)
    ensures
        is_column(c, name@, kind, not_null, primary_key),
{
    ColumnSpec { name: String::from_str(name), kind, not_null, primary_key }
}

} // verus!
