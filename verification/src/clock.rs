//! Instants on the local clock, as the records store them.

use vstd::prelude::*;

verus! {

/// An instant: whole seconds since the Unix epoch and the nanoseconds
/// within that second, as chrono's `DateTime<Local>` holds them (`nanos`
/// exceeds 999_999_999 only inside a leap second).
#[derive(Clone, Copy, Debug, PartialEq, Eq, Structural)]
pub struct LocalTime {
    pub secs: i64,
    pub nanos: u32,
}

} // verus!
