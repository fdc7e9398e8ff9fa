//! Fresh values that the logic takes from the outside world: random
//! identifiers, random salts and clock readings. Nothing is promised of
//! them beyond their shape; the functions that use them are verified for
//! every value they may return.

use vstd::prelude::*;

use crate::clock::LocalTime;
use crate::ids::is_uuid_v4_text;

verus! {

/// A new random (version 4) UUID in its hyphenated text form, from
/// `sea_orm::prelude::Uuid::new_v4` (the `uuid` crate) and its `Display`.
/// `new_v4` sets the version nibble to 4 and the two variant bits to
/// `10`, and `Display` writes the 16 bytes as lowercase hexadecimal in
/// groups of 8, 4, 4, 4 and 12 joined by hyphens; only that shape is
/// stated, since the digits are random.
#[verifier::external_body]
pub(crate) fn new_uuid() -> (r: String)
    ensures
        is_uuid_v4_text(r@),
{
    sea_orm::prelude::Uuid::new_v4().to_string()
}

/// The local clock's current instant (`chrono::Local::now()`), as its
/// `timestamp()` and `timestamp_subsec_nanos()`. The value depends on the
/// clock, so no clause ties it to anything.
#[verifier::external_body]
pub(crate) fn now_local() -> LocalTime {
    let now = chrono::Local::now();
    LocalTime { secs: now.timestamp(), nanos: now.timestamp_subsec_nanos() }
}

/// The current UTC instant in milliseconds since the Unix epoch
/// (`chrono::Utc::now().timestamp_millis()`). chrono's dates span the
/// years -262142 to 262142 (its `MIN_YEAR` and `MAX_YEAR`), fewer than
/// 10^16 milliseconds away from the epoch either way. `Utc::now` panics
/// on a system clock set before 1970, so a reading that comes back is not
/// negative. That range is all that is stated.
#[verifier::external_body]
pub(crate) fn now_utc_millis() -> (r: i64)
    ensures
        0 <= r < 10_000_000_000_000_000,
{
    chrono::Utc::now().timestamp_millis()
}

/// 32 random bytes from the thread-local generator
/// (`rand::Rng::gen::<[u8; 32]>` on `rand::thread_rng()`). Only the length
/// is stated: the bytes are random.
#[verifier::external_body]
pub(crate) fn random_salt() -> (r: [u8; 32]) {
    rand::Rng::gen::<[u8; 32]>(&mut rand::thread_rng())
}

} // verus!
