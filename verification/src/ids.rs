//! The text form of the random record identifiers.

use vstd::prelude::*;

verus! {

/// A lowercase hexadecimal digit.
pub open spec fn is_lower_hex(c: char) -> bool {
    ('0' <= c && c <= '9') || ('a' <= c && c <= 'f')
}

/// The hyphenated lowercase text of a version 4 (random) UUID: 36
/// characters, hyphens at 8, 13, 18 and 23, the version digit `4` at 14,
/// one of `8`, `9`, `a`, `b` (the RFC 4122 variant) at 19, and hexadecimal
/// digits elsewhere.
pub open spec fn is_uuid_v4_text(s: Seq<char>) -> bool {
    &&& s.len() == 36
    &&& s[8] == '-' && s[13] == '-' && s[18] == '-' && s[23] == '-'
    &&& s[14] == '4'
    &&& (s[19] == '8' || s[19] == '9' || s[19] == 'a' || s[19] == 'b')
    &&& forall|i: int|
        0 <= i < 36 && i != 8 && i != 13 && i != 18 && i != 23 ==> is_lower_hex(#[trigger] s[i])
}

} // verus!
