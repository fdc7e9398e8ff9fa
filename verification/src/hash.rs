//! Password hashing with Argon2 (the `rust-argon2` crate, imported as
//! `argon2`): a random 32-byte salt, the crate's default configuration,
//! and the encoded (PHC string) form of the hash.

use vstd::prelude::*;

use crate::fresh::random_salt;
use crate::text::is_prefix_of;

verus! {

#[verifier::external_type_specification]
#[verifier::external_body]
pub struct ExArgon2Error(argon2::Error);

/// What `argon2::hash_encoded` returns for a password (taken as its UTF-8
/// bytes) and a salt under `argon2::Config::default()`: the encoded hash,
/// or nothing where the crate refuses the input.
pub uninterp spec fn argon2_hash_encoded(password: Seq<char>, salt: Seq<u8>) -> Option<Seq<char>>;

/// What `argon2::verify_encoded` returns for an encoded hash and a password
/// (taken as its UTF-8 bytes): whether the password matches, or nothing
/// where the encoded hash cannot be read.
pub uninterp spec fn argon2_verify_encoded(encoded: Seq<char>, password: Seq<char>) -> Option<bool>;

/// The password's UTF-8 form fits Argon2's length limit (`u32::MAX` bytes).
pub open spec fn fits_argon2(password: Seq<char>) -> bool {
    vstd::utf8::encode_utf8(password).len() <= u32::MAX
}

/// A salt length that Argon2 accepts (8 to `u32::MAX` bytes).
pub open spec fn is_salt_length(n: nat) -> bool {
    8 <= n <= u32::MAX
}

/// How every hash made under the default configuration begins: the
/// variant (Argon2i), the version (0x13) and the costs (4096 KiB of
/// memory, 3 passes, 1 lane); the salt and the hash follow in base64.
pub open spec fn default_hash_prefix() -> Seq<char> {
    "$argon2i$v=19$m=4096,t=3,p=1$"@
}

/// `argon2::hash_encoded(password.as_bytes(), salt, &Config::default())`.
/// Its result is named by `argon2_hash_encoded`. Under the default
/// configuration `Context::new` refuses only a password over `u32::MAX`
/// bytes or a salt under 8 or over `u32::MAX` bytes, and `encode_string`
/// writes `$argon2i$v=19$m=4096,t=3,p=1$`, the salt and the hash. The
/// encoded string carries the variant, version, parameters and salt, and
/// `verify_encoded` reads them back and recomputes the hash with them: so
/// it reads a hash made here for any password within the length limit,
/// and the hash verifies against the password it was made from. These
/// facts are stated too.
#[verifier::external_body]
fn argon2_hash(password: &str, salt: &[u8]) -> (r: Result<String, argon2::Error>)
    ensures
        r is Ok <==> argon2_hash_encoded(password@, salt@) is Some,
        r is Ok <==> (fits_argon2(password@) && is_salt_length(salt@.len())),
        r matches Ok(h) ==> argon2_hash_encoded(password@, salt@) == Some(h@)
            && argon2_verify_encoded(h@, password@) == Some(true)
            && is_prefix_of(default_hash_prefix(), h@) && (forall|p: Seq<char>|
            fits_argon2(p) ==> (#[trigger] argon2_verify_encoded(h@, p)) is Some),
{
    argon2::hash_encoded(password.as_bytes(), salt, &argon2::Config::default())
}

/// `argon2::verify_encoded(encoded, password.as_bytes())`, whose result is
/// named by `argon2_verify_encoded`.
#[verifier::external_body]
fn argon2_verify(encoded: &str, password: &str) -> (r: Result<bool, argon2::Error>)
    ensures
        match r {
            Ok(b) => argon2_verify_encoded(encoded@, password@) == Some(b),
            Err(_) => argon2_verify_encoded(encoded@, password@) is None,
        },
{
    argon2::verify_encoded(encoded, password.as_bytes())
}

/// The message of a failed hashing.
pub open spec fn not_generated() -> Seq<char> {
    "not generated"@
}

/// `h` is an encoded hash made here from `password`: it has the default
/// configuration's form, it verifies against `password`, and it can be
/// checked against any password within the length limit.
pub open spec fn is_made_hash(h: Seq<char>, password: Seq<char>) -> bool {
    &&& is_prefix_of(default_hash_prefix(), h)
    &&& argon2_verify_encoded(h, password) == Some(true)
    &&& forall|p: Seq<char>| fits_argon2(p) ==> (#[trigger] argon2_verify_encoded(h, p)) is Some
}

/// `r` is what hashing `password` with `salt` gives: the encoded hash, or
/// the "not generated" error exactly where the password is too long or
/// the salt's length is refused.
pub open spec fn is_hash_of(password: Seq<char>, salt: Seq<u8>, r: Result<String, String>) -> bool {
    &&& r is Ok <==> fits_argon2(password) && is_salt_length(salt.len())
    &&& match argon2_hash_encoded(password, salt) {
        Some(h) => r matches Ok(x) && x@ == h && is_made_hash(h, password),
        None => r matches Err(e) && e@ == not_generated(),
    }
}

/// `r` is what checking `password` against the encoded hash `encoded`
/// gives: whether they match, or `Err(false)` where the hash cannot be
/// read.
pub open spec fn is_verdict_on(encoded: Seq<char>, password: Seq<char>, r: Result<bool, bool>) -> bool {
    match argon2_verify_encoded(encoded, password) {
        Some(b) => r == Ok::<bool, bool>(b),
        None => r == Err::<bool, bool>(false),
    }
}

/// Hashes `password` with the given salt.
pub fn hash_password_with_salt(password: &str, salt: &[u8]) -> (r: Result<String, String>)
    ensures
        is_hash_of(password@, salt@, r),
{
    match argon2_hash(password, salt) {
        Ok(h) => Ok(h),
        Err(_) => Err(String::from_str("not generated")),
    }
}

/// Hashes `password` with a fresh random 32-byte salt. This succeeds for
/// every password within the length limit.
pub fn hash_password(password: &str) -> (r: Result<String, String>)
    ensures
        exists|salt: Seq<u8>| salt.len() == 32 && #[trigger] is_hash_of(password@, salt, r),
        r is Ok <==> fits_argon2(password@),
        r matches Ok(h) ==> is_made_hash(h@, password@),
{
    let salt = random_salt();
    let r = hash_password_with_salt(password, &salt);
    assert(salt@.len() == 32);
    r
}

/// Checks `password` against the encoded hash `hash`.
pub fn verify_password(hash: String, password: String) -> (r: Result<bool, bool>)
    ensures
        is_verdict_on(hash@, password@, r),
{
    match argon2_verify(hash.as_str(), password.as_str()) {
        Ok(b) => Ok(b),
        Err(_) => Err(false),
    }
}

/// A hash made here can be checked against any password within the
/// length limit: the check answers `Ok`, never `Err(false)`.
pub proof fn lemma_made_hash_always_reads(
    password: Seq<char>,
    salt: Seq<u8>,
    hashed: String,
    other: Seq<char>,
    verdict: Result<bool, bool>,
)
    requires
        is_hash_of(password, salt, Ok(hashed)),
        fits_argon2(other),
        is_verdict_on(hashed@, other, verdict),
    ensures
        verdict is Ok,
{
    assert(argon2_verify_encoded(hashed@, other) is Some);
}

/// A password hashed with any salt verifies against the same password.
pub proof fn lemma_hash_then_verify(
    password: Seq<char>,
    salt: Seq<u8>,
    hashed: String,
    verdict: Result<bool, bool>,
)
    requires
        is_hash_of(password, salt, Ok(hashed)),
        is_verdict_on(hashed@, password, verdict),
    ensures
        verdict == Ok::<bool, bool>(true),
{
}

} // verus!
