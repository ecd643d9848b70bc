//! Password hashing with Argon2 (default parameters, random salt) and
//! checking a password against a stored PHC-format hash.
use vstd::prelude::*;
use vstd::utf8::encode_utf8;
use argon2::password_hash::SaltString;
use argon2::password_hash::rand_core::OsRng;
use argon2::{Argon2, PasswordHash, PasswordHasher, PasswordVerifier};

verus! {

#[verifier::external_type_specification]
#[verifier::external_body]
pub struct ExHashError(argon2::password_hash::Error);

/// Whether `argon2::PasswordHash::new` accepts the string as a PHC-format
/// password hash.
pub uninterp spec fn phc_parses(phc: Seq<char>) -> bool;

/// Whether Argon2's `verify_password` accepts the password (taken as its
/// UTF-8 bytes) against the parsed PHC-format hash: it hashes the password
/// again with the salt and parameters that the hash records and compares.
pub uninterp spec fn password_verifies(password: Seq<char>, phc: Seq<char>) -> bool;

/// The longest password, in UTF-8 bytes, that Argon2 accepts
/// (`argon2::MAX_PWD_LEN`).
pub open spec fn max_password_len() -> int {
    0xFFFF_FFFF
}

/// How the PHC string of an Argon2id (version 19) hash starts, as Argon2's
/// default algorithm writes it.
pub open spec fn argon2id_prefix() -> Seq<char> {
    "$argon2id$v=19$"@
}

/// Whether the string is a PHC string that names Argon2id, version 19.
pub open spec fn names_argon2id(phc: Seq<char>) -> bool {
    phc.len() >= argon2id_prefix().len() && phc.take(argon2id_prefix().len() as int)
        == argon2id_prefix()
}

/// `Argon2::default().hash_password(password, &salt)`, written out as its
/// PHC string, where `salt` is `SaltString::generate(&mut OsRng)`: a random
/// salt of the recommended 16 bytes. With such a salt and the default
/// parameters, the only error Argon2 reports is a password longer than
/// `MAX_PWD_LEN` bytes. As the argon2 crate documents, a hash that it
/// produces parses again with `PasswordHash::new` and verifies against the
/// same password. Argon2's default algorithm is Argon2id, version 19, and
/// the PHC string starts by naming them. What the string holds beyond that
/// (the salt is random) is not stated.
#[verifier::external_body]
fn argon2_hash(password: &str) -> (res: Result<String, argon2::password_hash::Error>)
    ensures
        res is Ok <==> encode_utf8(password@).len() <= max_password_len(),
        res matches Ok(phc) ==> phc_parses(phc@) && password_verifies(password@, phc@)
            && names_argon2id(phc@),
{
    let salt = SaltString::generate(&mut OsRng);
    Argon2::default().hash_password(password.as_bytes(), &salt).map(|h| h.to_string())
}

/// `PasswordHash::new(phc)` followed, when it parses, by
/// `Argon2::default().verify_password(password, &parsed)`: `None` when the
/// string does not parse, otherwise whether the password verifies.
#[verifier::external_body]
fn argon2_verify(password: &str, phc: &str) -> (res: Option<bool>)
    ensures
        res is Some <==> phc_parses(phc@),
        res matches Some(ok) ==> ok == password_verifies(password@, phc@),
{
    match PasswordHash::new(phc) {
        Ok(parsed) => Some(Argon2::default().verify_password(password.as_bytes(), &parsed).is_ok()),
        Err(_) => None,
    }
}

/// Hashes a password with a fresh random salt. It succeeds for every
/// password of at most `MAX_PWD_LEN` (2^32 - 1) UTF-8 bytes, and only for
/// those; the hash is an Argon2id PHC string against which the same
/// password verifies.
pub fn hash_password(password: &str) -> (res: Option<String>)
    ensures
        res is Some <==> encode_utf8(password@).len() <= max_password_len(),
        res matches Some(phc) ==> phc_parses(phc@) && password_verifies(password@, phc@)
            && names_argon2id(phc@),
{
    match argon2_hash(password) {
        Ok(phc) => Some(phc),
        Err(_) => None,
    }
}

/// Checks a password against a stored hash: `None` when the stored string
/// is not a PHC-format hash, otherwise whether the password verifies.
pub fn check_password(password: &str, stored_hash: &str) -> (res: Option<bool>)
    ensures
        res is Some <==> phc_parses(stored_hash@),
        res matches Some(ok) ==> ok == password_verifies(password@, stored_hash@),
{
    argon2_verify(password, stored_hash)
}

} // verus!
