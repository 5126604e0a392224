//! Passwords. A password is stored as an Argon2 hash in PHC string format
//! and never in the clear.

use argon2::{PasswordHasher, PasswordVerifier};
use vstd::prelude::*;

verus! {

#[verifier::external_type_specification]
#[verifier::external_body]
pub struct ExPasswordHashError(argon2::password_hash::Error);

/// Whether `text` is a password hash in PHC string format.
pub uninterp spec fn is_phc(text: Seq<char>) -> bool;

/// Whether Argon2, with the parameters and the salt that the hash `stored`
/// names, turns `password` into that hash.
pub uninterp spec fn password_matches(password: Seq<char>, stored: Seq<char>) -> bool;

/// The PHC string of the Argon2 hash of `password` with default parameters
/// and the salt `salt`, `None` where the salt is not accepted or hashing
/// fails.
pub uninterp spec fn argon2_hash(password: Seq<char>, salt: Seq<char>) -> Option<Seq<char>>;

/// Trusted: `argon2::PasswordHash::new`, which parses a PHC string.
#[verifier::external_body]
fn parses(stored: &str) -> (r: bool)
    ensures
        r == is_phc(stored@),
{
    argon2::PasswordHash::new(stored).is_ok()
}

/// Trusted: `verify_password` of `argon2::Argon2`, on the parsed hash.
/// `false` where `stored` does not parse.
#[verifier::external_body]
fn verifies(password: &str, stored: &str) -> (r: bool)
    ensures
        r == (is_phc(stored@) && password_matches(password@, stored@)),
{
    argon2::PasswordHash::new(stored).map_or(false, |h| argon2::Argon2::default().verify_password(password.as_bytes(), &h).is_ok())
}

/// Trusted: `SaltString::generate` with the operating system's random
/// numbers. Nothing is promised of the salt.
#[verifier::external_body]
fn random_salt() -> (r: String) {
    argon2::password_hash::SaltString::generate(&mut argon2::password_hash::rand_core::OsRng).as_str().to_owned()
}

/// Trusted: `hash_password` of `argon2::Argon2` with default parameters.
/// The result is a function of password and salt; it is a PHC string that
/// `verify_password` accepts for the same password.
#[verifier::external_body]
fn hashes(password: &str, salt: &str) -> (r: Result<String, argon2::password_hash::Error>)
    ensures
        r is Ok <==> argon2_hash(password@, salt@) is Some,
        r matches Ok(h) ==> argon2_hash(password@, salt@) == Some(h@) && is_phc(h@)
            && password_matches(password@, h@),
{
    let salt = argon2::password_hash::SaltString::from_b64(salt)?;
    Ok(argon2::Argon2::default().hash_password(password.as_bytes(), &salt)?.to_string())
}

/// Trusted: `Display` of `argon2::password_hash::Error`. Nothing is
/// promised of the text.
#[verifier::external_body]
fn describe(error: &argon2::password_hash::Error) -> (r: String) {
    error.to_string()
}

/// How a password fares against a stored hash.
#[derive(Debug, Clone, Copy, PartialEq, Eq, Structural)]
pub enum PasswordCheck {
    /// The password is the one that was hashed.
    Accepted,
    /// It is another.
    Rejected,
    /// What is stored is no password hash.
    UnreadableHash,
}

/// How `password` fares against the hash `stored`.
pub open spec fn password_check(password: Seq<char>, stored: Seq<char>) -> PasswordCheck {
    if !is_phc(stored) {
        PasswordCheck::UnreadableHash
    } else if password_matches(password, stored) {
        PasswordCheck::Accepted
    } else {
        PasswordCheck::Rejected
    }
}

/// Checks a password against a stored hash.
pub fn check_password(password: &str, stored: &str) -> (r: PasswordCheck)
    ensures
        r == password_check(password@, stored@),
{
    if !parses(stored) {
        PasswordCheck::UnreadableHash
    } else if verifies(password, stored) {
        PasswordCheck::Accepted
    } else {
        PasswordCheck::Rejected
    }
}

/// Hashes a password with the given salt. On failure the error is a
/// description of what went wrong.
pub fn hash_with_salt(password: &str, salt: &str) -> (r: Result<String, String>)
    ensures
        r is Ok <==> argon2_hash(password@, salt@) is Some,
        r matches Ok(h) ==> argon2_hash(password@, salt@) == Some(h@) && password_check(
            password@,
            h@,
        ) == PasswordCheck::Accepted,
{
    match hashes(password, salt) {
        Ok(h) => Ok(h),
        Err(e) => Err(describe(&e)),
    }
}

/// Hashes a password under a fresh random salt: the hash under the salt
/// drawn, which accepts the password, or a failure where there is none.
pub fn hash_password(password: &str) -> (r: Result<String, String>)
    ensures
        exists|salt: Seq<char>| hashed_under(password@, salt, r),
        r matches Ok(h) ==> password_check(password@, h@) == PasswordCheck::Accepted,
{
    let salt = random_salt();
    let r = hash_with_salt(password, salt.as_str());
    assert(hashed_under(password@, salt@, r));
    r
}

/// Whether `r` is what hashing `password` under `salt` comes to: the hash
/// itself, or a failure where Argon2 gives none for the two.
pub open spec fn hashed_under(
    password: Seq<char>,
    salt: Seq<char>,
    r: Result<String, String>,
) -> bool {
    match r {
        Ok(h) => argon2_hash(password, salt) == Some(h@),
        Err(_) => argon2_hash(password, salt) is None,
    }
}

} // verus!
