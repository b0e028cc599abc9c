use vstd::prelude::*;

use argon2::{Argon2, PasswordHasher, PasswordVerifier};

verus! {

/// Whether a password verifies against a stored PHC hash blob. The blob
/// embeds the salt and parameters, so the outcome is a function of the
/// password and the blob alone; a malformed blob matches nothing (see the
/// clause on `verify_password`).
pub uninterp spec fn blob_matches(password: Seq<char>, blob: Seq<char>) -> bool;

/// Whether the PHC parser (`password_hash::PasswordHash::new`) accepts a blob
/// as a well-formed self-describing hash string; acceptance is a function of
/// the characters alone.
pub uninterp spec fn phc_wellformed(blob: Seq<char>) -> bool;

/// Relies on `argon2::Argon2::hash_password` (the `PasswordHasher` trait with
/// a random salt): the returned PHC blob is well-formed and verifies against
/// exactly the password it was derived from, which is the crate's documented
/// round trip. The salt is fresh per call, so nothing else is stated of the
/// blob's text. Fails only on an entropy-source or length failure.
#[verifier::external_body]
pub fn hash_password(password: &str) -> (r: Option<String>)
    ensures
        r matches Some(blob) ==> blob_matches(password@, blob@) && phc_wellformed(blob@),
{
    Argon2::default()
        .hash_password(password.as_bytes())
        .map(|h| h.to_string())
        .ok()
}

/// Relies on `argon2::Argon2::verify_password` (the `PasswordVerifier<str>`
/// impl): it decodes the blob's salt and parameters, recomputes the digest
/// and compares in constant time; a mismatch and a malformed blob both come
/// back as errors, surfaced here as one `false`, so a caller cannot tell a
/// malformed stored hash from a wrong password.
#[verifier::external_body]
pub fn verify_password(password: &str, blob: &str) -> (r: bool)
    ensures
        r == blob_matches(password@, blob@),
        !phc_wellformed(blob@) ==> !r,
{
    Argon2::default()
        .verify_password(password.as_bytes(), blob)
        .is_ok()
}

/// Law: a blob freshly derived from a password verifies against that
/// password. Hashing fails only on an entropy-source failure, in which case
/// there is no blob to check.
pub fn hash_then_verify(password: &str) -> (r: Option<bool>)
    ensures
        r matches Some(ok) ==> ok,
{
    match hash_password(password) {
        Some(blob) => Some(verify_password(password, blob.as_str())),
        None => None,
    }
}

} // verus!
