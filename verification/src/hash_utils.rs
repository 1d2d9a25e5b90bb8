use vstd::prelude::*;

verus! {

/// Why hashing a password, or checking one against a stored hash, failed.
#[derive(Clone, Copy, Debug, PartialEq, Eq, Structural)]
pub enum PasswordHashError {
    HashingFailed,
    VerificationFailed,
}

/// What `argon2`'s password verification decides for a PHC hash string
/// and a candidate password: a function of the two strings alone.
pub uninterp spec fn password_hash_matches(hash: Seq<char>, password: Seq<char>) -> bool;

/// The strings `password_hash::PasswordHash::new` accepts: well-formed
/// PHC-format hash strings; a function of the characters alone.
pub uninterp spec fn phc_format(s: Seq<char>) -> bool;

/// Relies on `argon2::Argon2::hash_password` (Argon2id, version 0x13,
/// parameters m=15000, t=2, p=1) with a salt drawn from
/// `rand::thread_rng`: the output is a well-formed PHC string, and
/// whatever salt is drawn, it verifies against the same password.
#[verifier::external_body]
pub fn hash_password_sync(password: String) -> (r: Result<String, PasswordHashError>)
    ensures
        r matches Ok(h) ==> phc_format(h@) && password_hash_matches(h@, password@),
{
    let salt = argon2::password_hash::SaltString::generate(&mut rand::thread_rng());
    let params = match argon2::Params::new(15000, 2, 1, None) {
        Ok(p) => p,
        Err(_) => return Err(PasswordHashError::HashingFailed),
    };
    let hasher = argon2::Argon2::new(argon2::Algorithm::Argon2id, argon2::Version::V0x13, params);
    match argon2::PasswordHasher::hash_password(&hasher, password.as_bytes(), &salt) {
        Ok(h) => Ok(h.to_string()),
        Err(_) => Err(PasswordHashError::HashingFailed),
    }
}

/// Relies on `argon2::Argon2::verify_password` on a hash parsed with
/// `PasswordHash::new`: a deterministic check of the candidate against
/// the PHC string, succeeding exactly when they match; a string that is
/// not in PHC format never matches anything.
#[verifier::external_body]
pub fn verify_password_sync(existing_hash: String, password_candidate: String) -> (r: Result<
    (),
    PasswordHashError,
>)
    ensures
        r is Ok <==> password_hash_matches(existing_hash@, password_candidate@),
        r is Ok ==> phc_format(existing_hash@),
{
    let parsed = match argon2::password_hash::PasswordHash::new(existing_hash.as_str()) {
        Ok(p) => p,
        Err(_) => return Err(PasswordHashError::VerificationFailed),
    };
    let hasher = argon2::Argon2::default();
    match argon2::PasswordVerifier::verify_password(&hasher, password_candidate.as_bytes(), &parsed)
    {
        Ok(()) => Ok(()),
        Err(_) => Err(PasswordHashError::VerificationFailed),
    }
}

} // verus!
