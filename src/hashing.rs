use argon2::password_hash::{PasswordHash, SaltString};
use argon2::{Argon2, PasswordHasher, PasswordVerifier};
use rand::rngs::OsRng;
use vstd::prelude::*;

verus! {

/// The error type of the `password-hash` crate, carried through opaquely.
#[verifier::external_type_specification]
#[verifier::external_body]
pub struct ExPasswordHashError(argon2::password_hash::Error);

/// Whether Argon2 verification accepts `plain` against the PHC string `hash`.
pub uninterp spec fn argon2_accepts(plain: Seq<u8>, hash: Seq<char>) -> bool;

/// Hashes a password or client secret with Argon2 (default parameters) and a
/// fresh random salt, giving its PHC string.
///
/// Relies on `SaltString::generate` with `OsRng` for the salt and on
/// `Argon2::hash_password` for the hash. The salt is random, so the string
/// itself is not known; but it records its algorithm, parameters and salt,
/// and `verify_password` recomputes the hash from them (and
/// `Argon2::default()` holds no secret), so verification accepts `plain`.
#[verifier::external_body]
pub fn hash_password(plain: &str) -> (r: Result<String, argon2::password_hash::Error>)
    ensures
        r matches Ok(h) ==> argon2_accepts(vstd::utf8::encode_utf8(plain@), h@),
{
    let salt = SaltString::generate(&mut OsRng);
    let hash = Argon2::default().hash_password(plain.as_bytes(), &salt)?;
    Ok(hash.to_string())
}

/// Checks `plain` against a stored PHC hash string; a malformed hash string
/// is rejected.
///
/// Relies on `PasswordHash::new` and `Argon2::verify_password`: the answer
/// depends on the two arguments alone.
#[verifier::external_body]
pub fn verify_hash(plain: &[u8], hash: &str) -> (r: bool)
    ensures
        r == argon2_accepts(plain@, hash@),
{
    PasswordHash::new(hash).and_then(|ph| Argon2::default().verify_password(plain, &ph)).is_ok()
}

} // verus!
