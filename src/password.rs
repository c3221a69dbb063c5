use vstd::prelude::*;
use crate::error::{AppResult, AuthError};
use argon2::{PasswordHasher, PasswordVerifier};
use vstd::utf8::encode_utf8;

verus! {

/// Whether Argon2 accepts `content` against the encoded hash `hash`.
pub uninterp spec fn argon_accepts(content: Seq<char>, hash: Seq<char>) -> bool;

/// Relies on `argon2::PasswordHash::new` and `PasswordVerifier::verify_password`
/// with the default Argon2 instance: parses the encoded hash and checks the
/// content against it; a malformed hash is not accepted.
#[verifier::external_body]
pub fn argon_verify(content: &str, hash: &str) -> (r: bool)
    ensures
        r == argon_accepts(content@, hash@),
{
    match argon2::PasswordHash::new(hash) {
        Ok(parsed) => argon2::Argon2::default().verify_password(content.as_bytes(), &parsed).is_ok(),
        Err(_) => false,
    }
}

/// Relies on `argon2::password_hash::SaltString::generate` and
/// `PasswordHasher::hash_password` with the default Argon2 instance: hashes
/// the content under a fresh random salt. The encoded hash carries salt and
/// parameters, so verifying the same content against it succeeds. Argon2
/// refuses only content longer than `u32::MAX` bytes.
#[verifier::external_body]
pub fn argon_hash(content: &str) -> (r: Option<String>)
    ensures
        r matches Some(h) ==> argon_accepts(content@, h@),
        encode_utf8(content@).len() <= u32::MAX ==> r is Some,
{
    let salt = argon2::password_hash::SaltString::generate(&mut argon2::password_hash::rand_core::OsRng);
    argon2::Argon2::default().hash_password(content.as_bytes(), &salt).ok().map(|h| h.to_string())
}

/// Hashes a password for storage; a failure of the hasher is internal, and
/// comes only for a password longer than `u32::MAX` bytes.
pub fn hash(password: &str) -> (r: AppResult<String>)
    ensures
        encode_utf8(password@).len() <= u32::MAX ==> r is Ok,
        r matches Ok(h) ==> argon_accepts(password@, h@),
        r is Err ==> r == Err::<String, AuthError>(AuthError::Internal),
{
    match argon_hash(password) {
        Some(h) => Ok(h),
        None => Err(AuthError::Internal),
    }
}

/// Whether the password matches the stored hash; an account without a hash
/// matches no password.
pub fn verify(password: &str, hashed: &Option<String>) -> (r: bool)
    ensures
        r == match hashed {
            Some(h) => argon_accepts(password@, h@),
            None => false,
        },
{
    match hashed {
        Some(h) => argon_verify(password, h.as_str()),
        None => false,
    }
}

} // verus!
