use vstd::prelude::*;
use crate::lock_policy::{add_secs, spec_add_secs};

verus! {

/// Lifetime of a verification token: one day.
pub const VERIFICATION_TTL_SECS: i64 = 24 * 3600;

/// Relies on `uuid::Uuid::new_v4` and its `Display`: a random identifier in
/// hyphenated form, 36 chars.
#[verifier::external_body]
fn random_token() -> (r: String)
    ensures
        r@.len() == 36,
{
    uuid::Uuid::new_v4().to_string()
}

/// A fresh random session identifier.
pub fn new_session_id() -> (r: String)
    ensures
        r@.len() == 36,
{
    random_token()
}

/// A fresh verification token and its expiry, one day after `now`.
pub fn generate_verification_token(now: i64) -> (r: (String, i64))
    ensures
        r.0@.len() == 36,
        r.1 == spec_add_secs(now, VERIFICATION_TTL_SECS),
{
    (random_token(), add_secs(now, VERIFICATION_TTL_SECS))
}

/// Whether a verification token whose expiry is `expiry` has expired at `now`.
pub fn is_token_expired(expiry: &i64, now: i64) -> (r: bool)
    ensures
        r == (now > *expiry),
{
    now > *expiry
}

} // verus!
