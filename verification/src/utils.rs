//! Helpers shared by the endpoints: the display form of instants, and
//! password hashing.

use crate::clock::{format_utc, utc_text};
use crate::error::ServiceError;
use crate::models::{text_view, Timestamp, PRETTY_PATTERN};
use crate::phc::{
    argon2_accepts, argon2_hash, argon2_phc, argon2_verify, fresh_salt, phc_parses, phc_readable,
};
use vstd::prelude::*;

verus! {

/// Writes an instant as `YYYY-MM-DD HH:MM:SS UTC`.
pub fn format_datetime_pretty(dt: Timestamp) -> (text: String)
    ensures
        utc_text(dt.secs(), PRETTY_PATTERN@) == Some(text@),
{
    proof {
        use_type_invariant(dt);
    }
    match format_utc(dt.secs(), PRETTY_PATTERN) {
        Some(text) => text,
        None => vstd::pervasive::unreached(),
    }
}

/// What hashing `password` under `salt` gives: the PHC string that Argon2
/// computes, or a backend failure where it computes none.
pub open spec fn hash_outcome(password: Seq<char>, salt: Seq<char>) -> Result<
    Seq<char>,
    ServiceError,
> {
    match argon2_phc(password, salt) {
        Some(hash) => Ok(hash),
        None => Err(ServiceError::HashBackend),
    }
}

/// Whether `password` verifies against `stored`: `stored` reads as an encoded
/// password hash, and Argon2 arrives at the output in it from `password`.
pub open spec fn password_matches(stored: Seq<char>, password: Seq<char>) -> bool {
    phc_parses(stored) && argon2_accepts(stored, password)
}

/// Hashes `password` with Argon2 under the given salt and returns the
/// self-describing encoded hash. A hash that is returned verifies against the
/// password it was made from, and no other salt gives the same hash for that
/// password.
pub fn hash_password_with_salt(password: &str, salt: &str) -> (r: Result<String, ServiceError>)
    ensures
        text_view(r) == hash_outcome(password@, salt@),
        r matches Ok(hash) ==> password_matches(hash@, password@),
        r matches Ok(hash) ==> forall|other: Seq<char>|
            other != salt@ ==> #[trigger] hash_outcome(password@, other) != Ok::<
                Seq<char>,
                ServiceError,
            >(hash@),
{
    match argon2_hash(password, salt) {
        Ok(hash) => Ok(hash),
        Err(_) => Err(ServiceError::HashBackend),
    }
}

/// Hashes `password` with Argon2 under a freshly drawn random salt and
/// returns the self-describing encoded hash. It fails only where the hashing
/// backend does. A hash that is returned verifies against the password it was
/// made from.
pub fn hash_password(password: &str) -> (r: Result<String, ServiceError>)
    ensures
        exists|salt: Seq<char>| text_view(r) == #[trigger] hash_outcome(password@, salt),
        r matches Ok(hash) ==> password_matches(hash@, password@),
{
    let salt = fresh_salt();
    hash_password_with_salt(password, salt.as_str())
}

/// Whether `password` is the one that `stored_hash` was made from. A stored
/// hash that cannot be read verifies against nothing: the answer is `false`,
/// not an error, as for a wrong password.
pub fn verify_password(stored_hash: &str, password: &str) -> (ok: bool)
    ensures
        ok == password_matches(stored_hash@, password@),
        !phc_parses(stored_hash@) ==> !ok,
        stored_hash@.len() == 0 || stored_hash@[0] != '$' ==> !ok,
{
    if !phc_readable(stored_hash) {
        return false;
    }
    match argon2_verify(stored_hash, password) {
        Ok(_) => true,
        Err(_) => false,
    }
}

} // verus!
