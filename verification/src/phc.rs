//! Password hashes in the PHC string format, computed by `argon2` with the
//! types of `password_hash`.

use argon2::{Argon2, PasswordHasher, PasswordVerifier};
use password_hash::rand_core::OsRng;
use password_hash::{PasswordHash, Salt, SaltString};
use vstd::prelude::*;

verus! {

/// The error type of `password_hash`.
#[verifier::external_type_specification]
#[verifier::external_body]
pub struct ExPasswordHashError(password_hash::Error);

/// The PHC string that Argon2, with its default parameters, computes for
/// `password` under the salt written as `salt`; `None` where the salt is not
/// acceptable or the computation fails.
pub uninterp spec fn argon2_phc(password: Seq<char>, salt: Seq<char>) -> Option<Seq<char>>;

/// Whether `stored` reads as a PHC string.
pub uninterp spec fn phc_parses(stored: Seq<char>) -> bool;

/// Whether `stored` reads as a PHC string and Argon2, run on `password` with
/// the parameters and the salt found in it, arrives at the output found in it.
pub uninterp spec fn argon2_accepts(stored: Seq<char>, password: Seq<char>) -> bool;

/// Calls `SaltString::generate` with the operating system's random number
/// generator, and takes the text of the salt.
///
/// Trusted, with nothing claimed: the salt is random.
#[verifier::external_body]
pub(crate) fn fresh_salt() -> String {
    SaltString::generate(&mut OsRng).as_str().to_string()
}

/// Calls `Argon2::default().hash_password` on the bytes of `password`, with
/// `salt` read by `Salt::from_b64`, and prints the resulting hash as a PHC
/// string.
///
/// Trusted: the result is the one named by `argon2_phc`. A hash that comes
/// out reads as a PHC string and is accepted for the same password, as the
/// crate documents for `hash_password` followed by `verify_password`. And it
/// comes out under no other salt: the printed form is the fixed algorithm,
/// version and parameters, then the salt as it was given, then the output,
/// each after a `$` that occurs in none of them.
#[verifier::external_body]
pub(crate) fn argon2_hash(password: &str, salt: &str) -> (r: Result<String, password_hash::Error>)
    ensures
        match r {
            Ok(hash) => {
                &&& argon2_phc(password@, salt@) == Some(hash@)
                &&& phc_parses(hash@)
                &&& argon2_accepts(hash@, password@)
                &&& forall|other: Seq<char>|
                    #[trigger] argon2_phc(password@, other) == Some(hash@) ==> other == salt@
            },
            Err(_) => argon2_phc(password@, salt@) is None,
        },
{
    let salt = Salt::from_b64(salt)?;
    Ok(Argon2::default().hash_password(password.as_bytes(), salt)?.to_string())
}

/// Calls `PasswordHash::new` and keeps whether it could read `stored`.
///
/// Trusted: the result is the one named by `phc_parses`; and a text that is
/// read begins with `$`, since the parser refuses an empty text and one whose
/// first field is not empty.
#[verifier::external_body]
pub(crate) fn phc_readable(stored: &str) -> (ok: bool)
    ensures
        ok == phc_parses(stored@),
        ok ==> stored@.len() > 0 && stored@[0] == '$',
{
    PasswordHash::new(stored).is_ok()
}

/// Reads `stored` with `PasswordHash::new` and calls
/// `Argon2::default().verify_password` on the bytes of `password`.
///
/// Trusted: the call succeeds exactly where `argon2_accepts` holds, and only
/// for a text that reads as a PHC string.
#[verifier::external_body]
pub(crate) fn argon2_verify(stored: &str, password: &str) -> (r: Result<(), password_hash::Error>)
    ensures
        r is Ok <==> argon2_accepts(stored@, password@),
        r is Ok ==> phc_parses(stored@),
{
    let parsed = PasswordHash::new(stored)?;
    Argon2::default().verify_password(password.as_bytes(), &parsed)
}

} // verus!
