//! User identifiers: 128-bit values with a canonical hyphenated text form.

use vstd::prelude::*;

verus! {

/// The lower-case hyphenated text that `uuid` prints for the identifier `id`.
pub uninterp spec fn uuid_hyphenated(id: u128) -> Seq<char>;

/// The identifier that `uuid` reads out of `text`, if it reads one.
pub uninterp spec fn uuid_parsed(text: Seq<char>) -> Option<u128>;

/// Calls `uuid::Uuid::from_u128` and prints the result through its `Display`
/// impl, which writes the hyphenated lower-case form.
///
/// Trusted: the text is the one named by `uuid_hyphenated`, and
/// `Uuid::parse_str` reads the same identifier back from it, as the crate
/// documents for every format it prints.
#[verifier::external_body]
pub(crate) fn uuid_to_text(id: u128) -> (text: String)
    ensures
        text@ == uuid_hyphenated(id),
        uuid_parsed(text@) == Some(id),
{
    uuid::Uuid::from_u128(id).to_string()
}

/// Calls `uuid::Uuid::parse_str` and takes the 128-bit value of what it read.
///
/// Trusted: the result is the one named by `uuid_parsed`.
#[verifier::external_body]
pub(crate) fn uuid_from_text(text: &str) -> (id: Option<u128>)
    ensures
        id == uuid_parsed(text@),
{
    uuid::Uuid::parse_str(text).ok().map(|u| u.as_u128())
}

} // verus!
