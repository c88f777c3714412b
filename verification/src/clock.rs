//! The wall clock and the calendar, both taken from `chrono`.

use std::fmt::Write;
use vstd::prelude::*;

verus! {

/// The text that `chrono` prints for the instant `secs` seconds after the
/// Unix epoch, in UTC, under the strftime pattern `pattern`; `None` where
/// `chrono` cannot represent the instant or cannot print it under the pattern.
pub uninterp spec fn utc_text(secs: i64, pattern: Seq<char>) -> Option<Seq<char>>;

/// Reads the system clock through `chrono::Utc::now` and takes its
/// `timestamp`, the whole seconds since the Unix epoch.
///
/// Trusted, with nothing claimed: the clock may return any value.
#[verifier::external_body]
pub(crate) fn unix_now() -> i64 {
    chrono::Utc::now().timestamp()
}

/// Calls `chrono::DateTime::from_timestamp` with no sub-second part, then
/// `DateTime::format` with `pattern`, and collects what the formatter writes.
///
/// Trusted: the result is the one named by `utc_text`. An instant out of
/// `chrono`'s range and a pattern that its formatter rejects both give `None`.
#[verifier::external_body]
pub(crate) fn format_utc(secs: i64, pattern: &str) -> (text: Option<String>)
    ensures
        match text {
            Some(t) => utc_text(secs, pattern@) == Some(t@),
            None => utc_text(secs, pattern@) is None,
        },
{
    let instant = chrono::DateTime::from_timestamp(secs, 0)?;
    let mut out = String::new();
    write!(out, "{}", instant.format(pattern)).ok()?;
    Some(out)
}

} // verus!
