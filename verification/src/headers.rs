//! Request headers, held in the header map of `http`.

use http::header::{HeaderMap, HeaderValue};
use vstd::prelude::*;

verus! {

/// The header map of `http`.
#[verifier::external_type_specification]
#[verifier::external_body]
#[verifier::reject_recursive_types(T)]
pub struct ExHeaderMap<T>(HeaderMap<T>);

/// A header value of `http`.
#[verifier::external_type_specification]
#[verifier::external_body]
pub struct ExHeaderValue(HeaderValue);

/// The headers of a request that can be read as text: each name, in every
/// spelling under which the map finds it, with the first value stored for
/// it, where that value is made of visible ASCII characters.
pub uninterp spec fn header_texts(headers: HeaderMap<HeaderValue>) -> Map<Seq<char>, Seq<char>>;

/// Calls `HeaderMap::get` with `name`, and `HeaderValue::to_str` on the
/// value it finds.
///
/// Trusted: the result is the entry of `header_texts` for `name`. `get`
/// finds the first value stored under the name, whatever the case of its
/// letters; `to_str` gives its text where all of it is visible ASCII.
#[verifier::external_body]
pub(crate) fn header_text(headers: &HeaderMap<HeaderValue>, name: &str) -> (text: Option<String>)
    ensures
        match text {
            Some(t) => header_texts(*headers).contains_key(name@) && header_texts(*headers)[name@]
                == t@,
            None => !header_texts(*headers).contains_key(name@),
        },
{
    headers.get(name).and_then(|value| value.to_str().ok()).map(|s| s.to_string())
}

} // verus!
