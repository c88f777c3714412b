//! Signed tokens, made and opened by `jsonwebtoken`.
//!
//! A token is the compact three-part form: a fixed header, a payload with
//! the claims `sub` (a string) and `exp` (seconds since the Unix epoch), and
//! an HMAC-SHA256 signature over both under a shared secret.

use jsonwebtoken::errors::ErrorKind;
use jsonwebtoken::{decode, encode, DecodingKey, EncodingKey, Header, Validation};
use serde_json::Value;
use vstd::prelude::*;

verus! {

/// The error type of `jsonwebtoken`.
#[verifier::external_type_specification]
#[verifier::external_body]
pub struct ExJwtError(jsonwebtoken::errors::Error);

/// What the payload of a correctly signed token holds of the two claims:
/// each is absent where the payload lacks it or holds it in another type.
#[derive(Clone, Debug, PartialEq, Eq)]
pub struct RawClaims {
    pub sub: Option<String>,
    pub exp: Option<u64>,
}

/// The mathematical content of [`RawClaims`].
pub struct RawClaimsView {
    pub sub: Option<Seq<char>>,
    pub exp: Option<u64>,
}

impl View for RawClaims {
    type V = RawClaimsView;

    open spec fn view(&self) -> RawClaimsView {
        RawClaimsView {
            sub: match self.sub {
                Some(s) => Some(s@),
                None => None,
            },
            exp: self.exp,
        }
    }
}

/// Why a token could not be opened.
#[derive(Clone, Copy, Debug, PartialEq, Eq, Structural)]
pub enum DecodeFailure {
    /// The token has the shape of one, but its signature does not match.
    InvalidSignature,
    /// Anything else: not three parts, an unreadable header or payload, an
    /// algorithm other than the expected one, a claim that fails validation.
    Unreadable,
}

/// The outcome of opening a token, as a mathematical value.
pub open spec fn decoded_view(r: Result<RawClaims, DecodeFailure>) -> Result<
    RawClaimsView,
    DecodeFailure,
> {
    match r {
        Ok(raw) => Ok(raw@),
        Err(e) => Err(e),
    }
}

/// The token that `jsonwebtoken` makes for subject `sub` and expiry `exp`
/// under `secret`, if it makes one.
pub uninterp spec fn jwt_signed(sub: Seq<char>, exp: u64, secret: Seq<char>) -> Option<Seq<char>>;

/// What `jsonwebtoken` finds when it opens `token` under `secret`, with the
/// signature checked and the expiry not compared to any clock.
pub uninterp spec fn jwt_opened(token: Seq<char>, secret: Seq<char>) -> Result<
    RawClaimsView,
    DecodeFailure,
>;

/// Calls `jsonwebtoken::encode` with the default header (HS256), an
/// HMAC key made of the bytes of `secret`, and a payload object with the
/// members `sub` and `exp`, in that order.
///
/// Trusted: the result is the one named by `jwt_signed`; and a token that
/// comes out opens again under the same secret, with the same two claims, as
/// the crate documents for `encode` followed by `decode`. The call succeeds:
/// `encode` fails where the key's family is not the header's (both are HMAC
/// here), where `serde_json` cannot write the header or the payload (it
/// documents failure for a failing `Serialize` impl and for map keys that
/// are no strings; here all keys are strings and the values a string and an
/// integer), and where signing fails (HMAC signing returns no error).
#[verifier::external_body]
pub(crate) fn jwt_encode(sub: &str, exp: u64, secret: &str) -> (r: Result<
    String,
    jsonwebtoken::errors::Error,
>)
    ensures
        r is Ok,
        match r {
            Ok(token) => jwt_signed(sub@, exp, secret@) == Some(token@) && jwt_opened(
                token@,
                secret@,
            ) == Ok::<RawClaimsView, DecodeFailure>(
                (RawClaimsView { sub: Some(sub@), exp: Some(exp) }),
            ),
            Err(_) => jwt_signed(sub@, exp, secret@) is None,
        },
{
    let mut claims = serde_json::Map::new();
    claims.insert("sub".to_string(), Value::from(sub));
    claims.insert("exp".to_string(), Value::from(exp));
    encode(&Header::default(), &claims, &EncodingKey::from_secret(secret.as_bytes()))
}

/// Calls `jsonwebtoken::decode` with an HMAC key made of the bytes of
/// `secret` and the default validation (HS256 only, `exp` required), except
/// that the expiry is not compared to the system clock. From the payload it
/// takes `sub` where that is a string and `exp` where that is an unsigned
/// integer; of the crate's error it keeps whether it is `InvalidSignature`.
///
/// Trusted: the result is the one named by `jwt_opened`.
#[verifier::external_body]
pub(crate) fn jwt_decode(token: &str, secret: &str) -> (r: Result<RawClaims, DecodeFailure>)
    ensures
        decoded_view(r) == jwt_opened(token@, secret@),
{
    let key = DecodingKey::from_secret(secret.as_bytes());
    let mut rules = Validation::default();
    rules.validate_exp = false;
    match decode::<serde_json::Map<String, Value>>(token, &key, &rules) {
        Ok(data) => Ok(RawClaims {
            sub: data.claims.get("sub").and_then(Value::as_str).map(String::from),
            exp: data.claims.get("exp").and_then(Value::as_u64),
        }),
        Err(e) => match e.kind() {
            ErrorKind::InvalidSignature => Err(DecodeFailure::InvalidSignature),
            _ => Err(DecodeFailure::Unreadable),
        },
    }
}

} // verus!
