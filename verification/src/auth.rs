//! Bearer tokens: issuing them, validating them, and extracting the caller's
//! identity from the headers of a request.

use crate::clock::unix_now;
use crate::error::{AuthError, ConfigError, ServiceError};
use crate::headers::{header_text, header_texts};
use crate::ids::{uuid_from_text, uuid_parsed};
use crate::jwt::{
    decoded_view, jwt_decode, jwt_encode, jwt_opened, jwt_signed, DecodeFailure, RawClaims,
    RawClaimsView,
};
use crate::models::{text_view, Claims, ClaimsView};
use http::header::{HeaderMap, HeaderValue};
use vstd::prelude::*;

verus! {

/// How long a token stays valid after it was issued: 24 hours, in seconds.
pub const TOKEN_LIFETIME_SECS: i64 = 86_400;

/// The header that carries the credential.
pub const AUTHORIZATION_HEADER: &'static str = "Authorization";

/// The scheme prefix that precedes the token in the header.
pub const BEARER_PREFIX: &'static str = "Bearer ";

/// The signing configuration: loaded once at start-up, then handed to every
/// function that signs or checks a token. It never changes, and it cannot be
/// printed.
#[derive(Clone)]
pub struct AuthConfig {
    secret: String,
}

impl AuthConfig {
    /// The symmetric signing key.
    pub closed spec fn secret_text(&self) -> Seq<char> {
        self.secret@
    }

    /// Takes the secret as it was found in the process configuration. An
    /// absent secret is an error: there is no default.
    pub fn new(secret: Option<String>) -> (r: Result<AuthConfig, ConfigError>)
        ensures
            match secret {
                Some(s) => r matches Ok(config) && config.secret_text() == s@,
                None => r == Err::<AuthConfig, ConfigError>(ConfigError::MissingSecret),
            },
    {
        match secret {
            Some(secret) => Ok(AuthConfig { secret }),
            None => Err(ConfigError::MissingSecret),
        }
    }

    /// The symmetric signing key.
    pub fn secret(&self) -> (s: &str)
        ensures
            s@ == self.secret_text(),
    {
        self.secret.as_str()
    }
}

/// The expiry of a token issued at `now`.
pub open spec fn expiry_after(now: i64) -> int {
    now + TOKEN_LIFETIME_SECS
}

/// Whether `token` is correctly signed under `secret` and carries exactly the
/// subject `sub` and the expiry `exp`.
pub open spec fn token_carries(
    token: Seq<char>,
    secret: Seq<char>,
    sub: Seq<char>,
    exp: u64,
) -> bool {
    jwt_opened(token, secret) == Ok::<RawClaimsView, DecodeFailure>(
        RawClaimsView { sub: Some(sub), exp: Some(exp) },
    )
}

/// What issuing a token for `sub` at `now` under `secret` gives: the signed
/// token whose expiry is 24 hours after `now`, or a backend failure where
/// that expiry is no valid expiry or the signing fails.
pub open spec fn issue_outcome(sub: Seq<char>, now: i64, secret: Seq<char>) -> Result<
    Seq<char>,
    ServiceError,
> {
    if 0 <= expiry_after(now) <= usize::MAX {
        match jwt_signed(sub, expiry_after(now) as u64, secret) {
            Some(token) => Ok(token),
            None => Err(ServiceError::TokenBackend),
        }
    } else {
        Err(ServiceError::TokenBackend)
    }
}

/// What validating an opened token at `now` gives. A token that did not open
/// is `InvalidSignature` where its signature did not match and `Malformed`
/// otherwise. One that opened is `Malformed` unless it holds a subject and an
/// expiry that fits the machine, then `Expired` unless the expiry lies
/// strictly after `now`, and else yields its claims.
pub open spec fn validate_outcome(opened: Result<RawClaimsView, DecodeFailure>, now: i64) -> Result<
    ClaimsView,
    AuthError,
> {
    match opened {
        Err(DecodeFailure::InvalidSignature) => Err(AuthError::InvalidSignature),
        Err(DecodeFailure::Unreadable) => Err(AuthError::Malformed),
        Ok(raw) => match (raw.sub, raw.exp) {
            (Some(sub), Some(exp)) => if exp > usize::MAX {
                Err(AuthError::Malformed)
            } else if exp > now {
                Ok(ClaimsView { sub, exp: exp as usize })
            } else {
                Err(AuthError::Expired)
            },
            _ => Err(AuthError::Malformed),
        },
    }
}

/// The outcome of a validation, as a mathematical value.
pub open spec fn claims_view(r: Result<Claims, AuthError>) -> Result<ClaimsView, AuthError> {
    match r {
        Ok(claims) => Ok(claims@),
        Err(e) => Err(e),
    }
}

/// A token that carries a subject and an expiry validates to exactly those
/// claims at every instant before the expiry, and is `Expired` at the expiry
/// and at every instant after it.
pub proof fn lemma_valid_until_expiry(
    token: Seq<char>,
    secret: Seq<char>,
    sub: Seq<char>,
    exp: usize,
    now: i64,
)
    requires
        token_carries(token, secret, sub, exp as u64),
    ensures
        now < exp ==> validate_outcome(jwt_opened(token, secret), now) == Ok::<
            ClaimsView,
            AuthError,
        >(ClaimsView { sub, exp }),
        now >= exp ==> validate_outcome(jwt_opened(token, secret), now) == Err::<
            ClaimsView,
            AuthError,
        >(AuthError::Expired),
{
}

/// Issues a token for the subject `sub` at the instant `now`: it binds `sub`
/// and the expiry `now` plus 24 hours, and is signed with the configured
/// secret.
///
/// A token is issued for every instant whose expiry is a valid expiry. It
/// carries exactly that subject and that expiry, which lies strictly after
/// `now`; so it validates to them at `now`.
pub fn issue_jwt_at(sub: &str, now: i64, config: &AuthConfig) -> (r: Result<String, ServiceError>)
    ensures
        text_view(r) == issue_outcome(sub@, now, config.secret_text()),
        r is Ok <==> 0 <= expiry_after(now) <= usize::MAX,
        r matches Ok(token) ==> {
            &&& now < expiry_after(now) <= usize::MAX
            &&& token_carries(token@, config.secret_text(), sub@, expiry_after(now) as u64)
            &&& validate_outcome(jwt_opened(token@, config.secret_text()), now) == Ok::<
                ClaimsView,
                AuthError,
            >(ClaimsView { sub: sub@, exp: expiry_after(now) as usize })
        },
{
    if now < -TOKEN_LIFETIME_SECS {
        return Err(ServiceError::TokenBackend);
    }
    let exp: u64 = if now < 0 {
        (now + TOKEN_LIFETIME_SECS) as u64
    } else {
        now as u64 + TOKEN_LIFETIME_SECS as u64
    };
    if exp > usize::MAX as u64 {
        return Err(ServiceError::TokenBackend);
    }
    let claims = Claims { sub: sub.to_string(), exp: exp as usize };
    match jwt_encode(claims.sub.as_str(), claims.exp as u64, config.secret()) {
        Ok(token) => Ok(token),
        Err(_) => Err(ServiceError::TokenBackend),
    }
}

/// Issues a token for the subject `sub` now, by the system clock. See
/// [`issue_jwt_at`].
pub fn issue_jwt(sub: &str, config: &AuthConfig) -> (r: Result<String, ServiceError>)
    ensures
        exists|now: i64| text_view(r) == #[trigger] issue_outcome(sub@, now, config.secret_text()),
        r matches Ok(token) ==> exists|now: i64|
            now < expiry_after(now) <= usize::MAX && #[trigger] token_carries(
                token@,
                config.secret_text(),
                sub@,
                expiry_after(now) as u64,
            ),
{
    let now = unix_now();
    issue_jwt_at(sub, now, config)
}

/// Decides on a token that has been opened: see [`validate_outcome`].
pub fn check_opened(opened: Result<RawClaims, DecodeFailure>, now: i64) -> (r: Result<
    Claims,
    AuthError,
>)
    ensures
        claims_view(r) == validate_outcome(decoded_view(opened), now),
{
    match opened {
        Err(DecodeFailure::InvalidSignature) => Err(AuthError::InvalidSignature),
        Err(DecodeFailure::Unreadable) => Err(AuthError::Malformed),
        Ok(raw) => match (raw.sub, raw.exp) {
            (Some(sub), Some(exp)) => {
                if exp > usize::MAX as u64 {
                    Err(AuthError::Malformed)
                } else if now < 0 || (now as u64) < exp {
                    Ok(Claims { sub, exp: exp as usize })
                } else {
                    Err(AuthError::Expired)
                }
            },
            _ => Err(AuthError::Malformed),
        },
    }
}

/// Validates `token` at the instant `now`: checks its signature under the
/// configured secret, then that its expiry lies strictly after `now`, and
/// returns its claims only when both hold.
pub fn validate_jwt_at(token: &str, now: i64, config: &AuthConfig) -> (r: Result<Claims, AuthError>)
    ensures
        claims_view(r) == validate_outcome(jwt_opened(token@, config.secret_text()), now),
{
    check_opened(jwt_decode(token, config.secret()), now)
}

/// Validates `token` now, by the system clock. See [`validate_jwt_at`].
pub fn validate_jwt(token: &str, config: &AuthConfig) -> (r: Result<Claims, AuthError>)
    ensures
        exists|now: i64|
            claims_view(r) == #[trigger] validate_outcome(
                jwt_opened(token@, config.secret_text()),
                now,
            ),
{
    let now = unix_now();
    validate_jwt_at(token, now, config)
}

/// What is left of `text` once the leading `prefix` is taken off, if `text`
/// begins with it.
pub open spec fn stripped(text: Seq<char>, prefix: Seq<char>) -> Option<Seq<char>> {
    if prefix.is_prefix_of(text) {
        Some(text.skip(prefix.len() as int))
    } else {
        None
    }
}

/// Takes the leading `prefix` off `text`, if `text` begins with it.
pub fn strip_prefix<'a>(text: &'a str, prefix: &str) -> (rest: Option<&'a str>)
    ensures
        match rest {
            Some(r) => stripped(text@, prefix@) == Some(r@),
            None => stripped(text@, prefix@) is None,
        },
{
    let n = text.unicode_len();
    let p = prefix.unicode_len();
    if n < p {
        return None;
    }
    let mut i: usize = 0;
    while i < p
        invariant
            i <= p <= n,
            n == text@.len(),
            p == prefix@.len(),
            forall|j: int| 0 <= j < i ==> text@[j] == prefix@[j],
        decreases p - i,
    {
        if text.get_char(i) != prefix.get_char(i) {
            assert(prefix@[i as int] != text@.subrange(0, p as int)[i as int]);
            return None;
        }
        i += 1;
    }
    assert(prefix@ =~= text@.subrange(0, p as int));
    Some(text.substring_char(p, n))
}

/// The caller of a protected route, once its credential has been checked.
#[derive(Clone, Copy, Debug, PartialEq, Eq, Structural)]
pub struct AuthUser {
    pub user_id: u128,
}

/// What extracting an identity from the text of the `Authorization` header
/// gives at `now`. The header must be present and begin with `Bearer `; what
/// follows must validate as a token; the token's subject must be an
/// identifier. Each failure has its own error, in that order.
pub open spec fn extract_outcome(header: Option<Seq<char>>, now: i64, secret: Seq<char>) -> Result<
    AuthUser,
    AuthError,
> {
    match header {
        None => Err(AuthError::MissingHeader),
        Some(text) => match stripped(text, BEARER_PREFIX@) {
            None => Err(AuthError::BadScheme),
            Some(token) => match validate_outcome(jwt_opened(token, secret), now) {
                Err(e) => Err(e),
                Ok(claims) => match uuid_parsed(claims.sub) {
                    Some(user_id) => Ok(AuthUser { user_id }),
                    None => Err(AuthError::MalformedSubject),
                },
            },
        },
    }
}

/// A header made of `Bearer ` and a token that carries an identifier as its
/// subject admits that identifier at every instant before the token's expiry,
/// and is `Expired` from the expiry on.
pub proof fn lemma_bearer_admits(
    token: Seq<char>,
    secret: Seq<char>,
    sub: Seq<char>,
    exp: usize,
    user_id: u128,
    now: i64,
)
    requires
        token_carries(token, secret, sub, exp as u64),
        uuid_parsed(sub) == Some(user_id),
    ensures
        now < exp ==> extract_outcome(Some(BEARER_PREFIX@ + token), now, secret) == Ok::<
            AuthUser,
            AuthError,
        >(AuthUser { user_id }),
        now >= exp ==> extract_outcome(Some(BEARER_PREFIX@ + token), now, secret) == Err::<
            AuthUser,
            AuthError,
        >(AuthError::Expired),
{
    let header = BEARER_PREFIX@ + token;
    assert(header.subrange(0, BEARER_PREFIX@.len() as int) =~= BEARER_PREFIX@);
    assert(header.skip(BEARER_PREFIX@.len() as int) =~= token);
    lemma_valid_until_expiry(token, secret, sub, exp, now);
}

/// Where the signature of the token in a bearer header is found not to
/// match under the configured secret, extraction answers `InvalidSignature`
/// at every instant: no subject is returned, whatever the payload holds.
pub proof fn lemma_bad_signature_is_rejected(token: Seq<char>, secret: Seq<char>, now: i64)
    ensures
        jwt_opened(token, secret) == Err::<RawClaimsView, DecodeFailure>(
            DecodeFailure::InvalidSignature,
        ) ==> extract_outcome(Some(BEARER_PREFIX@ + token), now, secret) == Err::<
            AuthUser,
            AuthError,
        >(AuthError::InvalidSignature),
{
    let header = BEARER_PREFIX@ + token;
    assert(header.subrange(0, BEARER_PREFIX@.len() as int) =~= BEARER_PREFIX@);
    assert(header.skip(BEARER_PREFIX@.len() as int) =~= token);
}

/// The text of the `Authorization` header among `headers`, if there is one
/// that reads as text.
pub open spec fn authorization_of(headers: HeaderMap<HeaderValue>) -> Option<Seq<char>> {
    if header_texts(headers).contains_key(AUTHORIZATION_HEADER@) {
        Some(header_texts(headers)[AUTHORIZATION_HEADER@])
    } else {
        None
    }
}

/// The text of an optional header, as a mathematical value.
pub open spec fn header_view(header: Option<&str>) -> Option<Seq<char>> {
    match header {
        Some(text) => Some(text@),
        None => None,
    }
}

impl AuthUser {
    /// Extracts the caller's identity from the text of the `Authorization`
    /// header, at the instant `now`: see [`extract_outcome`]. It changes
    /// nothing.
    pub fn from_authorization(header: Option<&str>, now: i64, config: &AuthConfig) -> (r: Result<
        AuthUser,
        AuthError,
    >)
        ensures
            r == extract_outcome(header_view(header), now, config.secret_text()),
    {
        let text = match header {
            Some(text) => text,
            None => { return Err(AuthError::MissingHeader); },
        };
        let token = match strip_prefix(text, BEARER_PREFIX) {
            Some(token) => token,
            None => { return Err(AuthError::BadScheme); },
        };
        let claims = match validate_jwt_at(token, now, config) {
            Ok(claims) => claims,
            Err(e) => { return Err(e); },
        };
        match uuid_from_text(claims.sub.as_str()) {
            Some(user_id) => Ok(AuthUser { user_id }),
            None => Err(AuthError::MalformedSubject),
        }
    }

    /// The guard of every protected route: reads the `Authorization` header
    /// of the request and extracts the caller's identity from it, now, by the
    /// system clock. See [`AuthUser::from_authorization`].
    pub fn from_request_parts(headers: &HeaderMap<HeaderValue>, config: &AuthConfig) -> (r: Result<
        AuthUser,
        AuthError,
    >)
        ensures
            exists|now: i64|
                r == #[trigger] extract_outcome(
                    authorization_of(*headers),
                    now,
                    config.secret_text(),
                ),
            authorization_of(*headers) is None ==> r == Err::<AuthUser, AuthError>(
                AuthError::MissingHeader,
            ),
    {
        let header = header_text(headers, AUTHORIZATION_HEADER);
        let now = unix_now();
        match header {
            Some(text) => AuthUser::from_authorization(Some(text.as_str()), now, config),
            None => AuthUser::from_authorization(None, now, config),
        }
    }
}

} // verus!
