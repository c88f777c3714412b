//! The records that cross the boundary of the authentication core.

use crate::clock::{format_utc, utc_text};
use crate::utils::format_datetime_pretty;
use vstd::prelude::*;

verus! {

/// The outcome of an operation that yields a text, as a mathematical value.
pub open spec fn text_view<E>(r: Result<String, E>) -> Result<Seq<char>, E> {
    match r {
        Ok(text) => Ok(text@),
        Err(e) => Err(e),
    }
}

/// The pattern under which instants are shown to clients.
pub const PRETTY_PATTERN: &'static str = "%Y-%m-%d %H:%M:%S UTC";

/// An instant, in whole seconds since the Unix epoch, that the calendar can
/// show under [`PRETTY_PATTERN`].
#[derive(Clone, Copy, Debug, PartialEq, Eq)]
pub struct Timestamp {
    secs: i64,
}

impl Timestamp {
    /// Every `Timestamp` has a text under [`PRETTY_PATTERN`].
    #[verifier::type_invariant]
    pub open spec fn shown(self) -> bool {
        utc_text(self.spec_secs(), PRETTY_PATTERN@) is Some
    }

    /// Seconds since the Unix epoch.
    pub closed spec fn spec_secs(self) -> i64 {
        self.secs
    }

    /// The instant `secs` seconds after the Unix epoch, if the calendar
    /// reaches it.
    pub fn from_unix(secs: i64) -> (r: Option<Timestamp>)
        ensures
            r is Some <==> utc_text(secs, PRETTY_PATTERN@) is Some,
            r matches Some(t) ==> t.spec_secs() == secs,
    {
        match format_utc(secs, PRETTY_PATTERN) {
            Some(_) => Some(Timestamp { secs }),
            None => None,
        }
    }

    /// Seconds since the Unix epoch.
    #[verifier::when_used_as_spec(spec_secs)]
    pub fn secs(self) -> (s: i64)
        ensures
            s == self.spec_secs(),
    {
        self.secs
    }
}

/// A stored account, as the storage collaborator returns it.
#[derive(Clone, Debug, PartialEq, Eq)]
pub struct User {
    pub id: u128,
    pub username: String,
    pub email: String,
    pub password_hash: String,
    pub created_at: Timestamp,
}

/// The mathematical content of a [`User`].
pub struct UserView {
    pub id: u128,
    pub username: Seq<char>,
    pub email: Seq<char>,
    pub password_hash: Seq<char>,
    pub created_at: i64,
}

impl View for User {
    type V = UserView;

    open spec fn view(&self) -> UserView {
        UserView {
            id: self.id,
            username: self.username@,
            email: self.email@,
            password_hash: self.password_hash@,
            created_at: self.created_at.spec_secs(),
        }
    }
}

/// What a client may see of an account: a [`User`] without its password hash,
/// with the creation time written out.
#[derive(Clone, Debug, PartialEq, Eq)]
pub struct PublicUser {
    pub id: u128,
    pub username: String,
    pub email: String,
    pub created_at: String,
}

/// The mathematical content of a [`PublicUser`].
pub struct PublicUserView {
    pub id: u128,
    pub username: Seq<char>,
    pub email: Seq<char>,
    pub created_at: Seq<char>,
}

impl View for PublicUser {
    type V = PublicUserView;

    open spec fn view(&self) -> PublicUserView {
        PublicUserView {
            id: self.id,
            username: self.username@,
            email: self.email@,
            created_at: self.created_at@,
        }
    }
}

/// The public projection of an account: identifier, name and address as they
/// are, the creation time as the calendar shows it, and no password hash.
pub open spec fn public_profile(user: UserView) -> PublicUserView
    recommends
        utc_text(user.created_at, PRETTY_PATTERN@) is Some,
{
    PublicUserView {
        id: user.id,
        username: user.username,
        email: user.email,
        created_at: utc_text(user.created_at, PRETTY_PATTERN@).unwrap(),
    }
}

impl From<User> for PublicUser {
    fn from(user: User) -> (profile: PublicUser)
        ensures
            profile@ == public_profile(user@),
    {
        PublicUser {
            id: user.id,
            username: user.username,
            email: user.email,
            created_at: format_datetime_pretty(user.created_at),
        }
    }
}

/// Contracts compare strings by their text, which no spec function turns back
/// into a `String`: the conversion is specified by the `ensures` of `from`.
impl vstd::std_specs::convert::FromSpecImpl<User> for PublicUser {
    open spec fn obeys_from_spec() -> bool {
        false
    }

    open spec fn from_spec(user: User) -> PublicUser {
        arbitrary()
    }
}

/// The body of a registration request.
#[derive(Clone, Debug, PartialEq, Eq)]
pub struct CreateUser {
    pub username: String,
    pub email: String,
    pub password: String,
}

/// The mathematical content of a [`CreateUser`].
pub struct CreateUserView {
    pub username: Seq<char>,
    pub email: Seq<char>,
    pub password: Seq<char>,
}

impl View for CreateUser {
    type V = CreateUserView;

    open spec fn view(&self) -> CreateUserView {
        CreateUserView {
            username: self.username@,
            email: self.email@,
            password: self.password@,
        }
    }
}

/// What registration hands to the storage collaborator to insert: the
/// password has been replaced by its hash.
#[derive(Clone, Debug, PartialEq, Eq)]
pub struct NewUser {
    pub username: String,
    pub email: String,
    pub password_hash: String,
}

/// The mathematical content of a [`NewUser`].
pub struct NewUserView {
    pub username: Seq<char>,
    pub email: Seq<char>,
    pub password_hash: Seq<char>,
}

impl View for NewUser {
    type V = NewUserView;

    open spec fn view(&self) -> NewUserView {
        NewUserView {
            username: self.username@,
            email: self.email@,
            password_hash: self.password_hash@,
        }
    }
}

/// The body of a login request.
#[derive(Clone, Debug, PartialEq, Eq)]
pub struct LoginRequest {
    pub email: String,
    pub password: String,
}

/// The body of a successful login response.
#[derive(Clone, Debug, PartialEq, Eq)]
pub struct LoginResponse {
    pub token: String,
}

/// What a token binds: the subject it was issued to and the instant, in
/// seconds since the Unix epoch, at which it stops being valid.
#[derive(Clone, Debug, PartialEq, Eq)]
pub struct Claims {
    pub sub: String,
    pub exp: usize,
}

/// The mathematical content of [`Claims`].
pub struct ClaimsView {
    pub sub: Seq<char>,
    pub exp: usize,
}

impl View for Claims {
    type V = ClaimsView;

    open spec fn view(&self) -> ClaimsView {
        ClaimsView { sub: self.sub@, exp: self.exp }
    }
}

} // verus!
