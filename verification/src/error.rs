//! The error taxonomy, and the one place where an error becomes a transport
//! status and a message.

use vstd::prelude::*;

verus! {

/// Why a request's bearer credential was rejected. The variants are told
/// apart for logs and metrics only: [`ServiceError::rejection`] answers all
/// of them alike.
#[derive(Clone, Copy, Debug, PartialEq, Eq, Structural)]
pub enum AuthError {
    /// The request has no readable `Authorization` header.
    MissingHeader,
    /// The header does not begin with the bearer scheme.
    BadScheme,
    /// The credential cannot be read as a token.
    Malformed,
    /// The token reads, but was not signed with the configured key.
    InvalidSignature,
    /// The signature holds, but the token's expiry has passed.
    Expired,
    /// The token is valid, but its subject is no identifier.
    MalformedSubject,
}

/// Why the storage collaborator did not do what it was asked.
#[derive(Clone, Copy, Debug, PartialEq, Eq, Structural)]
pub enum StorageError {
    /// A unique field, the email address, is already taken.
    Conflict,
    /// The backend failed.
    Backend,
}

/// Why the signing secret could not be configured.
#[derive(Clone, Copy, Debug, PartialEq, Eq, Structural)]
pub enum ConfigError {
    /// No secret was supplied.
    MissingSecret,
}

/// Every way in which an endpoint fails.
#[derive(Clone, Copy, Debug, PartialEq, Eq, Structural)]
pub enum ServiceError {
    /// Login with an unknown address or a wrong password.
    InvalidCredentials,
    /// A protected route was asked for without a valid bearer token.
    Unauthorized(AuthError),
    /// Registration with an address that is already present.
    Conflict,
    /// The storage backend failed.
    Storage,
    /// The password hashing backend failed.
    HashBackend,
    /// The token signing backend failed.
    TokenBackend,
}

/// Transport status for a rejected credential.
pub const STATUS_UNAUTHORIZED: u16 = 401;

/// Transport status for a duplicate unique field.
pub const STATUS_CONFLICT: u16 = 409;

/// Transport status for a backend failure.
pub const STATUS_INTERNAL: u16 = 500;

/// Transport status of a successful registration.
pub const STATUS_CREATED: u16 = 201;

impl ServiceError {
    /// How a storage failure surfaces: a conflict stays a conflict, anything
    /// else is a storage error.
    pub open spec fn of_storage(e: StorageError) -> ServiceError {
        match e {
            StorageError::Conflict => ServiceError::Conflict,
            StorageError::Backend => ServiceError::Storage,
        }
    }

    /// The transport status of each error kind.
    pub open spec fn spec_status(self) -> u16 {
        match self {
            ServiceError::InvalidCredentials => STATUS_UNAUTHORIZED,
            ServiceError::Unauthorized(_) => STATUS_UNAUTHORIZED,
            ServiceError::Conflict => STATUS_CONFLICT,
            ServiceError::Storage => STATUS_INTERNAL,
            ServiceError::HashBackend => STATUS_INTERNAL,
            ServiceError::TokenBackend => STATUS_INTERNAL,
        }
    }

    /// The message sent with each error kind. It names no cause.
    pub open spec fn spec_message(self) -> Seq<char> {
        match self {
            ServiceError::InvalidCredentials => "invalid credentials"@,
            ServiceError::Unauthorized(_) => "invalid token"@,
            ServiceError::Conflict => "conflict"@,
            ServiceError::Storage => "internal error"@,
            ServiceError::HashBackend => "internal error"@,
            ServiceError::TokenBackend => "internal error"@,
        }
    }

    /// Lifts a storage failure into the taxonomy.
    pub fn from_storage(e: StorageError) -> (r: ServiceError)
        ensures
            r == ServiceError::of_storage(e),
    {
        match e {
            StorageError::Conflict => ServiceError::Conflict,
            StorageError::Backend => ServiceError::Storage,
        }
    }

    /// The transport status for this error.
    #[verifier::when_used_as_spec(spec_status)]
    pub fn status(self) -> (code: u16)
        ensures
            code == self.spec_status(),
    {
        match self {
            ServiceError::InvalidCredentials => STATUS_UNAUTHORIZED,
            ServiceError::Unauthorized(_) => STATUS_UNAUTHORIZED,
            ServiceError::Conflict => STATUS_CONFLICT,
            ServiceError::Storage => STATUS_INTERNAL,
            ServiceError::HashBackend => STATUS_INTERNAL,
            ServiceError::TokenBackend => STATUS_INTERNAL,
        }
    }

    /// The message for this error.
    pub fn message(self) -> (text: &'static str)
        ensures
            text@ == self.spec_message(),
    {
        match self {
            ServiceError::InvalidCredentials => "invalid credentials",
            ServiceError::Unauthorized(_) => "invalid token",
            ServiceError::Conflict => "conflict",
            ServiceError::Storage => "internal error",
            ServiceError::HashBackend => "internal error",
            ServiceError::TokenBackend => "internal error",
        }
    }

    /// The whole external answer to a failed request: status and body text.
    pub fn rejection(self) -> (r: (u16, String))
        ensures
            r.0 == self.spec_status(),
            r.1@ == self.spec_message(),
    {
        (self.status(), self.message().to_string())
    }
}

impl From<AuthError> for ServiceError {
    fn from(e: AuthError) -> (r: ServiceError) {
        ServiceError::Unauthorized(e)
    }
}

impl vstd::std_specs::convert::FromSpecImpl<AuthError> for ServiceError {
    open spec fn obeys_from_spec() -> bool {
        true
    }

    open spec fn from_spec(e: AuthError) -> ServiceError {
        ServiceError::Unauthorized(e)
    }
}

/// Every rejected credential is answered with the same status and the same
/// message, whatever the reason was.
pub proof fn lemma_auth_errors_answer_alike(a: AuthError, b: AuthError)
    ensures
        ServiceError::Unauthorized(a).spec_status() == STATUS_UNAUTHORIZED,
        ServiceError::Unauthorized(a).spec_status() == ServiceError::Unauthorized(b).spec_status(),
        ServiceError::Unauthorized(a).spec_message() == ServiceError::Unauthorized(b).spec_message(),
{
}

} // verus!
