use auth_core::error::{
    AuthError, ServiceError, StorageError, STATUS_CONFLICT, STATUS_CREATED, STATUS_INTERNAL,
    STATUS_UNAUTHORIZED,
};

#[test]
fn status_constants() {
    assert_eq!(STATUS_CREATED, 201);
    assert_eq!(STATUS_UNAUTHORIZED, 401);
    assert_eq!(STATUS_CONFLICT, 409);
    assert_eq!(STATUS_INTERNAL, 500);
}

#[test]
fn status_of_each_error() {
    assert_eq!(ServiceError::InvalidCredentials.status(), 401);
    assert_eq!(ServiceError::Unauthorized(AuthError::Expired).status(), 401);
    assert_eq!(ServiceError::Conflict.status(), 409);
    assert_eq!(ServiceError::Storage.status(), 500);
    assert_eq!(ServiceError::HashBackend.status(), 500);
    assert_eq!(ServiceError::TokenBackend.status(), 500);
}

#[test]
fn message_of_each_error() {
    assert_eq!(ServiceError::InvalidCredentials.message(), "invalid credentials");
    assert_eq!(ServiceError::Unauthorized(AuthError::Malformed).message(), "invalid token");
    assert_eq!(ServiceError::Conflict.message(), "conflict");
    assert_eq!(ServiceError::Storage.message(), "internal error");
    assert_eq!(ServiceError::HashBackend.message(), "internal error");
    assert_eq!(ServiceError::TokenBackend.message(), "internal error");
}

#[test]
fn rejection_is_status_and_message() {
    assert_eq!(
        ServiceError::InvalidCredentials.rejection(),
        (401, "invalid credentials".to_string())
    );
    assert_eq!(ServiceError::Conflict.rejection(), (409, "conflict".to_string()));
    assert_eq!(ServiceError::Storage.rejection(), (500, "internal error".to_string()));
}

#[test]
fn backend_failures_are_answered_alike() {
    let storage = ServiceError::Storage.rejection();
    assert_eq!(ServiceError::HashBackend.rejection(), storage);
    assert_eq!(ServiceError::TokenBackend.rejection(), storage);
}

#[test]
fn storage_failures_in_the_taxonomy() {
    assert_eq!(ServiceError::from_storage(StorageError::Conflict), ServiceError::Conflict);
    assert_eq!(ServiceError::from_storage(StorageError::Backend), ServiceError::Storage);
}

#[test]
fn auth_errors_in_the_taxonomy() {
    assert_eq!(
        ServiceError::from(AuthError::MissingHeader),
        ServiceError::Unauthorized(AuthError::MissingHeader)
    );
    let lifted: ServiceError = AuthError::Expired.into();
    assert_eq!(lifted, ServiceError::Unauthorized(AuthError::Expired));
}

#[test]
fn auth_errors_are_distinct_values() {
    assert_ne!(AuthError::Malformed, AuthError::InvalidSignature);
    assert_ne!(AuthError::InvalidSignature, AuthError::Expired);
    assert_ne!(AuthError::Malformed, AuthError::Expired);
    assert_ne!(AuthError::MissingHeader, AuthError::BadScheme);
    assert_ne!(AuthError::Malformed, AuthError::MalformedSubject);
}
