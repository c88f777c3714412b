use auth_core::error::ServiceError;
use auth_core::utils::{hash_password, hash_password_with_salt, verify_password};

const REFERENCE_HASH: &str =
    "$argon2id$v=19$m=65536,t=2,p=1$c29tZXNhbHQ$CTFhFdXPJO1aFaMaO6Mm5c8y7cJHAph8ArZWb2GRPPc";

#[test]
fn hash_then_verify_accepts_the_password() {
    let hash = hash_password("Secr3t!").unwrap();
    assert!(verify_password(&hash, "Secr3t!"));
}

#[test]
fn hash_then_verify_rejects_another_password() {
    let hash = hash_password("Secr3t!").unwrap();
    assert!(!verify_password(&hash, "secr3t!"));
    assert!(!verify_password(&hash, ""));
}

#[test]
fn hash_of_the_empty_password_verifies() {
    let hash = hash_password("").unwrap();
    assert!(verify_password(&hash, ""));
    assert!(!verify_password(&hash, " "));
}

#[test]
fn hash_of_a_non_ascii_password_verifies() {
    let hash = hash_password("pässwörd-密码").unwrap();
    assert!(verify_password(&hash, "pässwörd-密码"));
    assert!(!verify_password(&hash, "passwörd-密码"));
}

#[test]
fn two_hashes_of_one_password_differ_and_both_verify() {
    let first = hash_password("correct horse").unwrap();
    let second = hash_password("correct horse").unwrap();
    assert_ne!(first, second);
    assert!(verify_password(&first, "correct horse"));
    assert!(verify_password(&second, "correct horse"));
}

#[test]
fn hash_is_self_describing() {
    let hash = hash_password("Secr3t!").unwrap();
    assert!(hash.starts_with("$argon2id$v=19$m=19456,t=2,p=1$"));
    assert_eq!(hash.matches('$').count(), 5);
    assert!(!hash.contains("Secr3t!"));
}

#[test]
fn hash_with_salt_is_determined_by_password_and_salt() {
    let first = hash_password_with_salt("password", "c29tZXNhbHQ").unwrap();
    let second = hash_password_with_salt("password", "c29tZXNhbHQ").unwrap();
    assert_eq!(first, second);
    assert!(first.starts_with("$argon2id$v=19$m=19456,t=2,p=1$c29tZXNhbHQ$"));
    assert_eq!(first.len(), "$argon2id$v=19$m=19456,t=2,p=1$c29tZXNhbHQ$".len() + 43);
    assert!(verify_password(&first, "password"));
}

#[test]
fn hash_with_salt_of_a_known_password() {
    assert_eq!(
        hash_password_with_salt("password", "c29tZXNhbHQ"),
        Ok("$argon2id$v=19$m=19456,t=2,p=1$c29tZXNhbHQ$PL01amPyeUuxG7H0vIr5X+qHkZvWnHmGBGXFYvh8z2E"
            .to_string())
    );
}

#[test]
fn hash_with_salt_depends_on_the_salt() {
    let first = hash_password_with_salt("password", "c29tZXNhbHQ").unwrap();
    let second = hash_password_with_salt("password", "ZGlmZnNhbHQ").unwrap();
    assert_ne!(first, second);
    assert!(verify_password(&second, "password"));
}

#[test]
fn hash_with_salt_depends_on_the_password() {
    let first = hash_password_with_salt("password", "c29tZXNhbHQ").unwrap();
    let second = hash_password_with_salt("differentpassword", "c29tZXNhbHQ").unwrap();
    assert_ne!(first, second);
    assert!(!verify_password(&first, "differentpassword"));
}

#[test]
fn hash_with_an_unusable_salt_is_a_backend_failure() {
    assert_eq!(hash_password_with_salt("password", ""), Err(ServiceError::HashBackend));
    assert_eq!(hash_password_with_salt("password", "abc"), Err(ServiceError::HashBackend));
    assert_eq!(hash_password_with_salt("password", "not a salt!"), Err(ServiceError::HashBackend));
    assert_eq!(
        hash_password_with_salt("password", &"a".repeat(65)),
        Err(ServiceError::HashBackend)
    );
}

#[test]
fn verify_accepts_a_reference_hash() {
    assert!(verify_password(REFERENCE_HASH, "password"));
}

#[test]
fn verify_rejects_a_wrong_password_for_a_reference_hash() {
    assert!(!verify_password(REFERENCE_HASH, "sassword"));
    assert!(!verify_password(REFERENCE_HASH, "Password"));
    assert!(!verify_password(REFERENCE_HASH, ""));
}

#[test]
fn verify_does_not_hand_back_its_argument() {
    assert!(!verify_password(REFERENCE_HASH, REFERENCE_HASH));
    assert!(!verify_password("password", "password"));
}

#[test]
fn verify_of_garbage_is_false() {
    assert!(!verify_password("not-a-hash", "Secr3t!"));
    assert!(!verify_password("", "Secr3t!"));
    assert!(!verify_password("$", "Secr3t!"));
    assert!(!verify_password("$argon2id$", "Secr3t!"));
    assert!(!verify_password("$argon2id$v=19$m=65536,t=2,p=1$c29tZXNhbHQ", "password"));
    assert!(!verify_password("argon2id$v=19$m=65536,t=2,p=1$c29tZXNhbHQ$CTFh", "password"));
    assert!(!verify_password("\u{0}\u{ffff}$$$$$$", "Secr3t!"));
}

#[test]
fn verify_of_an_unreadable_text_that_begins_like_a_hash_is_false() {
    assert!(!verify_password("$argon2id$v=19$m=65536,t=2,p=1$c29tZXNhbHQ$not base64", "password"));
    assert!(!verify_password("$argon2id$v=nineteen$m=65536,t=2,p=1$c29tZXNhbHQ$CTFh", "password"));
    assert!(!verify_password("$$$", "password"));
    assert!(!verify_password("$Argon2ID!$v=19", "password"));
}

#[test]
fn verify_of_a_readable_hash_of_another_algorithm_is_false() {
    assert!(!verify_password("$pbkdf2-sha256$i=1000$c29tZXNhbHQ$CTFhFdXPJO1aFaMaO6Mm5c8y7cJHAph8ArZWb2GRPPc", "password"));
}

#[test]
fn verify_of_a_truncated_hash_is_false() {
    let cut = &REFERENCE_HASH[..REFERENCE_HASH.len() - 1];
    assert!(!verify_password(cut, "password"));
}

#[test]
fn verify_of_a_hash_with_trailing_data_is_false() {
    let longer = format!("{}$extra", REFERENCE_HASH);
    assert!(!verify_password(&longer, "password"));
}
