//! Tests of the hashing wrappers and of the per-request decisions: each
//! algorithm's round trip, a rejected wrong password, digest shape, and the
//! hash selection a request implies.

use pwgen2::action::Action;
use pwgen2::hash::{
    hash_bcrypt, hash_pbkdf2, hash_sha512, verify_bcrypt, verify_pbkdf2, verify_sha512, HashError,
};

#[test]
fn test_hash_bcrypt() {
    let password = "password";
    let hashed = hash_bcrypt(password).unwrap();
    assert!(verify_bcrypt(password, &hashed).unwrap());
}

#[test]
fn test_hash_pbkdf2() {
    let password = "password";
    let hashed = hash_pbkdf2(password).unwrap();
    assert!(verify_pbkdf2(password, &hashed).unwrap());
}

#[test]
fn test_hash_sha512() {
    let password = "password";
    let hashed = hash_sha512(password).unwrap();
    assert!(verify_sha512(password, &hashed).unwrap());
}

#[test]
fn bcrypt_digest_is_sixty_characters() {
    let hashed = hash_bcrypt("secret").unwrap();
    assert_eq!(hashed.len(), 60);
}

#[test]
fn wrong_passwords_are_rejected() {
    let hashed = hash_bcrypt("right").unwrap();
    assert!(!verify_bcrypt("wrong", &hashed).unwrap());

    let hashed = hash_pbkdf2("right").unwrap();
    assert!(!verify_pbkdf2("wrong", &hashed).unwrap());

    let hashed = hash_sha512("right").unwrap();
    assert!(!verify_sha512("wrong", &hashed).unwrap());
}

#[test]
fn malformed_pbkdf2_digest_is_an_error() {
    assert_eq!(
        verify_pbkdf2("password", "not a digest"),
        Err(HashError::Pbkdf2)
    );
}

#[test]
fn hash_error_messages_name_the_algorithm() {
    assert_eq!(
        HashError::Bcrypt.message(),
        "Failed to hash or verify using bcrypt."
    );
    assert_eq!(
        HashError::Pbkdf2.message(),
        "Failed to hash or verify using PBKDF2."
    );
    assert_eq!(
        HashError::Sha512.message(),
        "Failed to hash or verify using SHA-512."
    );
}

fn run_action(bcrypt: bool, pbkdf2: bool, sha512: bool) -> Action {
    Action::Run {
        pw_length: 10,
        num_pw: 1,
        pin: false,
        alphanumeric: false,
        bcrypt,
        pbkdf2,
        sha512,
        charset: None,
        json: false,
    }
}

#[test]
fn digest_for_follows_the_flags() {
    assert!(run_action(false, false, false)
        .digest_for("password")
        .is_none());

    let digest = run_action(true, false, false).digest_for("password").unwrap();
    assert!(verify_bcrypt("password", &digest).unwrap());

    let digest = run_action(false, true, false).digest_for("password").unwrap();
    assert!(verify_pbkdf2("password", &digest).unwrap());

    let digest = run_action(false, false, true).digest_for("password").unwrap();
    assert!(verify_sha512("password", &digest).unwrap());
}
