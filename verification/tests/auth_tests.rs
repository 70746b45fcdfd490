use with_baby_auth::auth::{signin, signup, token_round_trip, username_exists, verify_token};
use with_baby_auth::auth::{Storer, Tokener};
use with_baby_auth::errors::{
    ACCOUNT_ALREADY_EXISTS, ACCOUNT_NOT_EXISTS, FAILED_TO_INSERT_ACCOUNT, FAILED_TO_VERIFY_TOKEN,
    INVALID_CREDENTIAL,
};
use with_baby_auth::errors::Error;
use with_baby_auth::hashers::SHA384Hasher;
use with_baby_auth::storers::MemStorer;
use with_baby_auth::tokeners::JWTTokener;

#[test]
fn error_new_keeps_message_and_code() {
    let e = Error::new("boom", 42);
    assert_eq!(e.msg, "boom");
    assert_eq!(e.code, 42);
    assert_eq!(e.message(), "boom");
}

#[test]
fn signup_then_exists() {
    let mut storer = MemStorer::new();
    let hasher = SHA384Hasher;
    assert!(!username_exists("alice", &storer).unwrap());
    let id = signup("alice", "secret1", &mut storer, &hasher).unwrap();
    assert_eq!(id, 1);
    assert!(username_exists("alice", &storer).unwrap());
    assert!(!username_exists("bob", &storer).unwrap());
}

#[test]
fn signup_assigns_fresh_ids() {
    let mut storer = MemStorer::new();
    let hasher = SHA384Hasher;
    let a = signup("alice", "pw-a", &mut storer, &hasher).unwrap();
    let b = signup("bob", "pw-b", &mut storer, &hasher).unwrap();
    let c = signup("carol", "pw-c", &mut storer, &hasher).unwrap();
    assert_eq!((a, b, c), (1, 2, 3));
}

#[test]
fn signup_of_taken_username_fails() {
    let mut storer = MemStorer::new();
    let hasher = SHA384Hasher;
    signup("alice", "secret1", &mut storer, &hasher).unwrap();
    let err = signup("alice", "secret2", &mut storer, &hasher).unwrap_err();
    assert_eq!(err.code, ACCOUNT_ALREADY_EXISTS);
    // The failed attempt left the store unchanged: signing in with the first
    // password still works, the second never does.
    let tokener = JWTTokener::new("test-key").unwrap();
    assert!(signin("alice", "secret1", &storer, &hasher, &tokener).is_ok());
    assert_eq!(
        signin("alice", "secret2", &storer, &hasher, &tokener).unwrap_err().code,
        INVALID_CREDENTIAL
    );
}

#[test]
fn signin_returns_token_for_account_id() {
    let mut storer = MemStorer::new();
    let hasher = SHA384Hasher;
    let tokener = JWTTokener::new("test-key").unwrap();
    let alice = signup("alice", "secret1", &mut storer, &hasher).unwrap();
    let bob = signup("bob", "hunter2", &mut storer, &hasher).unwrap();
    let token_a = signin("alice", "secret1", &storer, &hasher, &tokener).unwrap();
    let token_b = signin("bob", "hunter2", &storer, &hasher, &tokener).unwrap();
    assert_eq!(verify_token(&token_a, &tokener).unwrap(), alice);
    assert_eq!(verify_token(&token_b, &tokener).unwrap(), bob);
}

#[test]
fn signin_with_wrong_password_fails() {
    let mut storer = MemStorer::new();
    let hasher = SHA384Hasher;
    let tokener = JWTTokener::new("test-key").unwrap();
    signup("alice", "secret1", &mut storer, &hasher).unwrap();
    let err = signin("alice", "wrong", &storer, &hasher, &tokener).unwrap_err();
    assert_eq!(err.code, INVALID_CREDENTIAL);
}

#[test]
fn signin_of_unknown_username_fails() {
    let storer = MemStorer::new();
    let hasher = SHA384Hasher;
    let tokener = JWTTokener::new("test-key").unwrap();
    let err = signin("nobody", "anything", &storer, &hasher, &tokener).unwrap_err();
    assert_eq!(err.code, ACCOUNT_NOT_EXISTS);
}

#[test]
fn signup_signin_verify_scenario() {
    let mut storer = MemStorer::new();
    let hasher = SHA384Hasher;
    let tokener = JWTTokener::new("scenario-key").unwrap();
    let a1 = signup("alice", "secret1", &mut storer, &hasher).unwrap();
    assert_eq!(
        signup("alice", "secret2", &mut storer, &hasher).unwrap_err().code,
        ACCOUNT_ALREADY_EXISTS
    );
    let t1 = signin("alice", "secret1", &storer, &hasher, &tokener).unwrap();
    assert_eq!(verify_token(&t1, &tokener).unwrap(), a1);
    assert_eq!(
        signin("alice", "wrong", &storer, &hasher, &tokener).unwrap_err().code,
        INVALID_CREDENTIAL
    );
}

#[test]
fn token_round_trip_returns_identity() {
    let tokener = JWTTokener::new("round-trip-key").unwrap();
    assert_eq!(token_round_trip(&tokener, 7).unwrap(), 7);
    assert_eq!(token_round_trip(&tokener, -12345).unwrap(), -12345);
    assert_eq!(token_round_trip(&tokener, i32::MAX).unwrap(), i32::MAX);
}

#[test]
fn tampered_token_fails_verification() {
    let tokener = JWTTokener::new("tamper-key").unwrap();
    let mut storer = MemStorer::new();
    let hasher = SHA384Hasher;
    signup("alice", "secret1", &mut storer, &hasher).unwrap();
    let token = signin("alice", "secret1", &storer, &hasher, &tokener).unwrap();
    // Flip one character anywhere in the token: verification must fail.
    for pos in 0..token.len() {
        let mut bytes = token.clone().into_bytes();
        bytes[pos] = if bytes[pos] == b'x' { b'y' } else { b'x' };
        let tampered = String::from_utf8(bytes).unwrap();
        let err = verify_token(&tampered, &tokener).unwrap_err();
        assert_eq!(err.code, FAILED_TO_VERIFY_TOKEN);
    }
}

#[test]
fn token_of_one_key_fails_under_another() {
    let tokener = JWTTokener::new("key-one").unwrap();
    let other = JWTTokener::new("key-two").unwrap();
    let token = tokener.gen(99).unwrap();
    assert_eq!(tokener.verify(&token).unwrap(), 99);
    let err = other.verify(&token).unwrap_err();
    assert_eq!(err.code, FAILED_TO_VERIFY_TOKEN);
}

#[test]
fn direct_insert_of_taken_username_is_a_storage_failure() {
    let mut storer = MemStorer::new();
    storer.insert("alice", "digest", "salt").unwrap();
    let err = storer.insert("alice", "digest2", "salt2").unwrap_err();
    assert_eq!(err.code, FAILED_TO_INSERT_ACCOUNT);
}
