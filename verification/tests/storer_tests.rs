use with_baby_auth::auth::Storer;
use with_baby_auth::errors::{ACCOUNT_NOT_EXISTS, FAILED_TO_INSERT_ACCOUNT};
use with_baby_auth::storers::next_account_id;
use with_baby_auth::storers::MemStorer;

#[test]
fn empty_store_holds_nothing() {
    let storer = MemStorer::new();
    assert!(!storer.username_exists("tongyao").unwrap());
    let err = storer.get("tongyao").unwrap_err();
    assert_eq!(err.code, ACCOUNT_NOT_EXISTS);
}

#[test]
fn insert_then_get_returns_the_record() {
    let mut storer = MemStorer::new();
    let id = storer.insert("tongyao", "password", "salt").unwrap();
    assert_eq!(id, 1);
    assert!(storer.username_exists("tongyao").unwrap());
    let account = storer.get("tongyao").unwrap();
    assert_eq!(account.id, id);
    assert_eq!(account.username, "tongyao");
    assert_eq!(account.password, "password");
    assert_eq!(account.salt, "salt");
}

#[test]
fn records_keep_their_own_fields() {
    let mut storer = MemStorer::new();
    let a = storer.insert("alice", "digest-a", "salt-a").unwrap();
    let b = storer.insert("bob", "digest-b", "salt-b").unwrap();
    assert_ne!(a, b);
    let alice = storer.get("alice").unwrap();
    let bob = storer.get("bob").unwrap();
    assert_eq!((alice.id, alice.password, alice.salt), (a, "digest-a".into(), "salt-a".into()));
    assert_eq!((bob.id, bob.password, bob.salt), (b, "digest-b".into(), "salt-b".into()));
}

#[test]
fn next_account_id_counts_up_and_refuses_wrap() {
    assert_eq!(next_account_id(None).unwrap(), 1);
    assert_eq!(next_account_id(Some(1)).unwrap(), 2);
    assert_eq!(next_account_id(Some(41)).unwrap(), 42);
    assert_eq!(next_account_id(Some(i32::MAX - 1)).unwrap(), i32::MAX);
    let err = next_account_id(Some(i32::MAX)).unwrap_err();
    assert_eq!(err.code, FAILED_TO_INSERT_ACCOUNT);
}
