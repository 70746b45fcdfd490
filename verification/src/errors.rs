//! The closed failure taxonomy shared by every component: a typed error with a
//! human-readable message and a stable numeric code.

use vstd::prelude::*;

verus! {

/// Signup found the username already registered.
pub const ACCOUNT_ALREADY_EXISTS: i32 = 1;
/// Signin found the password digest differs from the stored one.
pub const INVALID_CREDENTIAL: i32 = 2;
/// The token issuer was handed unusable key material.
pub const INVALID_TOKENER_KEY: i32 = 3;
/// The token issuer could not sign the claim.
pub const FAILED_TO_SIGN_CLAIM: i32 = 4;
/// The token's signature or format did not check out.
pub const FAILED_TO_VERIFY_TOKEN: i32 = 5;
/// The store could not reach its database.
pub const FAILED_TO_CONNECT_TO_DATABASE: i32 = 6;
/// The store could not obtain a connection from its pool.
pub const FAILED_TO_GET_DATABASE_CONNECTION: i32 = 7;
/// The store could not read a persisted record.
pub const FAILED_TO_LOAD_RECORD: i32 = 8;
/// The hasher's digest computation failed.
pub const FAILED_TO_HASH_PASSWORD: i32 = 9;
/// Lookup found no account under the given username.
pub const ACCOUNT_NOT_EXISTS: i32 = 10;
/// The store could not persist a new account (a violated uniqueness
/// constraint surfaces here as well).
pub const FAILED_TO_INSERT_ACCOUNT: i32 = 11;
/// The store was configured with an unparsable connection URI.
pub const INVALID_DATABASE_URI: i32 = 12;
/// The store was configured with unusable connection options.
pub const INVALID_DATABASE_OPTIONS: i32 = 13;

/// Holds when `code` is one of the storage-failure kinds: connectivity,
/// constraint violation, or record decode failure inside a store backend.
pub open spec fn is_storage_failure(code: i32) -> bool {
    ||| code == FAILED_TO_CONNECT_TO_DATABASE
    ||| code == FAILED_TO_GET_DATABASE_CONNECTION
    ||| code == FAILED_TO_LOAD_RECORD
    ||| code == FAILED_TO_INSERT_ACCOUNT
}

/// A classified failure: a message for humans and a stable code for callers.
#[derive(Debug)]
pub struct Error {
    pub msg: String,
    pub code: i32,
}

impl Error {
    /// Builds an error from a message and its classification code.
    pub fn new(msg: &str, code: i32) -> (r: Self)
        ensures
            r.msg@ == msg@,
            r.code == code,
    {
        Error { msg: msg.to_owned(), code }
    }

    /// The human-readable message, for callers that render the failure.
    pub fn message(&self) -> (r: &str)
        ensures
            r@ == self.msg@,
    {
        self.msg.as_str()
    }
}

} // verus!
