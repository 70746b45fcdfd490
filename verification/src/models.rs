//! The persisted account record and its mathematical view.

use vstd::prelude::*;

verus! {

/// The fields a store needs to create an account; the id is assigned by the
/// store itself at insertion.
#[derive(Debug, Clone)]
pub struct AccountInsertion {
    pub username: String,
    pub password: String,
    pub salt: String,
}

/// A persisted identity record. `password` holds the one-way digest of the
/// plaintext password and the account's salt, never the plaintext itself.
#[derive(Debug, Clone)]
pub struct Account {
    pub id: i32,
    pub username: String,
    pub password: String,
    pub salt: String,
}

/// The mathematical view of an account: the same fields over sequences of
/// characters, so that contracts can speak of them.
pub ghost struct AccountView {
    pub id: i32,
    pub username: Seq<char>,
    pub password: Seq<char>,
    pub salt: Seq<char>,
}

impl View for Account {
    type V = AccountView;

    open spec fn view(&self) -> AccountView {
        AccountView {
            id: self.id,
            username: self.username@,
            password: self.password@,
            salt: self.salt@,
        }
    }
}

impl Account {
    /// A field-for-field copy of the record.
    pub fn duplicate(&self) -> (r: Account)
        ensures
            r@ == self@,
    {
        Account {
            id: self.id,
            username: self.username.clone(),
            password: self.password.clone(),
            salt: self.salt.clone(),
        }
    }
}

} // verus!
