//! The orchestration core: three capability interfaces (credential storage,
//! password hashing, token issuance) and the four operations that sequence
//! them — signup, signin, token verification, and an existence check.
//!
//! Every contract is stated over the capabilities' mathematical views: the
//! store's map from username to account record, the hasher's digest function,
//! and the issuer's token function. Each capability also states when its
//! backend cannot fail — `infallible` for hasher and issuer, and for the
//! store `lookups_infallible` and `inserts_infallible` separately, since an
//! insert can exhaust the store's id space while lookups keep answering. On
//! such backends the operations owe their callers a definite outcome.

use vstd::prelude::*;

use crate::errors::{
    is_storage_failure, Error, ACCOUNT_ALREADY_EXISTS, ACCOUNT_NOT_EXISTS, FAILED_TO_HASH_PASSWORD,
    FAILED_TO_SIGN_CLAIM, FAILED_TO_VERIFY_TOKEN, INVALID_CREDENTIAL,
};
use crate::models::{Account, AccountView};

verus! {

/// Mints and validates bearer tokens binding an identity to a signed string.
pub trait Tokener: Sized {
    /// The token this issuer mints for an identity: a function of the
    /// issuer's key material and the identity alone.
    spec fn token_of(&self, id: i32) -> Seq<char>;

    /// Holds when the issuer's backend cannot fail to sign.
    spec fn infallible(&self) -> bool;

    /// Produces the signed, tamper-evident token for `id`.
    fn gen(&self, id: i32) -> (r: Result<String, Error>)
        ensures
            r matches Ok(t) ==> t@ == self.token_of(id),
            r matches Err(e) ==> e.code == FAILED_TO_SIGN_CLAIM,
            self.infallible() ==> r is Ok,
    ;

    /// Recovers the identity embedded in a token minted with this issuer's
    /// key; any token this issuer minted verifies to the identity it was
    /// minted for.
    fn verify(&self, token: &str) -> (r: Result<i32, Error>)
        ensures
            forall|i: i32| token@ == self.token_of(i) ==> r == Ok::<i32, Error>(i),
            r matches Err(e) ==> e.code == FAILED_TO_VERIFY_TOKEN,
    ;
}

/// Persists accounts, keyed by username; the store, not the core, enforces
/// username uniqueness and id freshness at insertion time.
pub trait Storer: Sized {
    /// The accounts currently persisted, as a map from username to record.
    /// The default lets a backend outside the library satisfy the interface
    /// by providing only the executable operations; a verified backend
    /// overrides it with its real model.
    open spec fn accounts(&self) -> Map<Seq<char>, AccountView> {
        Map::empty()
    }

    /// Holds when the store's lookups — the existence check and the fetch —
    /// cannot fail; by default nothing is promised of a backend. An insert
    /// leaves this unchanged, so a record once persisted stays answerable.
    open spec fn lookups_infallible(&self) -> bool {
        false
    }

    /// Holds when an insert of a username the store does not yet hold
    /// cannot fail; by default nothing is promised of a backend.
    open spec fn inserts_infallible(&self) -> bool {
        false
    }

    /// True iff an account with this username is currently persisted.
    fn username_exists(&self, username: &str) -> (r: Result<bool, Error>)
        ensures
            r matches Ok(b) ==> b == self.accounts().contains_key(username@),
            r matches Err(e) ==> is_storage_failure(e.code),
            self.lookups_infallible() ==> r is Ok,
    ;

    /// The account persisted under this username.
    fn get(&self, username: &str) -> (r: Result<Account, Error>)
        ensures
            r matches Ok(a) ==> self.accounts().contains_key(username@) && a@
                == self.accounts()[username@],
            r matches Err(e) ==> {
                ||| (e.code == ACCOUNT_NOT_EXISTS && !self.accounts().contains_key(username@))
                ||| is_storage_failure(e.code)
            },
            self.lookups_infallible() && self.accounts().contains_key(username@) ==> r is Ok,
            self.lookups_infallible() && !self.accounts().contains_key(username@) ==> (r matches
                Err(e) && e.code == ACCOUNT_NOT_EXISTS),
    ;

    /// Creates a new account and returns the id the store assigned to it.
    /// A violated uniqueness constraint surfaces as a storage failure, so a
    /// successful insert is one of a username the store did not yet hold,
    /// and the assigned id is one no persisted account carries.
    fn insert(&mut self, username: &str, password: &str, salt: &str) -> (r: Result<i32, Error>)
        ensures
            r matches Ok(id) ==> {
                &&& !old(self).accounts().contains_key(username@)
                &&& final(self).accounts() == old(self).accounts().insert(
                    username@,
                    AccountView { id, username: username@, password: password@, salt: salt@ },
                )
                &&& forall|u: Seq<char>|
                    #[trigger] old(self).accounts().contains_key(u) ==> old(
                        self,
                    ).accounts()[u].id != id
            },
            r matches Err(e) ==> is_storage_failure(e.code) && final(self).accounts() == old(
                self,
            ).accounts(),
            final(self).lookups_infallible() == old(self).lookups_infallible(),
            old(self).inserts_infallible() && !old(self).accounts().contains_key(username@)
                ==> r is Ok,
    ;
}

/// Holds for the printable ASCII characters.
pub open spec fn is_printable_ascii(c: char) -> bool {
    ' ' <= c && c <= '~'
}

/// Generates salts and computes the one-way digest of a secret and a salt.
pub trait Hasher: Sized {
    /// The digest this hasher computes: a function of secret and salt alone,
    /// so hashing is deterministic for every implementation.
    spec fn hash_of(&self, origin: Seq<char>, salt: Seq<char>) -> Seq<char>;

    /// Holds when the hasher's backend cannot fail.
    spec fn infallible(&self) -> bool;

    /// Produces a fresh, unpredictable salt of 32 printable characters.
    fn gen_salt(&self) -> (r: Result<String, Error>)
        ensures
            r matches Ok(s) ==> s@.len() == 32 && (forall|i: int|
                0 <= i < s@.len() ==> is_printable_ascii(#[trigger] s@[i])),
            r matches Err(e) ==> e.code == FAILED_TO_HASH_PASSWORD,
            self.infallible() ==> r is Ok,
    ;

    /// Computes the digest of `origin` under `salt`: 96 characters, the
    /// hex-encoded 384-bit digest.
    fn hash(&self, origin: &str, salt: &str) -> (r: Result<String, Error>)
        ensures
            r matches Ok(h) ==> h@ == self.hash_of(origin@, salt@) && h@.len() == 96,
            r matches Err(e) ==> e.code == FAILED_TO_HASH_PASSWORD,
            self.infallible() ==> r is Ok,
    ;
}

/// Registers a new account: rejects a username the store already holds,
/// otherwise salts and hashes the password and persists the record.
///
/// On success the store gains exactly one record — the given username, a
/// fresh 32-character salt, and the digest of the password under that salt —
/// and the returned id is one no prior account carried. On any failure the
/// store is unchanged, and a username the store already held is reported as
/// `ACCOUNT_ALREADY_EXISTS` whenever the existence check itself succeeded.
pub fn signup<S: Storer, H: Hasher>(
    username: &str,
    password: &str,
    storer: &mut S,
    hasher: &H,
) -> (r: Result<i32, Error>)
    ensures
        r matches Ok(id) ==> {
            &&& !old(storer).accounts().contains_key(username@)
            &&& exists|salt: Seq<char>|
                {
                    &&& salt.len() == 32
                    &&& final(storer).accounts() == old(storer).accounts().insert(
                        username@,
                        AccountView {
                            id,
                            username: username@,
                            password: #[trigger] hasher.hash_of(password@, salt),
                            salt,
                        },
                    )
                }
            &&& forall|u: Seq<char>|
                #[trigger] old(storer).accounts().contains_key(u) ==> old(
                    storer,
                ).accounts()[u].id != id
        },
        r matches Err(e) ==> {
            &&& final(storer).accounts() == old(storer).accounts()
            &&& (e.code == ACCOUNT_ALREADY_EXISTS ==> old(storer).accounts().contains_key(
                username@,
            ) && e.msg@ == "account already exists"@)
            &&& (e.code == FAILED_TO_HASH_PASSWORD ==> !old(storer).accounts().contains_key(
                username@,
            ))
            &&& (e.code == ACCOUNT_ALREADY_EXISTS || e.code == FAILED_TO_HASH_PASSWORD
                || is_storage_failure(e.code))
        },
        final(storer).lookups_infallible() == old(storer).lookups_infallible(),
        old(storer).lookups_infallible() && old(storer).accounts().contains_key(username@) ==> (
        r matches Err(e) && e.code == ACCOUNT_ALREADY_EXISTS && e.msg@
            == "account already exists"@),
        old(storer).lookups_infallible() && old(storer).inserts_infallible()
            && hasher.infallible() && !old(storer).accounts().contains_key(username@) ==> r is Ok,
{
    let is_exists = match storer.username_exists(username) {
        Ok(b) => b,
        Err(e) => {
            return Err(e);
        },
    };
    if is_exists {
        return Err(Error::new("account already exists", ACCOUNT_ALREADY_EXISTS));
    }
    let salt = match hasher.gen_salt() {
        Ok(s) => s,
        Err(e) => {
            return Err(e);
        },
    };
    let hashed_password = match hasher.hash(password, salt.as_str()) {
        Ok(h) => h,
        Err(e) => {
            return Err(e);
        },
    };
    let r = storer.insert(username, hashed_password.as_str(), salt.as_str());
    proof {
        if r is Ok {
            let id = r->Ok_0;
            assert(salt@.len() == 32 && storer.accounts() == old(storer).accounts().insert(
                username@,
                AccountView {
                    id,
                    username: username@,
                    password: hasher.hash_of(password@, salt@),
                    salt: salt@,
                },
            ));
        }
    }
    r
}

/// Exchanges a username and password for a bearer token: looks the account
/// up, hashes the presented password under the account's salt, compares the
/// digests exactly, and on a match mints a token for the account's id.
///
/// A missing account is reported as `ACCOUNT_NOT_EXISTS` and a digest
/// mismatch as `INVALID_CREDENTIAL`; the plaintext password is never
/// compared, only digests are.
pub fn signin<S: Storer, H: Hasher, T: Tokener>(
    username: &str,
    password: &str,
    storer: &S,
    hasher: &H,
    tokener: &T,
) -> (r: Result<String, Error>)
    ensures
        r matches Ok(t) ==> {
            &&& storer.accounts().contains_key(username@)
            &&& storer.accounts()[username@].password == hasher.hash_of(
                password@,
                storer.accounts()[username@].salt,
            )
            &&& t@ == tokener.token_of(storer.accounts()[username@].id)
        },
        r matches Err(e) ==> {
            ||| (e.code == ACCOUNT_NOT_EXISTS && !storer.accounts().contains_key(username@))
            ||| (e.code == INVALID_CREDENTIAL && e.msg@ == "invalid credential"@
                && storer.accounts().contains_key(username@)
                && storer.accounts()[username@].password != hasher.hash_of(
                password@,
                storer.accounts()[username@].salt,
            ))
            ||| is_storage_failure(e.code)
            ||| e.code == FAILED_TO_HASH_PASSWORD
            ||| e.code == FAILED_TO_SIGN_CLAIM
        },
        storer.lookups_infallible() && hasher.infallible() && tokener.infallible()
            && storer.accounts().contains_key(username@) && storer.accounts()[username@].password
            == hasher.hash_of(password@, storer.accounts()[username@].salt) ==> (r matches Ok(t)
            && t@ == tokener.token_of(storer.accounts()[username@].id)),
        storer.lookups_infallible() && hasher.infallible() && storer.accounts().contains_key(
            username@,
        ) && storer.accounts()[username@].password != hasher.hash_of(
            password@,
            storer.accounts()[username@].salt,
        ) ==> (r matches Err(e) && e.code == INVALID_CREDENTIAL && e.msg@
            == "invalid credential"@),
        storer.lookups_infallible() && !storer.accounts().contains_key(username@) ==> (r matches
            Err(e) && e.code == ACCOUNT_NOT_EXISTS),
{
    let account = match storer.get(username) {
        Ok(a) => a,
        Err(e) => {
            return Err(e);
        },
    };
    let hashed_password = match hasher.hash(password, account.salt.as_str()) {
        Ok(h) => h,
        Err(e) => {
            return Err(e);
        },
    };
    if !(hashed_password == account.password) {
        return Err(Error::new("invalid credential", INVALID_CREDENTIAL));
    }
    tokener.gen(account.id)
}

/// Recovers the identity embedded in a token: pure delegation to the issuer,
/// propagating its failure unchanged.
pub fn verify_token<T: Tokener>(token: &str, tokener: &T) -> (r: Result<i32, Error>)
    ensures
        forall|i: i32| token@ == tokener.token_of(i) ==> r == Ok::<i32, Error>(i),
        r matches Err(e) ==> e.code == FAILED_TO_VERIFY_TOKEN,
{
    tokener.verify(token)
}

/// True iff an account with this username is persisted: pure delegation to
/// the store, propagating its failure unchanged.
pub fn username_exists<S: Storer>(username: &str, storer: &S) -> (r: Result<bool, Error>)
    ensures
        r matches Ok(b) ==> b == storer.accounts().contains_key(username@),
        r matches Err(e) ==> is_storage_failure(e.code),
        storer.lookups_infallible() ==> r is Ok,
{
    storer.username_exists(username)
}

/// Token round trip: minting a token for an identity and then verifying that
/// token yields the identity back; the only admissible failure is the
/// issuer's own failure to sign, and an issuer that cannot fail owes the
/// identity outright.
pub fn token_round_trip<T: Tokener>(tokener: &T, id: i32) -> (r: Result<i32, Error>)
    ensures
        r matches Ok(j) ==> j == id,
        r matches Err(e) ==> e.code == FAILED_TO_SIGN_CLAIM,
        tokener.infallible() ==> r == Ok::<i32, Error>(id),
{
    let token = match tokener.gen(id) {
        Ok(t) => t,
        Err(e) => {
            return Err(e);
        },
    };
    tokener.verify(token.as_str())
}

/// Hashing is deterministic: the digest is a function of secret and salt
/// alone, so repeated hash calls on equal inputs yield equal digests.
pub proof fn lemma_hash_deterministic<H: Hasher>(
    hasher: &H,
    origin: Seq<char>,
    salt: Seq<char>,
    d1: Seq<char>,
    d2: Seq<char>,
)
    requires
        d1 == hasher.hash_of(origin, salt),
        d2 == hasher.hash_of(origin, salt),
    ensures
        d1 == d2,
{
}

/// A signup that succeeded left the username persisted: an existence check
/// against the store it produced is owed `true`.
pub proof fn lemma_signup_establishes_existence<S: Storer>(
    pre: S,
    post: S,
    username: Seq<char>,
    record: AccountView,
)
    requires
        post.accounts() == pre.accounts().insert(username, record),
    ensures
        post.accounts().contains_key(username),
{
}

} // verus!
