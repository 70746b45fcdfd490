//! The in-memory credential store: the verified reference backend behind the
//! `Storer` interface. Accounts live in a vector; usernames stay pairwise
//! distinct, and ids come from a counter and are never reused.

use vstd::prelude::*;

use crate::auth::Storer;
use crate::errors::{Error, ACCOUNT_NOT_EXISTS, FAILED_TO_INSERT_ACCOUNT};
use crate::models::{Account, AccountView};

verus! {

/// The map a sequence of account records denotes, keyed by username; a
/// well-formed store never holds two records with one username.
pub open spec fn map_of(s: Seq<Account>) -> Map<Seq<char>, AccountView>
    decreases s.len(),
{
    if s.len() == 0 {
        Map::empty()
    } else {
        map_of(s.drop_last()).insert(s.last().username@, s.last()@)
    }
}

/// No two records share a username.
pub open spec fn distinct_usernames(s: Seq<Account>) -> bool {
    forall|i: int, j: int|
        0 <= i < j < s.len() ==> #[trigger] s[i].username@ != #[trigger] s[j].username@
}

proof fn lemma_map_of_contains(s: Seq<Account>, u: Seq<char>)
    ensures
        map_of(s).contains_key(u) <==> exists|i: int|
            0 <= i < s.len() && #[trigger] s[i].username@ == u,
    decreases s.len(),
{
    if s.len() == 0 {
    } else {
        let t = s.drop_last();
        lemma_map_of_contains(t, u);
        if u == s.last().username@ {
            assert(s[s.len() - 1].username@ == u);
        } else {
            if map_of(s).contains_key(u) {
                let i = choose|i: int| 0 <= i < t.len() && #[trigger] t[i].username@ == u;
                assert(s[i].username@ == u);
            }
            if exists|i: int| 0 <= i < s.len() && #[trigger] s[i].username@ == u {
                let i = choose|i: int| 0 <= i < s.len() && #[trigger] s[i].username@ == u;
                assert(t[i].username@ == u);
            }
        }
    }
}

proof fn lemma_map_of_index(s: Seq<Account>, k: int)
    requires
        distinct_usernames(s),
        0 <= k < s.len(),
    ensures
        map_of(s).contains_key(s[k].username@),
        map_of(s)[s[k].username@] == s[k]@,
    decreases s.len(),
{
    let t = s.drop_last();
    if k == s.len() - 1 {
    } else {
        assert(distinct_usernames(t)) by {
            assert forall|i: int, j: int| 0 <= i < j < t.len() implies #[trigger] t[i].username@
                != #[trigger] t[j].username@ by {
                assert(s[i].username@ != s[j].username@);
            }
        }
        lemma_map_of_index(t, k);
        assert(s[k].username@ != s.last().username@);
        assert(t[k] == s[k]);
    }
}

proof fn lemma_map_of_entry(s: Seq<Account>, u: Seq<char>)
    requires
        distinct_usernames(s),
        map_of(s).contains_key(u),
    ensures
        exists|i: int|
            0 <= i < s.len() && #[trigger] s[i].username@ == u && s[i]@ == map_of(s)[u],
{
    lemma_map_of_contains(s, u);
    let i = choose|i: int| 0 <= i < s.len() && #[trigger] s[i].username@ == u;
    lemma_map_of_index(s, i);
    assert(0 <= i < s.len() && s[i].username@ == u && s[i]@ == map_of(s)[u]);
}

/// The id a backend without an id sequence of its own assigns next: one past
/// the highest persisted id, 1 for an empty store; a counter at its end is a
/// storage failure, never a wrapped id.
pub fn next_account_id(highest: Option<i32>) -> (r: Result<i32, Error>)
    ensures
        r matches Ok(id) ==> (match highest {
            Option::Some(h) => id == h + 1,
            Option::None => id == 1,
        }),
        r matches Err(e) ==> e.code == FAILED_TO_INSERT_ACCOUNT,
        r is Err <==> highest == Option::Some(i32::MAX),
{
    match highest {
        Option::Some(h) => {
            if h == i32::MAX {
                Err(Error::new("account ids exhausted", FAILED_TO_INSERT_ACCOUNT))
            } else {
                Ok(h + 1)
            }
        },
        Option::None => Ok(1),
    }
}

/// An in-memory credential store.
pub struct MemStorer {
    accounts: Vec<Account>,
    next_id: i32,
}

impl MemStorer {
    /// Usernames are pairwise distinct, and every id is positive and below
    /// the counter, so the counter's next value is fresh.
    #[verifier::type_invariant]
    spec fn wf(&self) -> bool {
        &&& distinct_usernames(self.accounts@)
        &&& forall|i: int|
            0 <= i < self.accounts@.len() ==> 0 < #[trigger] self.accounts@[i].id
                < self.next_id
        &&& self.next_id >= 1
    }

    /// An empty store.
    pub fn new() -> (r: MemStorer)
        ensures
            r.accounts() == Map::<Seq<char>, AccountView>::empty(),
            r.lookups_infallible(),
            r.inserts_infallible(),
    {
        MemStorer { accounts: Vec::new(), next_id: 1 }
    }

    /// The position of the record with this username, if the store holds one.
    fn find_index(&self, username: &str) -> (r: Option<usize>)
        ensures
            r matches Some(i) ==> i < self.accounts@.len() && self.accounts@[i as int].username@
                == username@,
            r is None ==> forall|j: int|
                0 <= j < self.accounts@.len() ==> self.accounts@[j].username@ != username@,
    {
        let uname: String = username.to_owned();
        let mut j: usize = 0;
        while j < self.accounts.len()
            invariant
                j <= self.accounts@.len(),
                uname@ == username@,
                forall|k: int| 0 <= k < j ==> self.accounts@[k].username@ != username@,
            decreases self.accounts@.len() - j,
        {
            if self.accounts[j].username == uname {
                return Some(j);
            }
            j += 1;
        }
        None
    }
}

impl Storer for MemStorer {
    /// The persisted accounts, keyed by username.
    closed spec fn accounts(&self) -> Map<Seq<char>, AccountView> {
        map_of(self.accounts@)
    }

    /// Lookups scan memory and cannot fail.
    closed spec fn lookups_infallible(&self) -> bool {
        true
    }

    /// Inserts fail only once the id counter is exhausted.
    closed spec fn inserts_infallible(&self) -> bool {
        self.next_id < i32::MAX
    }

    fn username_exists(&self, username: &str) -> (r: Result<bool, Error>) {
        proof {
            lemma_map_of_contains(self.accounts@, username@);
        }
        match self.find_index(username) {
            Some(_) => Ok(true),
            None => Ok(false),
        }
    }

    fn get(&self, username: &str) -> (r: Result<Account, Error>) {
        proof {
            use_type_invariant(&*self);
            lemma_map_of_contains(self.accounts@, username@);
        }
        match self.find_index(username) {
            Some(i) => {
                proof {
                    lemma_map_of_index(self.accounts@, i as int);
                }
                Ok(self.accounts[i].duplicate())
            },
            None => Err(Error::new("account not exists", ACCOUNT_NOT_EXISTS)),
        }
    }

    fn insert(&mut self, username: &str, password: &str, salt: &str) -> (r: Result<i32, Error>) {
        proof {
            use_type_invariant(&*self);
            lemma_map_of_contains(self.accounts@, username@);
        }
        match self.find_index(username) {
            Some(_) => Err(Error::new("account already exists", FAILED_TO_INSERT_ACCOUNT)),
            None => {
                if self.next_id == i32::MAX {
                    return Err(Error::new("account ids exhausted", FAILED_TO_INSERT_ACCOUNT));
                }
                let id = self.next_id;
                let account = Account {
                    id,
                    username: username.to_owned(),
                    password: password.to_owned(),
                    salt: salt.to_owned(),
                };
                proof {
                    assert forall|u: Seq<char>| #[trigger] old(self).accounts().contains_key(u)
                        implies old(self).accounts()[u].id != id by {
                        lemma_map_of_entry(old(self).accounts@, u);
                    }
                }
                let mut accounts: Vec<Account> = Vec::new();
                std::mem::swap(&mut accounts, &mut self.accounts);
                accounts.push(account);
                self.next_id = id + 1;
                self.accounts = accounts;
                proof {
                    assert(self.accounts@.drop_last() =~= old(self).accounts@);
                    assert(self.accounts() == old(self).accounts().insert(
                        username@,
                        AccountView {
                            id,
                            username: username@,
                            password: password@,
                            salt: salt@,
                        },
                    ));
                }
                Ok(id)
            },
        }
    }
}

} // verus!
