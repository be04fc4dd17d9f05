//! The identity store: the contract the authentication service depends on,
//! and a verified in-memory store that fulfils it.

use vstd::prelude::*;

use crate::entities::{RepoError, UserFetched, UserRegister, UserView};
use crate::hasher::{bcrypt_matches, hash_password};
use crate::strutil::str_eq;

verus! {

/// The store contents as a map from identity name to the stored record.
pub open spec fn map_of(users: Seq<UserFetched>) -> Map<Seq<char>, UserView>
    decreases users.len(),
{
    if users.len() == 0 {
        Map::empty()
    } else {
        map_of(users.drop_last()).insert(users.last()@.name, users.last()@)
    }
}

/// No two records share a name.
pub open spec fn distinct_names(users: Seq<UserFetched>) -> bool {
    forall|i: int, j: int|
        0 <= i < j < users.len() ==> users[i]@.name != users[j]@.name
}

/// A name is in the store contents exactly when some record carries it.
pub proof fn lemma_map_of_contains(s: Seq<UserFetched>, n: Seq<char>)
    ensures
        map_of(s).contains_key(n) <==> exists|i: int| 0 <= i < s.len() && s[i]@.name == n,
    decreases s.len(),
{
    if s.len() > 0 {
        let rest = s.drop_last();
        lemma_map_of_contains(rest, n);
        if s.last()@.name == n {
            assert(s[s.len() - 1]@.name == n);
        } else {
            if exists|i: int| 0 <= i < s.len() && s[i]@.name == n {
                let i = choose|i: int| 0 <= i < s.len() && s[i]@.name == n;
                assert(rest[i]@.name == n);
            }
            if exists|i: int| 0 <= i < rest.len() && rest[i]@.name == n {
                let i = choose|i: int| 0 <= i < rest.len() && rest[i]@.name == n;
                assert(s[i]@.name == n);
            }
        }
    }
}

/// With distinct names, the store contents map each record's name to
/// exactly that record.
pub proof fn lemma_map_of_index(s: Seq<UserFetched>, i: int)
    requires
        distinct_names(s),
        0 <= i < s.len(),
    ensures
        map_of(s).contains_key(s[i]@.name),
        map_of(s)[s[i]@.name] == s[i]@,
    decreases s.len(),
{
    if i == s.len() - 1 {
    } else {
        let rest = s.drop_last();
        assert(distinct_names(rest)) by {
            assert(forall|a: int, b: int|
                0 <= a < b < rest.len() ==> rest[a]@.name != rest[b]@.name) by {
                assert(forall|a: int, b: int|
                    0 <= a < b < rest.len() ==> s[a]@.name != s[b]@.name);
            }
        }
        lemma_map_of_index(rest, i);
        assert(s.last()@.name != s[i]@.name);
        assert(rest[i] == s[i]);
    }
}

/// The contract of the identity store: an existence check, fetch by name,
/// fetch by id, creation of a new identity, and hashing of a password for
/// storage. Lookups and creation are I/O-bound calls that may fail; a
/// failure says nothing about the contents.
pub trait IUserRepo: Sized {
    /// The store contents: identity name to stored record.
    spec fn users(&self) -> Map<Seq<char>, UserView>;

    /// Whether the store, in its current state, completes every operation:
    /// true of the in-memory store while a fresh id is left, and never
    /// promised by an I/O-backed one, whose lookups can fail at any time.
    spec fn available(&self) -> bool;

    /// Whether an identity of this name is stored.
    fn name_exists(&self, name: &str) -> (r: Result<bool, RepoError>)
        ensures
            r matches Ok(b) ==> b == self.users().contains_key(name@),
            self.available() ==> r is Ok,
    ;

    /// Hashes a plaintext password for storage: a 60-character hash string,
    /// never the plaintext shape.
    fn password_hash(&self, password: &str) -> (r: String)
        ensures
            bcrypt_matches(password@, r@),
            r@.len() == 60,
            r@[0] == '$',
    ;

    /// Stores a new identity under a fresh id of the store's choosing. The
    /// caller has already confirmed the name is absent, so names stay
    /// unique. On failure the contents are unchanged.
    fn register(&mut self, dto: &UserRegister) -> (r: Result<(), RepoError>)
        requires
            !old(self).users().contains_key(dto.name@),
        ensures
            match r {
                Ok(()) => exists|id: i32|
                    {
                        &&& #[trigger] final(self).users() == old(self).users().insert(
                            dto.name@,
                            UserView { id: id, name: dto.name@, password: dto.password@ },
                        )
                        &&& forall|n: Seq<char>|
                            old(self).users().contains_key(n)
                                ==> #[trigger] old(self).users()[n].id != id
                    },
                Err(_) => final(self).users() == old(self).users(),
            },
            old(self).available() ==> r is Ok,
    ;

    /// Fetches the identity stored under a name the caller has already
    /// confirmed to exist.
    fn fetch_by_name(&self, name: &str) -> (r: Result<UserFetched, RepoError>)
        requires
            self.users().contains_key(name@),
        ensures
            r matches Ok(u) ==> u.name@ == name@ && u@ == self.users()[name@],
            self.available() ==> r is Ok,
    ;

    /// Fetches the identity stored under an id, or nothing when no record
    /// carries it.
    fn fetch_by_id(&self, id: i32) -> (r: Result<Option<UserFetched>, RepoError>)
        ensures
            match r {
                Ok(Some(u)) => {
                    &&& u.id == id
                    &&& self.users().contains_key(u.name@)
                    &&& u@ == self.users()[u.name@]
                },
                Ok(None) => forall|n: Seq<char>|
                    self.users().contains_key(n) ==> #[trigger] self.users()[n].id != id,
                Err(_) => true,
            },
            self.available() ==> r is Ok,
    ;
}

/// Whether a sequence of records can seed an in-memory store: names are
/// distinct and every id leaves room for a fresh one.
pub open spec fn seed_ok(users: Seq<UserFetched>) -> bool {
    &&& distinct_names(users)
    &&& forall|i: int| 0 <= i < users.len() ==> #[trigger] users[i].id < i32::MAX
}

/// An in-memory identity store: the test double of the store contract. It
/// keeps names unique and assigns ids that no stored record carries; its
/// lookups always complete, and creation fails only when no fresh id is
/// left — that is, it is available exactly while the id space has room.
pub struct InMemoryUserRepo {
    store: Vec<UserFetched>,
    next_id: i32,
}

impl InMemoryUserRepo {
    #[verifier::type_invariant]
    spec fn inv(&self) -> bool {
        &&& distinct_names(self.store@)
        &&& forall|i: int| 0 <= i < self.store@.len() ==> #[trigger] self.store@[i].id < self.next_id
    }

    /// An empty store, with the whole id space ahead of it.
    pub fn new() -> (r: InMemoryUserRepo)
        ensures
            r.users() == Map::<Seq<char>, UserView>::empty(),
            r.available(),
    {
        InMemoryUserRepo { store: Vec::new(), next_id: 1 }
    }

    /// A store seeded with the given records, provided their names are
    /// distinct and their ids leave room for fresh ones. It is available —
    /// creation completes — exactly when the seed ids also leave that room.
    pub fn from_users(users: Vec<UserFetched>) -> (r: Option<InMemoryUserRepo>)
        ensures
            r is Some <==> seed_ok(users@),
            r matches Some(repo) ==> repo.users() == map_of(users@),
            r matches Some(repo) ==> (repo.available() <==> (forall|i: int|
                0 <= i < users@.len() ==> #[trigger] users@[i].id < i32::MAX - 1)),
    {
        let n = users.len();
        let mut next: i32 = 1;
        let mut i: usize = 0;
        while i < n
            invariant
                n == users@.len(),
                0 <= i <= n,
                distinct_names(users@.take(i as int)),
                forall|k: int| 0 <= k < i ==> #[trigger] users@[k].id < i32::MAX,
                forall|k: int| 0 <= k < i ==> #[trigger] users@[k].id < next,
                next >= 1,
                next < i32::MAX <==> (forall|k: int|
                    0 <= k < i ==> #[trigger] users@[k].id < i32::MAX - 1),
            decreases n - i,
        {
            if users[i].id == i32::MAX {
                proof {
                    assert(users@[i as int].id >= i32::MAX);
                }
                return None;
            }
            let mut j: usize = 0;
            while j < i
                invariant
                    n == users@.len(),
                    0 <= j <= i < n,
                    forall|k: int| 0 <= k < j ==> users@[k]@.name != users@[i as int]@.name,
                decreases i - j,
            {
                if str_eq(users[j].name.as_str(), users[i].name.as_str()) {
                    assert(!distinct_names(users@));
                    return None;
                }
                j = j + 1;
            }
            if users[i].id >= next {
                next = users[i].id + 1;
            }
            proof {
                assert(distinct_names(users@.take(i + 1 as int))) by {
                    let t = users@.take(i + 1 as int);
                    assert(forall|a: int, b: int|
                        0 <= a < b < t.len() ==> t[a]@.name != t[b]@.name) by {
                        assert(forall|a: int| 0 <= a < t.len() ==> t[a] == users@[a]);
                    }
                }
            }
            i = i + 1;
        }
        proof {
            assert(users@.take(n as int) =~= users@);
        }
        Some(InMemoryUserRepo { store: users, next_id: next })
    }
}

impl IUserRepo for InMemoryUserRepo {
    closed spec fn users(&self) -> Map<Seq<char>, UserView> {
        map_of(self.store@)
    }

    closed spec fn available(&self) -> bool {
        self.next_id < i32::MAX
    }

    fn name_exists(&self, name: &str) -> (r: Result<bool, RepoError>)
        ensures
            r is Ok,
    {
        let n = self.store.len();
        let mut i: usize = 0;
        while i < n
            invariant
                n == self.store@.len(),
                0 <= i <= n,
                forall|j: int| 0 <= j < i ==> self.store@[j]@.name != name@,
            decreases n - i,
        {
            if str_eq(self.store[i].name.as_str(), name) {
                proof {
                    lemma_map_of_contains(self.store@, name@);
                }
                return Ok(true);
            }
            i = i + 1;
        }
        proof {
            lemma_map_of_contains(self.store@, name@);
        }
        Ok(false)
    }

    fn password_hash(&self, password: &str) -> (r: String) {
        hash_password(password)
    }

    fn register(&mut self, dto: &UserRegister) -> (r: Result<(), RepoError>)
        ensures
            r is Ok <==> old(self).available(),
    {
        proof {
            use_type_invariant(&*self);
            lemma_map_of_contains(self.store@, dto.name@);
        }
        if self.next_id == i32::MAX {
            return Err(RepoError);
        }
        let ghost old_store = self.store@;
        let id = self.next_id;
        self.next_id = self.next_id + 1;
        let record = UserFetched { id, name: dto.name.clone(), password: dto.password.clone() };
        let mut taken: Vec<UserFetched> = Vec::new();
        std::mem::swap(&mut taken, &mut self.store);
        taken.push(record);
        std::mem::swap(&mut taken, &mut self.store);
        proof {
            let s2 = self.store@;
            assert(s2.drop_last() =~= old_store);
            assert(map_of(s2) == map_of(old_store).insert(dto.name@, UserView {
                id: id,
                name: dto.name@,
                password: dto.password@,
            }));
            assert forall|n: Seq<char>| map_of(old_store).contains_key(n)
                implies #[trigger] map_of(old_store)[n].id != id by {
                lemma_map_of_contains(old_store, n);
                let k = choose|k: int| 0 <= k < old_store.len() && old_store[k]@.name == n;
                lemma_map_of_index(old_store, k);
            };
        }
        Ok(())
    }

    fn fetch_by_name(&self, name: &str) -> (r: Result<UserFetched, RepoError>)
        ensures
            r is Ok,
    {
        proof {
            use_type_invariant(&*self);
            lemma_map_of_contains(self.store@, name@);
        }
        let n = self.store.len();
        let mut i: usize = 0;
        while i < n
            invariant
                n == self.store@.len(),
                0 <= i <= n,
                forall|j: int| 0 <= j < i ==> self.store@[j]@.name != name@,
                distinct_names(self.store@),
                map_of(self.store@) == self.users(),
                self.users().contains_key(name@),
            decreases n - i,
        {
            if str_eq(self.store[i].name.as_str(), name) {
                proof {
                    lemma_map_of_index(self.store@, i as int);
                }
                let u = &self.store[i];
                return Ok(UserFetched {
                    id: u.id,
                    name: u.name.clone(),
                    password: u.password.clone(),
                });
            }
            i = i + 1;
        }
        proof {
            assert(false);
        }
        Err(RepoError)
    }

    fn fetch_by_id(&self, id: i32) -> (r: Result<Option<UserFetched>, RepoError>)
        ensures
            r is Ok,
    {
        proof {
            use_type_invariant(&*self);
        }
        let n = self.store.len();
        let mut i: usize = 0;
        while i < n
            invariant
                n == self.store@.len(),
                0 <= i <= n,
                forall|j: int| 0 <= j < i ==> self.store@[j].id != id,
                distinct_names(self.store@),
                map_of(self.store@) == self.users(),
            decreases n - i,
        {
            if self.store[i].id == id {
                proof {
                    lemma_map_of_index(self.store@, i as int);
                }
                let u = &self.store[i];
                return Ok(Some(UserFetched {
                    id: u.id,
                    name: u.name.clone(),
                    password: u.password.clone(),
                }));
            }
            i = i + 1;
        }
        proof {
            assert forall|m: Seq<char>| self.users().contains_key(m)
                implies #[trigger] self.users()[m].id != id by {
                lemma_map_of_contains(self.store@, m);
                let k = choose|k: int| 0 <= k < self.store@.len() && self.store@[k]@.name == m;
                lemma_map_of_index(self.store@, k);
            };
        }
        Ok(None)
    }
}

} // verus!
