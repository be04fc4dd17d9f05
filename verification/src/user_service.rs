//! The registration service: stores a new identity under a hashed password.

use vstd::prelude::*;

use crate::entities::{UserRegister, UserView};
use crate::hasher::bcrypt_matches;
use crate::repo::IUserRepo;

verus! {

use vstd::string::StringExecFns;

/// The registration interface the transport layer depends on: callers see
/// only this contract, never the concrete store.
pub trait IUserService: Sized {
    /// The store contents the service works on.
    spec fn users(&self) -> Map<Seq<char>, UserView>;

    /// Whether the store the service works on completes every operation.
    spec fn available(&self) -> bool;

    /// Registers a new identity: an already stored name is rejected and the
    /// store is unchanged; otherwise the password is hashed and the identity
    /// stored under a fresh id with that hash, never the plaintext. A store
    /// failure also leaves the contents unchanged; on an available store
    /// each of the two outcomes is owed.
    fn register(&mut self, dto: &UserRegister) -> (r: Result<(), String>)
        ensures
            old(self).available() && !old(self).users().contains_key(dto.name@) ==> r is Ok,
            old(self).available() && old(self).users().contains_key(dto.name@) ==> (r matches Err(
                m,
            ) && m@ == "Not created because it already exists."@),
            match r {
                Ok(()) => {
                    &&& !old(self).users().contains_key(dto.name@)
                    &&& exists|id: i32, h: Seq<char>|
                        {
                            &&& #[trigger] final(self).users() == old(self).users().insert(
                                dto.name@,
                                UserView { id: id, name: dto.name@, password: h },
                            )
                            &&& bcrypt_matches(dto.password@, h)
                        }
                },
                Err(m) => {
                    &&& final(self).users() == old(self).users()
                    &&& (m@ == "Not created because it already exists."@ || m@
                        == "Repository unavailable."@)
                    &&& (m@ == "Not created because it already exists."@ ==> old(
                        self,
                    ).users().contains_key(dto.name@))
                },
            },
    ;
}

/// Registers new identities against the store contract.
pub struct UserService<R: IUserRepo> {
    repo: R,
}

impl<R: IUserRepo> UserService<R> {
    /// The store contents the service works on.
    pub closed spec fn users(&self) -> Map<Seq<char>, UserView> {
        self.repo.users()
    }

    /// Whether the store the service works on completes every operation.
    pub closed spec fn available(&self) -> bool {
        self.repo.available()
    }

    /// A service over the given store.
    pub fn new(repo: R) -> (s: Self)
        ensures
            s.users() == repo.users(),
            s.available() == repo.available(),
    {
        Self { repo }
    }

    /// Registers a new identity: an already stored name is rejected and the
    /// store is unchanged; otherwise the password is hashed and the identity
    /// stored under a fresh id with that hash, never the plaintext. A store
    /// failure also leaves the contents unchanged; on an available store
    /// each of the two outcomes is owed.
    pub fn register(&mut self, dto: &UserRegister) -> (r: Result<(), String>)
        ensures
            old(self).available() && !old(self).users().contains_key(dto.name@) ==> r is Ok,
            old(self).available() && old(self).users().contains_key(dto.name@) ==> (r matches Err(
                m,
            ) && m@ == "Not created because it already exists."@),
            match r {
                Ok(()) => {
                    &&& !old(self).users().contains_key(dto.name@)
                    &&& exists|id: i32, h: Seq<char>|
                        {
                            &&& #[trigger] final(self).users() == old(self).users().insert(
                                dto.name@,
                                UserView { id: id, name: dto.name@, password: h },
                            )
                            &&& bcrypt_matches(dto.password@, h)
                        }
                },
                Err(m) => {
                    &&& final(self).users() == old(self).users()
                    &&& (m@ == "Not created because it already exists."@ || m@
                        == "Repository unavailable."@)
                    &&& (m@ == "Not created because it already exists."@ ==> old(
                        self,
                    ).users().contains_key(dto.name@))
                },
            },
    {
        proof {
            reveal_strlit("Not created because it already exists.");
            reveal_strlit("Repository unavailable.");
        }
        match self.repo.name_exists(dto.name.as_str()) {
            Err(_) => Err(String::from_str("Repository unavailable.")),
            Ok(true) => Err(String::from_str("Not created because it already exists.")),
            Ok(false) => {
                let hashed = self.repo.password_hash(dto.password.as_str());
                let ghost h = hashed@;
                let record = UserRegister { name: dto.name.clone(), password: hashed };
                match self.repo.register(&record) {
                    Ok(()) => {
                        proof {
                            let ghost pre = old(self).users();
                            let id = choose|id: i32|
                                {
                                    &&& #[trigger] self.repo.users() == pre.insert(
                                        record.name@,
                                        UserView { id: id, name: record.name@, password: record.password@ },
                                    )
                                    &&& forall|n: Seq<char>|
                                        pre.contains_key(n) ==> #[trigger] pre[n].id != id
                                };
                            assert(self.users() == pre.insert(
                                dto.name@,
                                UserView { id: id, name: dto.name@, password: h },
                            ));
                            assert(bcrypt_matches(dto.password@, h));
                        }
                        Ok(())
                    },
                    Err(_) => Err(String::from_str("Repository unavailable.")),
                }
            },
        }
    }
}

impl<R: IUserRepo> IUserService for UserService<R> {
    closed spec fn users(&self) -> Map<Seq<char>, UserView> {
        UserService::users(self)
    }

    closed spec fn available(&self) -> bool {
        UserService::available(self)
    }

    fn register(&mut self, dto: &UserRegister) -> (r: Result<(), String>) {
        UserService::register(self, dto)
    }
}

} // verus!
