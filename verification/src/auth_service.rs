//! The authentication service: validates credentials and issues tokens;
//! validates bearer tokens and resolves the caller's identity.

use vstd::prelude::*;

use crate::entities::{AuthError, AuthMe, AuthResponse, Claims, UserAuth, UserFetched, UserView};
use crate::hasher::{bcrypt_matches, verify_password};
use crate::repo::IUserRepo;
use crate::strutil::{bearer_token, spec_bearer_token, spec_is_bearer};
use crate::token::{current_time, jwt_claims_of, spec_exp_after, TokenCodec};

verus! {

/// Orchestrates the identity store, the password hasher and the token
/// codec over a single request. Each call is independent: the service holds
/// only the store handle and the read-only codec configuration.
pub struct AuthService<UserRepo: IUserRepo> {
    user_repo: UserRepo,
    codec: TokenCodec,
}

impl<UserRepo: IUserRepo> AuthService<UserRepo> {
    /// The store contents the service consults.
    pub closed spec fn users(&self) -> Map<Seq<char>, UserView> {
        self.user_repo.users()
    }

    /// The signing secret the service issues and verifies tokens with.
    pub closed spec fn secret(&self) -> Seq<char> {
        self.codec.secret()
    }

    /// Whether the store the service consults completes every operation.
    pub closed spec fn available(&self) -> bool {
        self.user_repo.available()
    }

    /// A service over the given store and token codec.
    pub fn new(user_repo: UserRepo, codec: TokenCodec) -> (s: Self)
        ensures
            s.users() == user_repo.users(),
            s.secret() == codec.secret(),
            s.available() == user_repo.available(),
    {
        Self { user_repo, codec }
    }

    /// Authenticates credentials at time `now`. An absent name fails as
    /// unknown user; a present name with a mismatching password fails as a
    /// wrong password; valid credentials get a token whose claims carry the
    /// stored identity's id and an expiry one validity window past `now`.
    /// A store failure aborts the attempt; on an available store each of
    /// the three outcomes is owed, not merely permitted.
    pub fn auth_at(&self, user: &UserAuth, now: u64) -> (r: Result<AuthResponse, AuthError>)
        ensures
            match r {
                Ok(resp) => {
                    &&& self.users().contains_key(user.name@)
                    &&& bcrypt_matches(user.password@, self.users()[user.name@].password)
                    &&& jwt_claims_of(resp.token@, self.secret()) == Some(
                        (self.users()[user.name@].id as i64, spec_exp_after(now)),
                    )
                    &&& resp.token@.len() > 0
                    &&& resp.refresh@.len() == 0
                },
                Err(e) => match e {
                    AuthError::UserNotFound => !self.users().contains_key(user.name@),
                    AuthError::WrongPassword => {
                        &&& self.users().contains_key(user.name@)
                        &&& !bcrypt_matches(user.password@, self.users()[user.name@].password)
                    },
                    AuthError::RepositoryUnavailable => true,
                    _ => false,
                },
            },
            self.available() && !self.users().contains_key(user.name@) ==> r == Err::<
                AuthResponse,
                AuthError,
            >(AuthError::UserNotFound),
            self.available() && self.users().contains_key(user.name@) && !bcrypt_matches(
                user.password@,
                self.users()[user.name@].password,
            ) ==> r == Err::<AuthResponse, AuthError>(AuthError::WrongPassword),
            self.available() && self.users().contains_key(user.name@) && bcrypt_matches(
                user.password@,
                self.users()[user.name@].password,
            ) ==> r is Ok,
    {
        match self.user_repo.name_exists(user.name.as_str()) {
            Err(_) => Err(AuthError::RepositoryUnavailable),
            Ok(false) => Err(AuthError::UserNotFound),
            Ok(true) => match self.user_repo.fetch_by_name(user.name.as_str()) {
                Err(_) => Err(AuthError::RepositoryUnavailable),
                Ok(fetched) => check_password_and_issue(
                    &self.codec,
                    &fetched,
                    user.password.as_str(),
                    now,
                ),
            },
        }
    }

    /// Authenticates credentials at the current time: as [`Self::auth_at`],
    /// with the expiry taken one validity window past the clock reading.
    pub fn auth(&self, user: &UserAuth) -> (r: Result<AuthResponse, AuthError>)
        ensures
            match r {
                Ok(resp) => {
                    &&& self.users().contains_key(user.name@)
                    &&& bcrypt_matches(user.password@, self.users()[user.name@].password)
                    &&& jwt_claims_of(resp.token@, self.secret()) matches Some(p) && p.0
                        == self.users()[user.name@].id as i64
                    &&& resp.token@.len() > 0
                    &&& resp.refresh@.len() == 0
                },
                Err(e) => match e {
                    AuthError::UserNotFound => !self.users().contains_key(user.name@),
                    AuthError::WrongPassword => {
                        &&& self.users().contains_key(user.name@)
                        &&& !bcrypt_matches(user.password@, self.users()[user.name@].password)
                    },
                    AuthError::RepositoryUnavailable => true,
                    _ => false,
                },
            },
            self.available() && !self.users().contains_key(user.name@) ==> r == Err::<
                AuthResponse,
                AuthError,
            >(AuthError::UserNotFound),
            self.available() && self.users().contains_key(user.name@) && !bcrypt_matches(
                user.password@,
                self.users()[user.name@].password,
            ) ==> r == Err::<AuthResponse, AuthError>(AuthError::WrongPassword),
            self.available() && self.users().contains_key(user.name@) && bcrypt_matches(
                user.password@,
                self.users()[user.name@].password,
            ) ==> r is Ok,
    {
        let now = current_time();
        self.auth_at(user, now)
    }

    /// Resolves a presented `Authorization` header value at time `now` to
    /// the stored identity the token speaks for. A missing header, a value
    /// without the bearer scheme, a token that fails verification, and a
    /// token whose subject no record carries are all the same invalid-token
    /// outcome; only a store failure is reported differently. On an
    /// available store, a verified token is owed its resolution: the stored
    /// identity when its subject is stored, the invalid-token error when not.
    pub fn user_at(&self, header: Option<&str>, now: u64) -> (r: Result<UserFetched, AuthError>)
        ensures
            match r {
                Ok(u) => {
                    &&& header matches Some(h)
                    &&& spec_is_bearer(h@)
                    &&& TokenCodec::spec_verify(spec_bearer_token(h@), self.secret(), now)
                        matches Some(c) && u.id == c.user_id
                    &&& self.users().contains_key(u.name@)
                    &&& u@ == self.users()[u.name@]
                },
                Err(e) => match e {
                    AuthError::InvalidToken => {
                        ||| header is None
                        ||| (header matches Some(h) && !spec_is_bearer(h@))
                        ||| (header matches Some(h) && TokenCodec::spec_verify(
                            spec_bearer_token(h@),
                            self.secret(),
                            now,
                        ) is None)
                        ||| (header matches Some(h) && TokenCodec::spec_verify(
                            spec_bearer_token(h@),
                            self.secret(),
                            now,
                        ) matches Some(c) && (forall|n: Seq<char>|
                            self.users().contains_key(n)
                                ==> #[trigger] self.users()[n].id != c.user_id))
                    },
                    AuthError::RepositoryUnavailable => true,
                    _ => false,
                },
            },
            header is None ==> r == Err::<UserFetched, AuthError>(AuthError::InvalidToken),
            header matches Some(h) && !spec_is_bearer(h@) ==> r == Err::<UserFetched, AuthError>(
                AuthError::InvalidToken,
            ),
            header matches Some(h) && TokenCodec::spec_verify(
                spec_bearer_token(h@),
                self.secret(),
                now,
            ) is None ==> r == Err::<UserFetched, AuthError>(AuthError::InvalidToken),
            ({
                &&& self.available()
                &&& header matches Some(h)
                &&& spec_is_bearer(h@)
                &&& TokenCodec::spec_verify(spec_bearer_token(h@), self.secret(), now)
                    matches Some(c)
                &&& exists|n: Seq<char>|
                    #[trigger] self.users().contains_key(n) && self.users()[n].id == c.user_id
            }) ==> r is Ok,
            ({
                &&& self.available()
                &&& header matches Some(h)
                &&& spec_is_bearer(h@)
                &&& TokenCodec::spec_verify(spec_bearer_token(h@), self.secret(), now)
                    matches Some(c)
                &&& forall|n: Seq<char>|
                    self.users().contains_key(n) ==> #[trigger] self.users()[n].id != c.user_id
            }) ==> r == Err::<UserFetched, AuthError>(AuthError::InvalidToken),
    {
        match resolve_header(&self.codec, header, now) {
            Err(e) => Err(e),
            Ok(claims) => match self.user_repo.fetch_by_id(claims.user_id) {
                Err(_) => Err(AuthError::RepositoryUnavailable),
                Ok(None) => Err(AuthError::InvalidToken),
                Ok(Some(u)) => {
                    proof {
                        assert(self.users()[u.name@].id == u.id);
                    }
                    Ok(u)
                },
            },
        }
    }

    /// Resolves a presented `Authorization` header value at the current
    /// time: as [`Self::user_at`]. The rejections that do not depend on the
    /// clock — a missing header, a value without the bearer scheme, a token
    /// that does not decode with the service's secret — are pinned here too.
    pub fn user(&self, header: Option<&str>) -> (r: Result<UserFetched, AuthError>)
        ensures
            match r {
                Ok(u) => {
                    &&& header matches Some(h)
                    &&& spec_is_bearer(h@)
                    &&& jwt_claims_of(spec_bearer_token(h@), self.secret()) matches Some(p)
                        && p.0 == u.id as i64
                    &&& self.users().contains_key(u.name@)
                    &&& u@ == self.users()[u.name@]
                },
                Err(e) => e == AuthError::InvalidToken || e == AuthError::RepositoryUnavailable,
            },
            header is None ==> r == Err::<UserFetched, AuthError>(AuthError::InvalidToken),
            header matches Some(h) && !spec_is_bearer(h@) ==> r == Err::<UserFetched, AuthError>(
                AuthError::InvalidToken,
            ),
            header matches Some(h) && jwt_claims_of(spec_bearer_token(h@), self.secret()) is None
                ==> r == Err::<UserFetched, AuthError>(AuthError::InvalidToken),
    {
        let now = current_time();
        self.user_at(header, now)
    }
}

/// Checks a plaintext password against an already fetched identity and, on
/// a match, issues a token for it at time `now`. Exactly the mismatching
/// passwords are rejected, and every issued token carries the identity's id
/// and an expiry one validity window past `now`.
pub fn check_password_and_issue(
    codec: &TokenCodec,
    fetched: &UserFetched,
    password: &str,
    now: u64,
) -> (r: Result<AuthResponse, AuthError>)
    ensures
        match r {
            Ok(resp) => {
                &&& bcrypt_matches(password@, fetched.password@)
                &&& jwt_claims_of(resp.token@, codec.secret()) == Some(
                    (fetched.id as i64, spec_exp_after(now)),
                )
                &&& resp.token@.len() > 0
                &&& resp.refresh@.len() == 0
            },
            Err(e) => {
                &&& e == AuthError::WrongPassword
                &&& !bcrypt_matches(password@, fetched.password@)
            },
        },
{
    if verify_password(password, fetched.password.as_str()) {
        Ok(codec.issue_at(fetched.id, now))
    } else {
        Err(AuthError::WrongPassword)
    }
}

/// Decides an authentication attempt from the outcome of the store lookup:
/// no fetched identity fails as unknown user, a mismatching password as a
/// wrong password, and a match gets a token for the fetched identity's id
/// expiring one validity window past `now`.
pub fn authenticate_fetched(
    codec: &TokenCodec,
    fetched: Option<&UserFetched>,
    password: &str,
    now: u64,
) -> (r: Result<AuthResponse, AuthError>)
    ensures
        match r {
            Ok(resp) => {
                &&& fetched matches Some(u)
                &&& bcrypt_matches(password@, u.password@)
                &&& jwt_claims_of(resp.token@, codec.secret()) == Some(
                    (u.id as i64, spec_exp_after(now)),
                )
                &&& resp.token@.len() > 0
                &&& resp.refresh@.len() == 0
            },
            Err(e) => match e {
                AuthError::UserNotFound => fetched is None,
                AuthError::WrongPassword => fetched matches Some(u) && !bcrypt_matches(
                    password@,
                    u.password@,
                ),
                _ => false,
            },
        },
{
    match fetched {
        None => Err(AuthError::UserNotFound),
        Some(u) => check_password_and_issue(codec, u, password, now),
    }
}

/// Extracts the bearer token from a presented `Authorization` header value
/// and verifies it at time `now`. A missing header, a value without the
/// bearer scheme, and a token that fails verification are all the same
/// invalid-token outcome, and nothing else is rejected.
pub fn resolve_header(codec: &TokenCodec, header: Option<&str>, now: u64) -> (r: Result<
    Claims,
    AuthError,
>)
    ensures
        match r {
            Ok(c) => {
                &&& header matches Some(h)
                &&& spec_is_bearer(h@)
                &&& TokenCodec::spec_verify(spec_bearer_token(h@), codec.secret(), now) == Some(c)
            },
            Err(e) => {
                &&& e == AuthError::InvalidToken
                &&& {
                    ||| header is None
                    ||| (header matches Some(h) && !spec_is_bearer(h@))
                    ||| (header matches Some(h) && TokenCodec::spec_verify(
                        spec_bearer_token(h@),
                        codec.secret(),
                        now,
                    ) is None)
                }
            },
        },
        header is None ==> r == Err::<Claims, AuthError>(AuthError::InvalidToken),
        header matches Some(h) && !spec_is_bearer(h@) ==> r == Err::<Claims, AuthError>(
            AuthError::InvalidToken,
        ),
        header matches Some(h) && TokenCodec::spec_verify(
            spec_bearer_token(h@),
            codec.secret(),
            now,
        ) is None ==> r == Err::<Claims, AuthError>(AuthError::InvalidToken),
{
    match header {
        None => Err(AuthError::InvalidToken),
        Some(h) => match bearer_token(h) {
            None => Err(AuthError::InvalidToken),
            Some(token) => codec.verify_at(token, now),
        },
    }
}

/// Projects a fetched identity to the subset safe to expose to the caller.
pub fn user_fetched_to_auth_me(fetched: &UserFetched) -> (r: AuthMe)
    ensures
        r.id == fetched.id,
        r.name@ == fetched.name@,
{
    AuthMe { id: fetched.id, name: fetched.name.clone() }
}

} // verus!
