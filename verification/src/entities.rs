//! Data carried through the authentication flows, and the error taxonomy.

use vstd::prelude::*;

verus! {

use vstd::string::StringExecFns;

/// Submitted credentials: transient input, never persisted as-is.
pub struct UserAuth {
    pub name: String,
    pub password: String,
}

/// Credentials as they arrive at the transport layer; same shape as
/// [`UserAuth`].
pub struct UserDto {
    pub name: String,
    pub password: String,
}

/// A durable identity record as the store hands it out: a unique `id`
/// assigned by the store, a unique `name`, and the salted one-way hash of
/// the password in `password` (never the plaintext).
pub struct UserFetched {
    pub id: i32,
    pub name: String,
    pub password: String,
}

/// An identity record as other layers name it; same shape as
/// [`UserFetched`].
pub struct User {
    pub id: i32,
    pub name: String,
    pub password: String,
}

/// An identity as seen by a request that presented a valid token; same
/// shape as [`UserFetched`].
pub struct LoggedUser {
    pub id: i32,
    pub name: String,
    pub password: String,
}

/// An identity to be stored, before the store has assigned an id. The
/// `password` field holds the hash, not the plaintext, by the time it
/// reaches the store.
pub struct UserRegister {
    pub name: String,
    pub password: String,
}

/// The subset of an identity safe to expose to the caller: never the
/// password hash.
pub struct AuthMe {
    pub id: i32,
    pub name: String,
}

/// The signed payload embedded in a token: the subject's identity id and
/// the expiry timestamp (seconds since the Unix epoch).
#[derive(Clone, Copy, Debug, PartialEq, Eq, Structural)]
pub struct Claims {
    pub user_id: i32,
    pub exp: u64,
}

/// Returned to the caller on successful authentication. The refresh token
/// is an unused placeholder and is always empty.
pub struct AuthResponse {
    pub token: String,
    pub refresh: String,
}

/// A human-readable message wrapper for error responses.
pub struct AuthMsg {
    pub msg: String,
}

/// A human-readable message wrapper for registration responses.
pub struct UserRespose {
    pub msg: String,
}

/// What a stored identity looks like at the specification level.
pub struct UserView {
    pub id: i32,
    pub name: Seq<char>,
    pub password: Seq<char>,
}

impl View for UserFetched {
    type V = UserView;

    open spec fn view(&self) -> UserView {
        UserView { id: self.id, name: self.name@, password: self.password@ }
    }
}

/// Why an authentication or resolution attempt failed.
#[derive(Clone, Copy, Debug, PartialEq, Eq, Structural)]
pub enum AuthError {
    /// The credential subject is absent from the store.
    UserNotFound,
    /// The credential subject was found, but the password hash did not match.
    WrongPassword,
    /// The bearer token was missing, malformed, mis-signed, of the wrong
    /// claim shape, or expired.
    InvalidToken,
    /// The identity store could not complete a lookup.
    RepositoryUnavailable,
    /// The signing secret or hash parameters are missing or invalid; fatal
    /// at startup, never a per-request outcome.
    ConfigurationError,
}

impl AuthError {
    /// The external status class: credential and token failures collapse to
    /// one unauthorized outcome, so a caller cannot enumerate users, while a
    /// store failure is a server error, not a security decision.
    pub open spec fn spec_is_unauthorized(&self) -> bool {
        self is UserNotFound || self is WrongPassword || self is InvalidToken
    }

    /// Whether this failure is reported to the caller as unauthorized.
    pub fn is_unauthorized(&self) -> (r: bool)
        ensures
            r == self.spec_is_unauthorized(),
    {
        match self {
            AuthError::UserNotFound => true,
            AuthError::WrongPassword => true,
            AuthError::InvalidToken => true,
            AuthError::RepositoryUnavailable => false,
            AuthError::ConfigurationError => false,
        }
    }

    /// The human-readable message for each failure.
    pub open spec fn spec_message(&self) -> Seq<char> {
        match self {
            AuthError::UserNotFound => "User does not exist."@,
            AuthError::WrongPassword => "Password mismatch."@,
            AuthError::InvalidToken => "Invalid token."@,
            AuthError::RepositoryUnavailable => "Repository unavailable."@,
            AuthError::ConfigurationError => "Missing or invalid configuration."@,
        }
    }

    /// Renders the failure as a human-readable message.
    pub fn message(&self) -> (r: String)
        ensures
            r@ == self.spec_message(),
    {
        match self {
            AuthError::UserNotFound => String::from_str("User does not exist."),
            AuthError::WrongPassword => String::from_str("Password mismatch."),
            AuthError::InvalidToken => String::from_str("Invalid token."),
            AuthError::RepositoryUnavailable => String::from_str("Repository unavailable."),
            AuthError::ConfigurationError => String::from_str("Missing or invalid configuration."),
        }
    }
}

/// An opaque failure of the identity store: the lookup could not be
/// completed.
#[derive(Clone, Copy, Debug, PartialEq, Eq, Structural)]
pub struct RepoError;

} // verus!
