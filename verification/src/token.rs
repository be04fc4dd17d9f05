//! Issuing and verifying signed, time-bounded session tokens.
//!
//! A token is an opaque string that signs the claims `{user_id, exp}` with a
//! process-wide symmetric secret. The signing and decoding are done by the
//! `jsonwebtoken` crate; the library speaks of their outcome through the
//! name [`jwt_claims_of`].

use vstd::prelude::*;

use crate::entities::{AuthError, AuthResponse, Claims};

verus! {

/// Seconds in the fixed token validity window (one year).
pub const TOKEN_VALIDITY_SECONDS: u64 = 60 * 60 * 24 * 365;

/// The expiry timestamp for a token issued at `now`: one validity window
/// later, saturating at the largest representable timestamp.
pub open spec fn spec_exp_after(now: u64) -> u64 {
    if now + TOKEN_VALIDITY_SECONDS <= u64::MAX {
        (now + TOKEN_VALIDITY_SECONDS) as u64
    } else {
        u64::MAX
    }
}

/// Computes the expiry timestamp for a token issued at `now`.
pub fn exp_after(now: u64) -> (r: u64)
    ensures
        r == spec_exp_after(now),
{
    if now <= u64::MAX - TOKEN_VALIDITY_SECONDS {
        now + TOKEN_VALIDITY_SECONDS
    } else {
        u64::MAX
    }
}

/// The claims that decoding `token` with `secret` recovers: the `user_id`
/// and `exp` fields of the signed payload, or nothing when the token is
/// malformed, signed with another secret or algorithm, or its payload does
/// not carry those two numeric fields. Signature checking is deterministic,
/// so the outcome is a function of the two arguments alone.
pub uninterp spec fn jwt_claims_of(token: Seq<char>, secret: Seq<char>) -> Option<(i64, u64)>;

/// Relies on jsonwebtoken::decode with the HS256 algorithm: it splits the
/// token, checks the signature against `secret`, and parses the payload;
/// expiry is not checked here, and no audience is configured, so the
/// outcome depends on the two arguments alone. A payload without a numeric
/// `user_id` and `exp`, or one carrying an `aud` claim (which the validator
/// rejects when no audience is expected), comes back as nothing.
#[verifier::external_body]
fn jwt_decode(token: &str, secret: &str) -> (r: Option<(i64, u64)>)
    ensures
        r == jwt_claims_of(token@, secret@),
{
    let mut validation = jsonwebtoken::Validation::default();
    validation.validate_exp = false;
    validation.required_spec_claims = std::collections::HashSet::new();
    let key = jsonwebtoken::DecodingKey::from_secret(secret.as_bytes());
    match jsonwebtoken::decode::<serde_json::Value>(token, &key, &validation) {
        Ok(data) => {
            let user_id = data.claims.get("user_id").and_then(serde_json::Value::as_i64);
            let exp = data.claims.get("exp").and_then(serde_json::Value::as_u64);
            match (user_id, exp) {
                (Some(user_id), Some(exp)) => Some((user_id, exp)),
                _ => None,
            }
        }
        Err(_) => None,
    }
}

/// Relies on jsonwebtoken::encode with the default HS256 header: it signs
/// the payload `{user_id, exp}` with `secret`, and decoding the returned
/// token with the same secret recovers exactly those claims. The result is
/// three dot-joined segments, so it is never empty. HMAC signing of a
/// serializable payload does not fail.
#[verifier::external_body]
fn jwt_encode(user_id: i64, exp: u64, secret: &str) -> (r: String)
    ensures
        jwt_claims_of(r@, secret@) == Some((user_id, exp)),
        r@.len() > 0,
{
    let mut claims = serde_json::Map::new();
    claims.insert(String::from("user_id"), serde_json::Value::from(user_id));
    claims.insert(String::from("exp"), serde_json::Value::from(exp));
    let key = jsonwebtoken::EncodingKey::from_secret(secret.as_bytes());
    jsonwebtoken::encode(&jsonwebtoken::Header::default(), &serde_json::Value::Object(claims), &key)
        .expect("signing a token with a symmetric secret does not fail")
}

/// Relies on std::time::SystemTime::now: the seconds since the Unix epoch,
/// or zero for a clock set before the epoch. Nothing is promised of the
/// value: callers state what holds whatever the clock returned.
#[verifier::external_body]
pub fn current_time() -> u64 {
    std::time::SystemTime::now()
        .duration_since(std::time::UNIX_EPOCH)
        .map(|d| d.as_secs())
        .unwrap_or(0)
}

/// The expiry timestamp a token issued now would carry: the current time
/// plus the validity window.
pub fn one_year_exp() -> (r: u64)
    ensures
        r >= TOKEN_VALIDITY_SECONDS,
{
    exp_after(current_time())
}

/// Signs claims into bearer tokens and validates presented tokens, with a
/// process-wide symmetric secret read once at startup.
pub struct TokenCodec {
    secret: String,
}

impl TokenCodec {
    /// The signing secret this codec was configured with.
    pub closed spec fn secret(&self) -> Seq<char> {
        self.secret@
    }

    /// Configures a codec. An absent (empty) secret is a fatal configuration
    /// error, never a silent default.
    pub fn new(secret: String) -> (r: Result<TokenCodec, AuthError>)
        ensures
            match r {
                Ok(c) => secret@.len() > 0 && c.secret() == secret@,
                Err(e) => secret@.len() == 0 && e == AuthError::ConfigurationError,
            },
    {
        if secret.as_str().is_empty() {
            Err(AuthError::ConfigurationError)
        } else {
            Ok(TokenCodec { secret })
        }
    }

    /// Issues a token for the identity `user_id` at time `now`: the token's
    /// claims carry that subject and an expiry one validity window ahead.
    /// The refresh token is an unused placeholder, always empty.
    pub fn issue_at(&self, user_id: i32, now: u64) -> (r: AuthResponse)
        ensures
            jwt_claims_of(r.token@, self.secret()) == Some((user_id as i64, spec_exp_after(now))),
            r.token@.len() > 0,
            r.refresh@.len() == 0,
    {
        let exp = exp_after(now);
        let token = jwt_encode(user_id as i64, exp, self.secret.as_str());
        AuthResponse { token, refresh: String::new() }
    }

    /// What verifying `token` at time `now` yields: the claims, when the
    /// token decodes with `secret`, its subject fits the identity id range,
    /// and it has not expired (`exp > now`); nothing otherwise.
    pub open spec fn spec_verify(token: Seq<char>, secret: Seq<char>, now: u64) -> Option<Claims> {
        match jwt_claims_of(token, secret) {
            Some((user_id, exp)) => {
                if i32::MIN as i64 <= user_id <= i32::MAX as i64 && now < exp {
                    Some(Claims { user_id: user_id as i32, exp })
                } else {
                    None
                }
            },
            None => None,
        }
    }

    /// Verifies a presented token at time `now`, recovering its claims.
    /// Every failure — malformed token, bad signature, wrong claim shape, a
    /// subject outside the identity id range, or expiry at or before `now` —
    /// is the same invalid-token error.
    pub fn verify_at(&self, token: &str, now: u64) -> (r: Result<Claims, AuthError>)
        ensures
            match r {
                Ok(c) => Self::spec_verify(token@, self.secret(), now) == Some(c),
                Err(e) => {
                    &&& Self::spec_verify(token@, self.secret(), now) is None
                    &&& e == AuthError::InvalidToken
                },
            },
    {
        match jwt_decode(token, self.secret.as_str()) {
            Some((user_id, exp)) => {
                if i32::MIN as i64 <= user_id && user_id <= i32::MAX as i64 && now < exp {
                    Ok(Claims { user_id: user_id as i32, exp })
                } else {
                    Err(AuthError::InvalidToken)
                }
            },
            None => Err(AuthError::InvalidToken),
        }
    }
}

/// A claims payload with `exp` at or before `now` always fails verification,
/// regardless of signature validity.
pub proof fn lemma_expired_token_rejected(token: Seq<char>, secret: Seq<char>, now: u64)
    requires
        jwt_claims_of(token, secret) matches Some(c) && c.1 <= now,
    ensures
        TokenCodec::spec_verify(token, secret, now) is None,
{
}

/// A token issued for `user_id` at `issued_at`, verified with the same
/// secret before its expiry, recovers claims whose subject is exactly
/// `user_id`.
pub proof fn lemma_issue_verify_round_trip(
    token: Seq<char>,
    secret: Seq<char>,
    user_id: i32,
    issued_at: u64,
    now: u64,
)
    requires
        jwt_claims_of(token, secret) == Some((user_id as i64, spec_exp_after(issued_at))),
        now < spec_exp_after(issued_at),
    ensures
        TokenCodec::spec_verify(token, secret, now) == Some(
            Claims { user_id, exp: spec_exp_after(issued_at) },
        ),
{
}

} // verus!
