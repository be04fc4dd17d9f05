use auth_core::entities::AuthError;
use auth_core::token::{exp_after, one_year_exp, TokenCodec, TOKEN_VALIDITY_SECONDS};

fn codec(secret: &str) -> TokenCodec {
    TokenCodec::new(String::from(secret)).expect("secret is non-empty")
}

#[test]
fn token_round_trip() {
    let codec = codec("secret");
    let issued = codec.issue_at(7, 1_000_000);

    let claims = codec.verify_at(issued.token.as_str(), 1_000_010).unwrap();

    assert_eq!(claims.user_id, 7);
    assert_eq!(claims.exp, 1_000_000 + TOKEN_VALIDITY_SECONDS);
    assert!(issued.refresh.is_empty());
}

#[test]
fn token_round_trip_negative_subject() {
    let codec = codec("secret");
    let issued = codec.issue_at(-3, 50);

    let claims = codec.verify_at(issued.token.as_str(), 51).unwrap();

    assert_eq!(claims.user_id, -3);
}

#[test]
fn expired_token_rejected() {
    let codec = codec("secret");
    let issued = codec.issue_at(7, 1000);
    let exp = 1000 + TOKEN_VALIDITY_SECONDS;

    // Expiry must lie strictly in the future: at `exp` and after, the token
    // is rejected however valid its signature.
    assert_eq!(
        codec.verify_at(issued.token.as_str(), exp).err().unwrap(),
        AuthError::InvalidToken
    );
    assert_eq!(
        codec.verify_at(issued.token.as_str(), exp + 1).err().unwrap(),
        AuthError::InvalidToken
    );
    assert!(codec.verify_at(issued.token.as_str(), exp - 1).is_ok());
}

#[test]
fn wrong_secret_rejected() {
    let issuing = codec("secret");
    let verifying = codec("another");
    let issued = issuing.issue_at(7, 1000);

    assert!(verifying.verify_at(issued.token.as_str(), 1001).is_err());
    assert!(issuing.verify_at(issued.token.as_str(), 1001).is_ok());
}

#[test]
fn malformed_token_rejected() {
    let codec = codec("secret");

    assert_eq!(
        codec.verify_at("not.a.token", 0).err().unwrap(),
        AuthError::InvalidToken
    );
    assert_eq!(codec.verify_at("", 0).err().unwrap(), AuthError::InvalidToken);
}

#[test]
fn wrong_claim_shape_rejected() {
    // Signed with the right secret, but the payload carries no subject.
    let claims = serde_json::Value::Object(serde_json::Map::new());
    let key = jsonwebtoken::EncodingKey::from_secret("secret".as_bytes());
    let token =
        jsonwebtoken::encode(&jsonwebtoken::Header::default(), &claims, &key).unwrap();

    let codec = codec("secret");
    assert_eq!(
        codec.verify_at(token.as_str(), 0).err().unwrap(),
        AuthError::InvalidToken
    );
}

#[test]
fn subject_out_of_identity_range_rejected() {
    // A numeric subject too large for an identity id is a wrong claim shape.
    let mut claims = serde_json::Map::new();
    claims.insert(String::from("user_id"), serde_json::Value::from(i64::MAX));
    claims.insert(String::from("exp"), serde_json::Value::from(u64::MAX));
    let key = jsonwebtoken::EncodingKey::from_secret("secret".as_bytes());
    let token = jsonwebtoken::encode(
        &jsonwebtoken::Header::default(),
        &serde_json::Value::Object(claims),
        &key,
    )
    .unwrap();

    let codec = codec("secret");
    assert_eq!(
        codec.verify_at(token.as_str(), 0).err().unwrap(),
        AuthError::InvalidToken
    );
}

#[test]
fn empty_secret_is_a_configuration_error() {
    let res = TokenCodec::new(String::new());

    assert_eq!(res.err().unwrap(), AuthError::ConfigurationError);
    assert!(!AuthError::ConfigurationError.is_unauthorized());
}

#[test]
fn expiry_window_saturates() {
    assert_eq!(exp_after(0), TOKEN_VALIDITY_SECONDS);
    assert_eq!(exp_after(1000), 1000 + TOKEN_VALIDITY_SECONDS);
    assert_eq!(exp_after(u64::MAX), u64::MAX);
    assert_eq!(exp_after(u64::MAX - TOKEN_VALIDITY_SECONDS), u64::MAX);
    assert_eq!(exp_after(u64::MAX - TOKEN_VALIDITY_SECONDS + 1), u64::MAX);
}

#[test]
fn one_year_exp_is_at_least_a_window() {
    assert!(one_year_exp() >= TOKEN_VALIDITY_SECONDS);
    assert_eq!(TOKEN_VALIDITY_SECONDS, 60 * 60 * 24 * 365);
}
