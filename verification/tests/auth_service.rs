use auth_core::auth_service::AuthService;
use auth_core::entities::{AuthError, UserAuth, UserFetched};
use auth_core::repo::InMemoryUserRepo;
use auth_core::token::{one_year_exp, TokenCodec};

fn service_with(users: Vec<UserFetched>) -> AuthService<InMemoryUserRepo> {
    let repo = InMemoryUserRepo::from_users(users).expect("seed records are valid");
    let codec = TokenCodec::new(String::from("secret")).expect("secret is non-empty");
    AuthService::new(repo, codec)
}

fn wrong_shape_token() -> String {
    // A well-formed, correctly signed token whose payload carries none of
    // the expected claims.
    let claims = serde_json::Value::Object(serde_json::Map::new());
    let key = jsonwebtoken::EncodingKey::from_secret("secret".as_bytes());
    jsonwebtoken::encode(&jsonwebtoken::Header::default(), &claims, &key).unwrap()
}

fn token_for(user_id: i64, exp: u64, secret: &str) -> String {
    let mut claims = serde_json::Map::new();
    claims.insert(String::from("user_id"), serde_json::Value::from(user_id));
    claims.insert(String::from("exp"), serde_json::Value::from(exp));
    let key = jsonwebtoken::EncodingKey::from_secret(secret.as_bytes());
    jsonwebtoken::encode(
        &jsonwebtoken::Header::default(),
        &serde_json::Value::Object(claims),
        &key,
    )
    .unwrap()
}

#[test]
fn auth_error_when_user_do_not_exists() {
    let service = service_with(vec![]);

    let dto = UserAuth {
        name: String::from("nk"),
        password: String::from("123"),
    };

    let res = service.auth(&dto);

    assert!(res.is_err(), "Not created because it already exists.");
    assert_eq!(res.err().unwrap(), AuthError::UserNotFound);
}

#[test]
fn wrong_password() {
    let fetch_user = UserFetched {
        id: 123,
        name: String::from("nk"),
        password: String::from("456"),
    };

    let service = service_with(vec![fetch_user]);

    let dto = UserAuth {
        name: String::from("nk"),
        password: String::from("123"),
    };

    let res = service.auth(&dto);

    assert!(res.is_err(), "Miss match password");
    assert_eq!(res.err().unwrap(), AuthError::WrongPassword);
}

#[test]
fn auth_api_fetch_token() {
    let hash_password = bcrypt::hash("123", bcrypt::DEFAULT_COST).unwrap();

    let fetch_user = UserFetched {
        id: 123,
        name: String::from("nk"),
        password: hash_password,
    };

    let service = service_with(vec![fetch_user]);

    let dto = UserAuth {
        name: String::from("nk"),
        password: String::from("123"),
    };

    let res = service.auth(&dto);

    assert!(res.is_ok(), "Match password");

    let auth_token = res.unwrap();

    assert!(!auth_token.token.is_empty());
    assert!(auth_token.refresh.is_empty());
}

#[test]
fn auth_middeware_no_token() {
    let service = service_with(vec![]);

    let res = service.user(None);

    assert!(res.is_err());
    assert_eq!(res.err().unwrap(), AuthError::InvalidToken);
}

#[test]
fn auth_middeware_not_valid_jwt_token() {
    let service = service_with(vec![]);

    let res = service.user(Some("invalid token"));

    assert!(res.is_err());
    assert_eq!(res.err().unwrap(), AuthError::InvalidToken);
}

#[test]
fn auth_middeware_not_rigth_clames() {
    let token = wrong_shape_token();

    let service = service_with(vec![]);
    let res = service.user(Some(token.as_str()));

    assert!(res.is_err());
    assert_eq!(res.err().unwrap(), AuthError::InvalidToken);
}

#[test]
fn auth_middeware_rigth_clames() {
    let stored = UserFetched {
        id: 123,
        name: String::from("nk"),
        password: String::from("pass"),
    };
    let service = service_with(vec![stored]);

    let token = token_for(123, one_year_exp(), "secret");
    let header = format!("Bearer {}", token);

    let res = service.user(Some(header.as_str()));

    assert!(res.is_ok());

    if let Ok(res) = res {
        assert_eq!(res.id, 123)
    }
}

#[test]
fn resolve_rejections_collapse() {
    // No header, a header without the bearer scheme, a syntactically
    // invalid token, and a well-formed signed token of the wrong claim
    // shape all yield one and the same unauthorized outcome.
    let service = service_with(vec![]);

    let no_header = service.user(None).err().unwrap();
    let no_scheme = service.user(Some("Token abc")).err().unwrap();
    let garbage = service.user(Some("Bearer not.a.token")).err().unwrap();
    let wrong_shape = format!("Bearer {}", wrong_shape_token());
    let bad_shape = service.user(Some(wrong_shape.as_str())).err().unwrap();

    assert_eq!(no_header, no_scheme);
    assert_eq!(no_scheme, garbage);
    assert_eq!(garbage, bad_shape);
    assert_eq!(bad_shape, AuthError::InvalidToken);
    assert!(no_header.is_unauthorized());
}

#[test]
fn resolve_unknown_subject_rejected() {
    // A validly signed, unexpired token whose subject no record carries.
    let service = service_with(vec![]);
    let header = format!("Bearer {}", token_for(42, one_year_exp(), "secret"));

    let res = service.user(Some(header.as_str()));

    assert_eq!(res.err().unwrap(), AuthError::InvalidToken);
}

#[test]
fn resolve_wrong_secret_rejected() {
    let service = service_with(vec![]);
    let header = format!("Bearer {}", token_for(42, one_year_exp(), "another secret"));

    let res = service.user(Some(header.as_str()));

    assert_eq!(res.err().unwrap(), AuthError::InvalidToken);
}

#[test]
fn error_messages_name_each_failure() {
    assert_eq!(AuthError::UserNotFound.message(), "User does not exist.");
    assert_eq!(AuthError::WrongPassword.message(), "Password mismatch.");
    assert_eq!(AuthError::InvalidToken.message(), "Invalid token.");
    assert_eq!(AuthError::RepositoryUnavailable.message(), "Repository unavailable.");
    assert_eq!(
        AuthError::ConfigurationError.message(),
        "Missing or invalid configuration."
    );
}

#[test]
fn auth_failures_collapse_to_unauthorized() {
    // Unknown user and wrong password are distinguished internally but both
    // map to the unauthorized status class.
    let stored = UserFetched {
        id: 1,
        name: String::from("nk"),
        password: String::from("456"),
    };
    let service = service_with(vec![stored]);

    let unknown = service
        .auth(&UserAuth {
            name: String::from("ghost"),
            password: String::from("123"),
        })
        .err()
        .unwrap();
    let mismatch = service
        .auth(&UserAuth {
            name: String::from("nk"),
            password: String::from("123"),
        })
        .err()
        .unwrap();

    assert_ne!(unknown, mismatch);
    assert!(unknown.is_unauthorized());
    assert!(mismatch.is_unauthorized());
    assert_eq!(unknown.message(), "User does not exist.");
    assert_eq!(mismatch.message(), "Password mismatch.");
    assert!(!AuthError::RepositoryUnavailable.is_unauthorized());
}
