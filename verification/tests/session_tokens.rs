use authgate::errors::AuthError;
use authgate::models::{LoggedInUser, User};
use authgate::session::{claims_json, create_session_response, decode_session_claims,
    generate_app_jwt, generate_jwt, strip_bearer, validate_app_jwt};

const NOW: u64 = 4102444800;
const SECRET: &str = "unit-test-secret";

fn user_named(name: Option<&str>) -> LoggedInUser {
    LoggedInUser {
        usuario_id: Some(7),
        usuario: name.map(|s| s.to_string()),
        nombre: Some("Alice".to_string()),
        correo: Some("alice@riycorp.com".to_string()),
        roles: vec![],
    }
}

fn decode_value(token: &str, secret: &str) -> serde_json::Value {
    let key = jsonwebtoken::DecodingKey::from_secret(secret.as_bytes());
    let validation = jsonwebtoken::Validation::new(jsonwebtoken::Algorithm::HS256);
    jsonwebtoken::decode::<serde_json::Value>(token, &key, &validation)
        .unwrap()
        .claims
}

#[test]
fn claims_document_shape() {
    let doc = claims_json("alice", &vec!["inicio".to_string(), "ayuda".to_string()], 123);
    assert_eq!(doc, "{\"sub\":\"alice\",\"permissions\":[\"inicio\",\"ayuda\"],\"exp\":123}");
    let empty = claims_json("a", &vec![], 5);
    assert_eq!(empty, "{\"sub\":\"a\",\"permissions\":[],\"exp\":5}");
    // escaping inside the subject
    let escaped = claims_json("a\"b\\c", &vec![], 1);
    assert_eq!(escaped, "{\"sub\":\"a\\\"b\\\\c\",\"permissions\":[],\"exp\":1}");
}

#[test]
fn session_jwt_signs_expected_claims() {
    let user = user_named(Some("alice"));
    let perms = vec!["inicio".to_string()];
    let token = generate_jwt(&user, perms, SECRET, NOW).unwrap();
    let claims = decode_value(&token, SECRET);
    assert_eq!(claims["sub"].as_str(), Some("alice"));
    assert_eq!(claims["exp"].as_u64(), Some(NOW + 86400));
    assert_eq!(claims["permissions"][0].as_str(), Some("inicio"));
    // wrong secret is rejected by an independent decoder
    let key = jsonwebtoken::DecodingKey::from_secret(b"other");
    let validation = jsonwebtoken::Validation::new(jsonwebtoken::Algorithm::HS256);
    assert!(jsonwebtoken::decode::<serde_json::Value>(&token, &key, &validation).is_err());
}

#[test]
fn issuance_fails_without_subject() {
    // no username, and an empty username, issue nothing
    assert!(matches!(
        generate_jwt(&user_named(None), vec![], SECRET, NOW),
        Err(AuthError::TokenIssuanceFailure)
    ));
    assert!(matches!(
        generate_jwt(&user_named(Some("")), vec![], SECRET, NOW),
        Err(AuthError::TokenIssuanceFailure)
    ));
}

#[test]
fn app_jwt_round_trip() {
    let token = generate_app_jwt(SECRET, 42, NOW).unwrap();
    let claims = validate_app_jwt(SECRET, &token).unwrap();
    assert_eq!(claims.sub, "42");
    assert_eq!(claims.iss, "my_rust_backend");
    assert_eq!(claims.usuario_id, 42);
    assert_eq!(claims.exp, (NOW + 86400) as usize);
    assert_eq!(claims.iat, NOW as usize);
    assert!(matches!(
        validate_app_jwt("wrong-secret", &token),
        Err(AuthError::SignatureInvalid)
    ));
}

#[test]
fn app_jwt_negative_id() {
    let token = generate_app_jwt(SECRET, -3, NOW).unwrap();
    let claims = decode_value(&token, SECRET);
    assert_eq!(claims["sub"].as_str(), Some("-3"));
    assert_eq!(claims["usuario_id"].as_i64(), Some(-3));
}

#[test]
fn bearer_extraction() {
    assert_eq!(strip_bearer("Bearer tok.en.x").as_deref(), Some("tok.en.x"));
    assert!(strip_bearer("Basic abc").is_none());
    assert!(strip_bearer("Bearer").is_none());
    assert_eq!(strip_bearer("Bearer ").as_deref(), Some(""));
}

#[test]
fn middleware_session_claims_round_trip() {
    let user = user_named(Some("alice"));
    let perms = vec!["inicio".to_string(), "ayuda".to_string()];
    let token = generate_jwt(&user, perms, SECRET, NOW).unwrap();
    let claims = decode_session_claims(&token, SECRET).unwrap();
    assert_eq!(claims.sub, "alice");
    assert_eq!(claims.permissions, vec!["inicio".to_string(), "ayuda".to_string()]);
    assert_eq!(claims.exp, NOW + 86400);
    assert!(decode_session_claims(&token, "bad").is_none());
}

#[test]
fn session_response_carries_user_and_permissions() {
    let user = User {
        usuario_id: Some(1),
        usuario: "admin".to_string(),
        nombre: "Root".to_string(),
        correo: "root@riycorp.com".to_string(),
    };
    let resp = create_session_response(user, vec!["inicio".to_string()], SECRET, NOW).unwrap();
    assert_eq!(resp.user.usuario, "admin");
    assert_eq!(resp.permissions, vec!["inicio".to_string()]);
    let claims = decode_value(&resp.token, SECRET);
    assert_eq!(claims["sub"].as_str(), Some("admin"));
    // an empty username cannot become a subject
    let anon = User {
        usuario_id: None,
        usuario: String::new(),
        nombre: String::new(),
        correo: String::new(),
    };
    assert!(create_session_response(anon, vec![], SECRET, NOW).is_err());
}
