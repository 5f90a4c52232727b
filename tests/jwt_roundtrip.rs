use gcdserver::auth::jwt::{Claims, JwtManager};
use jsonwebtoken::{decode, encode, Header, Validation};
use serde_json::Value;

fn as_json(claims: &Claims) -> Value {
    let mut doc = serde_json::Map::new();
    doc.insert("sub".to_string(), Value::String(claims.sub.clone()));
    doc.insert("email".to_string(), Value::String(claims.email.clone()));
    doc.insert(
        "scopes".to_string(),
        Value::Array(claims.scopes.iter().map(|s| Value::String(s.clone())).collect()),
    );
    doc.insert("exp".to_string(), Value::from(claims.exp));
    doc.insert("iat".to_string(), Value::from(claims.iat));
    doc.insert("jti".to_string(), Value::String(claims.jti.clone()));
    doc.insert("provider".to_string(), Value::String(claims.provider.clone()));
    Value::Object(doc)
}

#[test]
fn test_token_generation_and_verification() {
    let jwt_manager = JwtManager::new("test_secret", 1);

    let claims = jwt_manager
        .prepare_claims("user123", "user@example.com", vec!["read".to_string()], "test_provider")
        .expect("Failed to generate token");
    let token = encode(&Header::default(), &as_json(&claims), jwt_manager.encoding_key())
        .expect("Failed to generate token");
    let token_response = jwt_manager.token_response(token).expect("Failed to generate token");

    let claims = decode::<Value>(&token_response.access_token, jwt_manager.decoding_key(), &Validation::default())
        .expect("Failed to verify token")
        .claims;

    assert_eq!(claims["sub"], "user123");
    assert_eq!(claims["email"], "user@example.com");
    assert!(claims["scopes"].as_array().unwrap().contains(&Value::String("read".to_string())));
}

#[test]
fn token_signed_with_another_secret_is_refused() {
    let signer = JwtManager::new("test_secret", 1);
    let checker = JwtManager::new("other_secret", 1);
    let claims = signer.prepare_claims("user123", "user@example.com", vec![], "test_provider").unwrap();
    let token = encode(&Header::default(), &as_json(&claims), signer.encoding_key()).unwrap();
    assert!(decode::<Value>(&token, checker.decoding_key(), &Validation::default()).is_err());
}
