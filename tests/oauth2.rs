use gcdserver::auth::oauth2::{
    token_response_from_fields, DiscoveryOutcome, KeycloakConfig, KeycloakProvider, RealmAccess, UserInfo,
};
use gcdserver::errors::ApiError;

fn config() -> KeycloakConfig {
    KeycloakConfig {
        issuer_url: "https://keycloak.example.com/auth/realms/master".to_string(),
        client_id: "test-client".to_string(),
        client_secret: "test-secret".to_string(),
        redirect_uri: "http://localhost:8080/auth/callback".to_string(),
    }
}

fn internal_message(e: ApiError) -> String {
    match e {
        ApiError::InternalError(m) => m,
        _ => panic!("expected an internal error"),
    }
}

#[test]
fn test_keycloak_config() {
    let config = KeycloakConfig {
        issuer_url: "https://keycloak.example.com/auth/realms/master".to_string(),
        client_id: "test-client".to_string(),
        client_secret: "test-secret".to_string(),
        redirect_uri: "http://localhost:8080/auth/callback".to_string(),
    };

    assert!(!config.issuer_url.is_empty());
    assert!(!config.client_id.is_empty());
}

#[test]
fn settings_default_when_absent() {
    let c = KeycloakConfig::from_settings(None, Some("mine".to_string()), None, None);
    assert_eq!(c.issuer_url, "http://localhost:8080/auth/realms/master");
    assert_eq!(c.client_id, "mine");
    assert_eq!(c.client_secret, "change-me-in-production");
    assert_eq!(c.redirect_uri, "http://localhost:8080/auth/callback");
}

#[test]
fn discovery_decides_the_provider() {
    assert_eq!(internal_message(KeycloakProvider::new(config(), DiscoveryOutcome::Unreachable).err().unwrap()), "Keycloak unreachable");
    assert_eq!(internal_message(KeycloakProvider::new(config(), DiscoveryOutcome::Status(404)).err().unwrap()), "Keycloak discovery failed");
    assert_eq!(internal_message(KeycloakProvider::new(config(), DiscoveryOutcome::Status(199)).err().unwrap()), "Keycloak discovery failed");
    assert!(KeycloakProvider::new(config(), DiscoveryOutcome::Status(200)).is_ok());
    let p = KeycloakProvider::new(config(), DiscoveryOutcome::Status(299)).ok().unwrap();
    assert_eq!(p.config().client_id, "test-client");
}

#[test]
fn authorization_url_encodes_its_parameters() {
    let p = KeycloakProvider::new(config(), DiscoveryOutcome::Status(200)).ok().unwrap();
    assert_eq!(
        p.authorization_url("some-state"),
        "https://keycloak.example.com/auth/realms/master/protocol/openid-connect/auth?client_id=test-client&redirect_uri=http%3A%2F%2Flocalhost%3A8080%2Fauth%2Fcallback&response_type=code&scope=openid%20email%20profile"
    );
}

#[test]
fn authorization_url_encodes_non_ascii_bytes() {
    let mut c = config();
    c.client_id = "é~x".to_string();
    c.redirect_uri = "a b".to_string();
    let p = KeycloakProvider::new(c, DiscoveryOutcome::Status(200)).ok().unwrap();
    assert_eq!(
        p.authorization_url(""),
        "https://keycloak.example.com/auth/realms/master/protocol/openid-connect/auth?client_id=%C3%A9~x&redirect_uri=a%20b&response_type=code&scope=openid%20email%20profile"
    );
}

#[test]
fn endpoint_urls_extend_the_issuer() {
    let c = config();
    assert_eq!(c.discovery_url(), "https://keycloak.example.com/auth/realms/master/.well-known/openid-configuration");
    let p = KeycloakProvider::new(c, DiscoveryOutcome::Status(204)).ok().unwrap();
    assert_eq!(p.token_url(), "https://keycloak.example.com/auth/realms/master/protocol/openid-connect/token");
    assert_eq!(p.userinfo_url(), "https://keycloak.example.com/auth/realms/master/protocol/openid-connect/userinfo");
}

#[test]
fn token_request_form_lists_the_grant() {
    let p = KeycloakProvider::new(config(), DiscoveryOutcome::Status(200)).ok().unwrap();
    let form = p.token_request_form("abc");
    let expected: Vec<(String, String)> = [
        ("grant_type", "authorization_code"),
        ("code", "abc"),
        ("client_id", "test-client"),
        ("client_secret", "test-secret"),
        ("redirect_uri", "http://localhost:8080/auth/callback"),
    ]
    .iter()
    .map(|(k, v)| (k.to_string(), v.to_string()))
    .collect();
    assert_eq!(form, expected);
}

#[test]
fn token_answer_needs_an_access_token() {
    let e = token_response_from_fields(None, Some(10), None).err().unwrap();
    assert_eq!(internal_message(e), "Missing access_token");
}

#[test]
fn token_answer_defaults_lifetime_to_an_hour() {
    let t = token_response_from_fields(Some("tok".to_string()), None, Some("ref".to_string())).ok().unwrap();
    assert_eq!(t.access_token, "tok");
    assert_eq!(t.token_type, "Bearer");
    assert_eq!(t.expires_in, 3600);
    assert_eq!(t.refresh_token, Some("ref".to_string()));
    let t = token_response_from_fields(Some("tok".to_string()), Some(60), None).ok().unwrap();
    assert_eq!(t.expires_in, 60);
    assert_eq!(t.refresh_token, None);
}

#[test]
fn user_roles_come_from_realm_access() {
    let with = UserInfo {
        sub: "u".to_string(),
        email: "u@example.com".to_string(),
        name: None,
        preferred_username: None,
        realm_access: Some(RealmAccess { roles: vec!["admin".to_string(), "reader".to_string()] }),
    };
    assert_eq!(with.into_roles(), vec!["admin".to_string(), "reader".to_string()]);
    let without = UserInfo {
        sub: "u".to_string(),
        email: "u@example.com".to_string(),
        name: Some("U".to_string()),
        preferred_username: Some("u".to_string()),
        realm_access: None,
    };
    assert!(without.into_roles().is_empty());
}
