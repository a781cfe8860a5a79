use irssi_v5::auth::{find_key, Validator};
use irssi_v5::errors::GatewayError;
use irssi_v5::keys::Jwk;

const HEADER_K1: &str = "eyJhbGciOiAiUlMyNTYiLCAidHlwIjogIkpXVCIsICJraWQiOiAiazEifQ";
const PAYLOAD: &str = "eyJlbWFpbCI6ICJhQGIuYyJ9";

fn validator() -> Validator {
    Validator::new("team.example.com", "aud-1", 60_000, &vec!["Alice".to_string(), "bob".to_string()])
}

#[test]
fn validator_settings() {
    let v = validator();
    assert_eq!(v.jwks_url(), "https://team.example.com/cdn-cgi/access/certs");
    assert_eq!(v.cache_ttl_ms(), 60_000);
    assert!(v.is_admin("alice"));
    assert!(v.is_admin("bob"));
    assert!(!v.is_admin("carol"));
}

#[test]
fn identity_from_email() {
    let v = validator();
    let u = v.identity_for("Alice@corp.com");
    assert_eq!(u.username, "alice");
    assert_eq!(u.email, "Alice@corp.com");
    assert!(u.is_admin);
    let w = v.identity_for("Carol.X@corp.com");
    assert_eq!(w.username, "carolx");
    assert!(!w.is_admin);
}

#[test]
fn malformed_token_is_unauthorized() {
    let v = validator();
    let keys = vec![Jwk::new("k1".into(), "AQAB".into(), "AQAB".into())];
    assert_eq!(v.validate_with_keys("not-a-token", &keys).err(), Some(GatewayError::Unauthorized));
    assert_eq!(v.validate_with_keys("", &keys).err(), Some(GatewayError::Unauthorized));
}

#[test]
fn unknown_key_id_is_unauthorized() {
    let v = validator();
    let token = format!("{}.{}.c2ln", HEADER_K1, PAYLOAD);
    let keys = vec![Jwk::new("other".into(), "AQAB".into(), "AQAB".into())];
    assert_eq!(v.validate_with_keys(&token, &keys).err(), Some(GatewayError::Unauthorized));
    assert_eq!(v.validate_with_keys(&token, &vec![]).err(), Some(GatewayError::Unauthorized));
}

#[test]
fn bad_signature_is_unauthorized() {
    let v = validator();
    let token = format!("{}.{}.c2ln", HEADER_K1, PAYLOAD);
    let keys = vec![Jwk::new("k1".into(), "AQAB".into(), "AQAB".into())];
    assert_eq!(v.validate_with_keys(&token, &keys).err(), Some(GatewayError::Unauthorized));
}

#[test]
fn key_lookup_by_id() {
    let keys = vec![
        Jwk::new("a".into(), "n".into(), "e".into()),
        Jwk::new("b".into(), "n".into(), "e".into()),
    ];
    assert_eq!(find_key(&keys, &"b".to_string()), Some(1));
    assert_eq!(find_key(&keys, &"z".to_string()), None);
}

#[test]
fn validator_cache_round_trip() {
    let mut v = validator();
    assert!(v.fresh_keys(0).is_none());
    assert_eq!(v.refresh_keys(None, 0).err(), Some(GatewayError::Unauthorized));
    let keys = v.refresh_keys(Some(vec![Jwk::new("k1".into(), "n".into(), "e".into())]), 10).unwrap();
    assert_eq!(keys.len(), 1);
    assert!(v.fresh_keys(59_999).is_some());
    assert!(v.fresh_keys(60_010).is_none());
    assert_eq!(v.refresh_keys(None, 70_000).unwrap()[0].kid, "k1");
}
