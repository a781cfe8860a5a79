use irssi_v5::errors::GatewayError;
use irssi_v5::keys::{Jwk, KeyCache};

fn key(id: &str) -> Jwk {
    Jwk::new(id.to_string(), "n".to_string(), "AQAB".to_string())
}

fn ids(v: &[Jwk]) -> Vec<String> {
    v.iter().map(|k| k.kid.clone()).collect()
}

#[test]
fn failed_refresh_serves_stale_cache() {
    let mut c = KeyCache::new();
    let got = c.refresh(Some(vec![key("a"), key("b")]), 1000).unwrap();
    assert_eq!(ids(&got), vec!["a", "b"]);
    let stale = c.refresh(None, 99_999_999).unwrap();
    assert_eq!(ids(&stale), vec!["a", "b"]);
    assert_eq!(ids(&c.fresh_keys(1500, 1000).unwrap()), vec!["a", "b"]);
}

#[test]
fn failed_refresh_without_cache_fails() {
    let mut c = KeyCache::new();
    assert_eq!(c.refresh(None, 5).err(), Some(GatewayError::Unauthorized));
    assert!(c.fresh_keys(5, 1000).is_none());
}

#[test]
fn fetched_empty_list_replaces_cache() {
    let mut c = KeyCache::new();
    assert_eq!(ids(&c.refresh(Some(vec![]), 5).unwrap()), Vec::<String>::new());
    c.refresh(Some(vec![key("a")]), 10).unwrap();
    assert_eq!(ids(&c.refresh(Some(vec![]), 20).unwrap()), Vec::<String>::new());
    assert_eq!(ids(&c.fresh_keys(30, 1000).unwrap()), Vec::<String>::new());
    assert_eq!(ids(&c.refresh(None, 40).unwrap()), Vec::<String>::new());
}

#[test]
fn cache_expires_after_ttl_and_is_replaced() {
    let mut c = KeyCache::new();
    c.refresh(Some(vec![key("a")]), 1000).unwrap();
    assert!(c.fresh_keys(1999, 1000).is_some());
    assert!(c.fresh_keys(2000, 1000).is_none());
    assert!(c.fresh_keys(500, 1000).is_some());
    c.refresh(Some(vec![key("c")]), 2000).unwrap();
    assert_eq!(ids(&c.fresh_keys(2500, 1000).unwrap()), vec!["c"]);
}
