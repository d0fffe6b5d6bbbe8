use gigabot::gigachat::client::TokenCache;
use gigabot::gigachat::types::Token;

fn token(value: &str, expires_at: u64) -> Token {
    Token { access_token: value.to_string(), expires_at }
}

#[test]
fn fresh_token_is_served_unchanged() {
    let cache = TokenCache { token: Some(token("abc", 100)) };
    let served = cache.get_valid(50).expect("a valid token must be served");
    assert_eq!(served.access_token, "abc".to_string());
    assert_eq!(served.expires_at, 100);
}

#[test]
fn token_expiring_now_is_not_served() {
    let cache = TokenCache { token: Some(token("abc", 100)) };
    assert!(cache.get_valid(100).is_none());
}

#[test]
fn expired_token_is_not_served() {
    let cache = TokenCache { token: Some(token("abc", 100)) };
    assert!(cache.get_valid(250).is_none());
}

#[test]
fn empty_cache_serves_nothing() {
    let cache = TokenCache::new();
    assert!(cache.get_valid(0).is_none());
}

#[test]
fn store_replaces_cache_wholesale() {
    let mut cache = TokenCache { token: Some(token("old", 100)) };
    cache.store(token("new", 300));
    let held = cache.token.expect("the cache must hold the fresh token");
    assert_eq!(held.access_token, "new".to_string());
    assert_eq!(held.expires_at, 300);
}

#[test]
fn refresh_cycle_serves_fresh_token() {
    let mut cache = TokenCache { token: Some(token("old", 100)) };
    let now = 200;
    assert!(cache.get_valid(now).is_none());
    cache.store(token("new", 900));
    let served = cache.get_valid(now).expect("the fresh token must be served");
    assert_eq!(served.access_token, "new".to_string());
    assert_eq!(served.expires_at, 900);
}

#[test]
fn duplicate_copies_both_fields() {
    let t = token("abc", 42);
    let d = t.duplicate();
    assert_eq!(d.access_token, t.access_token);
    assert_eq!(d.expires_at, t.expires_at);
}
