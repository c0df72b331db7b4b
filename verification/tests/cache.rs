use gcloud_wasm::cache::{cache_key, fits, TokenCache, CachedToken};
use gcloud_wasm::token::Token;

const SEC: u64 = 1_000_000_000;

fn s(v: &str) -> String {
    v.to_string()
}

fn token(access: &str, expires_in: u64) -> Token {
    Token { access_token: s(access), token_type: s("Bearer"), expires_in }
}

#[test]
fn cache_key_sorts_and_joins_with_spaces() {
    let key = cache_key(&[s("https://b"), s("https://a"), s("https://c")]);
    assert_eq!(key, "https://a https://b https://c");
}

#[test]
fn cache_key_of_no_scopes_is_empty() {
    assert_eq!(cache_key(&[]), "");
}

#[test]
fn cache_key_ignores_order_of_scopes() {
    let a = cache_key(&[s("x"), s("y"), s("x")]);
    let b = cache_key(&[s("y"), s("x"), s("x")]);
    assert_eq!(a, b);
    assert_eq!(a, "x x y");
}

#[test]
fn cache_key_orders_by_code_point() {
    assert_eq!(cache_key(&[s("b"), s("B"), s("é"), s("ab"), s("a")]), "B a ab b é");
}

#[test]
fn get_on_empty_cache_is_none() {
    let cache = TokenCache::new();
    assert!(cache.get(&[s("scope")], 0).is_none());
}

#[test]
fn get_after_put_returns_the_token_until_margin() {
    let mut cache = TokenCache::new();
    let t = token("tok", 3600);
    cache.put(&[s("a"), s("b")], &t, 10 * SEC);
    let got = cache.get(&[s("b"), s("a")], 10 * SEC).unwrap();
    assert_eq!(got.access_token, "tok");
    assert_eq!(got.token_type, "Bearer");
    assert_eq!(got.expires_in, 3600);
    // 3540 seconds of use: valid until just before 10 + 3540 seconds.
    assert!(cache.get(&[s("a"), s("b")], 10 * SEC + 3540 * SEC - 1).is_some());
    assert!(cache.get(&[s("a"), s("b")], 10 * SEC + 3540 * SEC).is_none());
}

#[test]
fn short_lived_token_is_never_served() {
    let mut cache = TokenCache::new();
    cache.put(&[s("a")], &token("tok", 60), 5);
    assert!(cache.get(&[s("a")], 5).is_none());
    cache.put(&[s("b")], &token("tok", 30), 5);
    assert!(cache.get(&[s("b")], 5).is_none());
}

#[test]
fn earlier_clock_reading_counts_as_no_time_passed() {
    let mut cache = TokenCache::new();
    cache.put(&[s("a")], &token("tok", 120), 100 * SEC);
    assert!(cache.get(&[s("a")], 0).is_some());
}

#[test]
fn put_replaces_the_token_for_the_same_scopes() {
    let mut cache = TokenCache::new();
    cache.put(&[s("a")], &token("first", 3600), 0);
    cache.put(&[s("a")], &token("second", 3600), SEC);
    assert_eq!(cache.get(&[s("a")], SEC).unwrap().access_token, "second");
}

#[test]
fn put_keeps_other_scopes_and_drops_expired() {
    let mut cache = TokenCache::new();
    cache.put(&[s("long")], &token("long", 3600), 0);
    cache.put(&[s("short")], &token("short", 120), 0);
    cache.put(&[s("new")], &token("new", 3600), 100 * SEC);
    assert_eq!(cache.get(&[s("long")], 100 * SEC).unwrap().access_token, "long");
    assert!(cache.get(&[s("short")], 0).is_none());
    assert_eq!(cache.get(&[s("new")], 100 * SEC).unwrap().access_token, "new");
}

#[test]
fn cached_token_validity() {
    let c = CachedToken { token: token("t", 61), acquired_at: 0, expires_in_secs: 61 };
    assert!(c.is_valid(SEC - 1));
    assert!(!c.is_valid(SEC));
}

#[test]
fn lifetimes_that_fit_in_nanoseconds() {
    assert!(fits(0));
    assert!(fits(60 + u64::MAX / SEC));
    assert!(!fits(61 + u64::MAX / SEC));
    assert!(!fits(u64::MAX));
}

#[test]
fn cache_reports_lifetimes_too_long_to_check() {
    let mut cache = TokenCache::new();
    assert!(cache.all_fit());
    assert!(cache.key_fits(&[s("a")]));
    cache.put(&[s("a")], &token("t", u64::MAX), 0);
    assert!(!cache.key_fits(&[s("a")]));
    assert!(cache.key_fits(&[s("b")]));
    assert!(!cache.all_fit());
}
