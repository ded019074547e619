use spot_remote::credential::{make_credential, Credential, CredentialCache, EXPIRY_MARGIN_MS};

#[test]
fn make_credential_expiry_is_exact() {
    let c = make_credential("tok".to_owned(), 1_000, 60_000);
    assert_eq!(c.access_token, "tok");
    assert_eq!(c.expires_at_ms, 61_000);
    assert_eq!(c.expires_in_ms, 60_000);
}

#[test]
fn fresh_credential_is_returned_identically_twice() {
    let mut cache = CredentialCache::new();
    cache.store(Some(make_credential("tok".to_owned(), 1_000, 60_000)));

    let first = cache.lookup(2_000).expect("credential should be fresh");
    let second = cache.lookup(2_500).expect("credential should still be fresh");
    assert_eq!(first.access_token, second.access_token);
    assert_eq!(first.expires_at_ms, second.expires_at_ms);
    assert_eq!(first.expires_in_ms, second.expires_in_ms);
    assert_eq!(first.access_token, "tok");
}

#[test]
fn empty_cache_owes_a_refresh() {
    let cache = CredentialCache::new();
    assert!(cache.lookup(0).is_none());
}

#[test]
fn expired_credential_owes_a_refresh() {
    let mut cache = CredentialCache::new();
    cache.store(Some(make_credential("tok".to_owned(), 0, 60_000)));
    assert!(cache.lookup(60_000).is_none());
    assert!(cache.lookup(120_000).is_none());
}

#[test]
fn expiry_margin_is_respected() {
    let mut cache = CredentialCache::new();
    cache.store(Some(make_credential("tok".to_owned(), 0, 60_000)));
    // Within the margin of the stated expiry the credential already counts
    // as expired.
    assert!(cache.lookup(60_000 - EXPIRY_MARGIN_MS).is_none());
    assert!(cache.lookup(60_000 - EXPIRY_MARGIN_MS - 1).is_some());
}

#[test]
fn failed_refresh_keeps_previous_value() {
    let mut cache = CredentialCache::new();
    cache.store(Some(make_credential("tok".to_owned(), 0, 60_000)));
    cache.store(None);
    let kept = cache.lookup(1_000).expect("previous credential should remain");
    assert_eq!(kept.access_token, "tok");
}

#[test]
fn successful_refresh_wins_over_previous_value() {
    let mut cache = CredentialCache::new();
    cache.store(Some(make_credential("old".to_owned(), 0, 60_000)));
    cache.store(Some(make_credential("new".to_owned(), 10_000, 60_000)));
    let got = cache.lookup(11_000).expect("refreshed credential should be cached");
    assert_eq!(got.access_token, "new");
    assert_eq!(got.expires_at_ms, 70_000);
}

#[test]
fn duplicate_copies_every_field() {
    let c = Credential { access_token: "t".to_owned(), expires_at_ms: 5, expires_in_ms: 3 };
    let d = c.duplicate();
    assert_eq!(d.access_token, "t");
    assert_eq!(d.expires_at_ms, 5);
    assert_eq!(d.expires_in_ms, 3);
}
