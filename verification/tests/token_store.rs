use prgnome::token_store::{TokenStore, MAX_TTL};

#[test]
fn it_stores_and_retrieves_tokens() {
    let now = 1_000;
    let mut store = TokenStore::new();
    store.add_token(12, String::from("foobar"), now);
    assert_eq!(store.get_token(12, now), Some(String::from("foobar")));
    assert_eq!(store.get_token(12, now), Some(String::from("foobar")));
    assert_eq!(store.get_token(55, now), None);
}

#[test]
fn it_does_not_retrieve_old_tokens() {
    let issued = 1_000;
    let mut store = TokenStore::new();
    store.add_token(12, String::from("foobar"), issued);
    assert_eq!(store.get_token(12, issued + MAX_TTL + 1), None);
}

#[test]
fn it_expires_tokens_exactly_at_the_ttl() {
    let issued = 1_000;
    let mut store = TokenStore::new();
    store.add_token(12, String::from("foobar"), issued);
    assert_eq!(
        store.get_token(12, issued + MAX_TTL - 1),
        Some(String::from("foobar"))
    );
    assert_eq!(store.get_token(12, issued + MAX_TTL), None);
}

#[test]
fn it_replaces_tokens_on_refresh() {
    let mut store = TokenStore::new();
    store.add_token(12, String::from("old"), 0);
    store.add_token(12, String::from("new"), MAX_TTL + 5);
    assert_eq!(store.get_token(12, MAX_TTL + 6), Some(String::from("new")));
}
