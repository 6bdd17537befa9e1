use spotti::{AuthUnavailable, CredentialStore, GlobalAuth, MaybeAuth, TokenPair};

fn pair(access: &str, refresh: &str) -> TokenPair {
    TokenPair { access_token: String::from(access), refresh_token: String::from(refresh) }
}

#[test]
fn a_new_store_is_empty() {
    let store = CredentialStore::new();
    assert_eq!(store.read(), None);
    assert!(!store.is_claimed());
}

#[test]
fn the_first_claim_wins() {
    let mut store = CredentialStore::new();
    assert!(store.claim_if_empty(pair("a1", "r1")));
    assert!(store.is_claimed());
    assert_eq!(store.read(), Some(GlobalAuth(pair("a1", "r1"))));
}

#[test]
fn later_claims_change_nothing() {
    let mut store = CredentialStore::new();
    assert!(store.claim_if_empty(pair("a1", "r1")));
    assert!(!store.claim_if_empty(pair("a2", "r2")));
    assert!(!store.claim_if_empty(pair("a1", "r1")));
    assert_eq!(store.read(), Some(GlobalAuth(pair("a1", "r1"))));
}

#[test]
fn exactly_one_of_many_claims_succeeds_in_every_order() {
    let names = ["a", "b", "c", "d"];
    for first in 0..names.len() {
        let mut order: Vec<&str> = Vec::new();
        for k in 0..names.len() {
            order.push(names[(first + k) % names.len()]);
        }
        let mut store = CredentialStore::new();
        let mut winners: Vec<&str> = Vec::new();
        for name in &order {
            if store.claim_if_empty(pair(name, "r")) {
                winners.push(name);
            }
        }
        assert_eq!(winners, vec![order[0]]);
        assert_eq!(store.read(), Some(GlobalAuth(pair(order[0], "r"))));
    }
}

#[test]
fn a_snapshot_is_a_copy() {
    let mut store = CredentialStore::new();
    store.claim_if_empty(pair("a1", "r1"));
    let before = store.read();
    let fresh = MaybeAuth { access_token: String::from("a2"), refresh_token: None };
    assert_eq!(store.update(fresh), Ok(()));
    assert_eq!(before, Some(GlobalAuth(pair("a1", "r1"))));
    assert_eq!(store.read(), Some(GlobalAuth(pair("a2", "r1"))));
}

#[test]
fn an_update_without_a_refresh_token_keeps_the_old_one() {
    let mut store = CredentialStore::new();
    store.claim_if_empty(pair("a1", "r1"));
    let fresh = MaybeAuth { access_token: String::from("a2"), refresh_token: None };
    assert_eq!(store.update(fresh), Ok(()));
    assert_eq!(store.read(), Some(GlobalAuth(pair("a2", "r1"))));
}

#[test]
fn an_update_with_a_refresh_token_replaces_both() {
    let mut store = CredentialStore::new();
    store.claim_if_empty(pair("a1", "r1"));
    let fresh =
        MaybeAuth { access_token: String::from("a2"), refresh_token: Some(String::from("r2")) };
    assert_eq!(store.update(fresh), Ok(()));
    assert_eq!(store.read(), Some(GlobalAuth(pair("a2", "r2"))));
}

#[test]
fn an_update_of_an_empty_store_fails_and_leaves_it_empty() {
    let mut store = CredentialStore::new();
    let fresh =
        MaybeAuth { access_token: String::from("a2"), refresh_token: Some(String::from("r2")) };
    assert_eq!(store.update(fresh), Err(AuthUnavailable));
    assert_eq!(store.read(), None);
    assert!(store.claim_if_empty(pair("a3", "r3")));
}

#[test]
fn a_claim_after_an_update_still_fails() {
    let mut store = CredentialStore::new();
    store.claim_if_empty(pair("a1", "r1"));
    let fresh = MaybeAuth { access_token: String::from("a2"), refresh_token: None };
    store.update(fresh).unwrap();
    assert!(!store.claim_if_empty(pair("a9", "r9")));
    assert_eq!(store.read(), Some(GlobalAuth(pair("a2", "r1"))));
}
