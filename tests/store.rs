use saleor_app::{AplId, AplStore, AuthData, MemoryAplStore};

fn record(api_url: &str, token: &str) -> AuthData {
    AuthData {
        domain: Some("shop.example.com".to_string()),
        token: token.to_string(),
        saleor_api_url: api_url.to_string(),
        app_id: "saleor-app".to_string(),
        jwks: None,
    }
}

#[test]
fn tenant_id_joins_app_id_and_api_url() {
    let id = AplId::from_api_url("https://shop.example.com/graphql/");
    assert_eq!(id.as_str(), "saleor-app:https://shop.example.com/graphql/");
    let from_record = AplId::from_auth_data(&record("https://shop.example.com/graphql/", "t"));
    assert_eq!(from_record, id);
}

#[test]
fn get_after_set_returns_record() {
    let mut store = MemoryAplStore::new();
    let id = AplId::from_api_url("https://a.example.com/graphql/");
    assert!(store.get(&id).unwrap().is_none());
    store.set(&id, record("https://a.example.com/graphql/", "t1")).unwrap();
    let found = store.get(&id).unwrap().unwrap();
    assert_eq!(found.token, "t1");
    assert_eq!(found.saleor_api_url, "https://a.example.com/graphql/");
}

#[test]
fn get_after_remove_returns_nothing() {
    let mut store = MemoryAplStore::new();
    let id = AplId::from_api_url("https://a.example.com/graphql/");
    store.set(&id, record("https://a.example.com/graphql/", "t1")).unwrap();
    store.remove(&id).unwrap();
    assert!(store.get(&id).unwrap().is_none());
    store.remove(&id).unwrap();
    assert!(store.get(&id).unwrap().is_none());
}

#[test]
fn last_write_wins() {
    let mut store = MemoryAplStore::new();
    let id = AplId::from_api_url("https://a.example.com/graphql/");
    store.set(&id, record("https://a.example.com/graphql/", "t1")).unwrap();
    store.set(&id, record("https://a.example.com/graphql/", "t2")).unwrap();
    assert_eq!(store.get(&id).unwrap().unwrap().token, "t2");
}

#[test]
fn distinct_tenants_keep_their_own_records() {
    let mut store = MemoryAplStore::new();
    let a = AplId::from_api_url("https://a.example.com/graphql/");
    let b = AplId::from_api_url("https://b.example.com/graphql/");
    store.set(&a, record("https://a.example.com/graphql/", "ta")).unwrap();
    store.set(&b, record("https://b.example.com/graphql/", "tb")).unwrap();
    assert_eq!(store.get(&a).unwrap().unwrap().token, "ta");
    assert_eq!(store.get(&b).unwrap().unwrap().token, "tb");
    store.remove(&a).unwrap();
    assert!(store.get(&a).unwrap().is_none());
    assert_eq!(store.get(&b).unwrap().unwrap().token, "tb");
}
