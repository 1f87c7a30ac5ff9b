use saleor_app::register::RequestRejection;
use saleor_app::{
    complete_registration, registration_keys_url, AplId, AplStore, ExtractRegisterRequest,
    MemoryAplStore, RegisterError, SaleorRegisterRequest, SaleorRegisterResponse,
};

fn request(api_url: &str) -> SaleorRegisterRequest {
    SaleorRegisterRequest {
        auth_token: "app-token".to_string(),
        saleor_domain: "shop.example.com".to_string(),
        saleor_api_url: api_url.to_string(),
    }
}

#[test]
fn keys_url_is_taken_from_the_origin() {
    let url = registration_keys_url(&request("https://shop.example.com/graphql/")).unwrap();
    assert_eq!(url, "https://shop.example.com/.well-known/jwks.json");
    let url = registration_keys_url(&request("http://localhost:8000/graphql/")).unwrap();
    assert_eq!(url, "http://localhost:8000/.well-known/jwks.json");
}

#[test]
fn keys_url_of_a_non_url_fails() {
    assert!(matches!(
        registration_keys_url(&request("not a url")),
        Err(RegisterError::ApiUrlParsingFailed)
    ));
}

#[test]
fn registering_a_non_url_leaves_the_store_unchanged() {
    let mut store = MemoryAplStore::new();
    let r = complete_registration(&mut store, request("not a url"), Some("{}".to_string()));
    assert!(matches!(r, Err(RegisterError::ApiUrlParsingFailed)));
    assert!(store.get(&AplId::from_api_url("not a url")).unwrap().is_none());
}

#[test]
fn registering_without_keys_leaves_the_store_unchanged() {
    let mut store = MemoryAplStore::new();
    let r = complete_registration(&mut store, request("https://shop.example.com/graphql/"), None);
    assert!(matches!(r, Err(RegisterError::KeysNotAvailable)));
    assert!(store
        .get(&AplId::from_api_url("https://shop.example.com/graphql/"))
        .unwrap()
        .is_none());
}

#[test]
fn successful_registration_stores_the_record() {
    let mut store = MemoryAplStore::new();
    let r = complete_registration(
        &mut store,
        request("https://shop.example.com/graphql/"),
        Some("{\"keys\":[]}".to_string()),
    );
    assert!(r.is_ok());
    let found = store
        .get(&AplId::from_api_url("https://shop.example.com/graphql/"))
        .unwrap()
        .unwrap();
    assert_eq!(found.token, "app-token");
    assert_eq!(found.domain.as_deref(), Some("shop.example.com"));
    assert_eq!(found.app_id, "saleor-app");
    assert_eq!(found.jwks.as_deref(), Some("{\"keys\":[]}"));
}

#[test]
fn query_token_is_preferred_over_body_token() {
    let r = ExtractRegisterRequest::from_parts(
        Some("d".to_string()),
        Some("u".to_string()),
        Some("q".to_string()),
        Some("b".to_string()),
    );
    assert_eq!(r.ok().unwrap().0.auth_token, "q");
    let r = ExtractRegisterRequest::from_parts(
        Some("d".to_string()),
        Some("u".to_string()),
        None,
        Some("b".to_string()),
    );
    let e = r.ok().unwrap();
    assert_eq!(e.0.auth_token, "b");
    assert_eq!(e.0.saleor_domain, "d");
    assert_eq!(e.0.saleor_api_url, "u");
}

#[test]
fn incomplete_registration_calls_are_rejected() {
    let r = ExtractRegisterRequest::from_parts(None, Some("u".to_string()), Some("q".to_string()), None);
    assert_eq!(r.err(), Some(RequestRejection::MissingDomain));
    let r = ExtractRegisterRequest::from_parts(Some("d".to_string()), None, Some("q".to_string()), None);
    assert_eq!(r.err(), Some(RequestRejection::MissingApiUrl));
    let r = ExtractRegisterRequest::from_parts(Some("d".to_string()), Some("u".to_string()), None, None);
    assert_eq!(r.err(), Some(RequestRejection::MissingAuthToken));
}

#[test]
fn registration_answers_carry_status_and_code() {
    let (status, body) = SaleorRegisterResponse::success();
    assert_eq!(status, 200);
    assert!(body.success && body.error.is_none());
    let (status, body) = SaleorRegisterResponse::jwks_not_available();
    assert_eq!(status, 401);
    assert_eq!(body.error.unwrap().code, "JWKS_NOT_AVAILABLE");
    let (status, body) = SaleorRegisterResponse::api_url_parsing_failed();
    assert_eq!(status, 400);
    let e = body.error.unwrap();
    assert_eq!(e.code, "API_URL_PARSING_FAILED");
    assert_eq!(e.message, "API URL parsing failed");
    let (status, body) = RegisterError::StorageFailure("disk full".to_string()).response();
    assert_eq!(status, 500);
    assert!(!body.success);
    assert_eq!(body.error.unwrap().message, "disk full");
}

#[test]
fn store_refusal_carries_the_store_message() {
    let r = saleor_app::storage_outcome(Err(saleor_app::StoreError { message: "disk full".to_string() }));
    match r {
        Err(RegisterError::StorageFailure(m)) => assert_eq!(m, "disk full"),
        _ => panic!("expected a storage failure"),
    }
    assert!(saleor_app::storage_outcome(Ok(())).is_ok());
}
