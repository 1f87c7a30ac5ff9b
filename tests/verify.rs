use saleor_app::{check_permissions, verify_jwt, SaleorPermission, VerifyError};

const JWKS: &str = r#"{"keys":[{"kty":"oct","kid":"k1","alg":"HS256","k":"c2VjcmV0"}]}"#;
const GRANTED: &str = r#"{"app":"app-1","user_permissions":["MANAGE_PRODUCTS","MANAGE_ORDERS"],"exp":4102444800}"#;
const NONE_GRANTED: &str = r#"{"app":"app-1","user_permissions":[],"exp":4102444800}"#;

fn token(kid: Option<&str>, secret: &[u8], claims: &str) -> String {
    let mut header = jsonwebtoken::Header::new(jsonwebtoken::Algorithm::HS256);
    header.kid = kid.map(|k| k.to_string());
    let claims: serde_json::Value = serde_json::from_str(claims).unwrap();
    jsonwebtoken::encode(&header, &claims, &jsonwebtoken::EncodingKey::from_secret(secret)).unwrap()
}

#[test]
fn valid_token_without_requirements_is_accepted() {
    let t = token(Some("k1"), b"secret", GRANTED);
    assert_eq!(verify_jwt(JWKS, &t, &[]), Ok(()));
}

#[test]
fn token_with_unknown_kid_fails_unknown_key() {
    let t = token(Some("other"), b"secret", GRANTED);
    assert_eq!(verify_jwt(JWKS, &t, &[]), Err(VerifyError::UnknownKey));
}

#[test]
fn wrongly_signed_token_fails_signature() {
    let t = token(Some("k1"), b"not the secret", GRANTED);
    assert_eq!(verify_jwt(JWKS, &t, &[]), Err(VerifyError::SignatureInvalid));
}

#[test]
fn expired_token_fails_signature() {
    let claims = r#"{"app":"app-1","user_permissions":[],"exp":1000000000}"#;
    let t = token(Some("k1"), b"secret", claims);
    assert_eq!(verify_jwt(JWKS, &t, &[]), Err(VerifyError::SignatureInvalid));
}

#[test]
fn malformed_key_set_is_reported() {
    let t = token(Some("k1"), b"secret", GRANTED);
    assert_eq!(verify_jwt("not json", &t, &[]), Err(VerifyError::KeysMalformed));
}

#[test]
fn unreadable_header_is_reported() {
    assert_eq!(verify_jwt(JWKS, "garbage", &[]), Err(VerifyError::HeaderMalformed));
}

#[test]
fn token_without_kid_is_reported() {
    let t = token(None, b"secret", GRANTED);
    assert_eq!(verify_jwt(JWKS, &t, &[]), Err(VerifyError::MissingKeyId));
}

#[test]
fn claims_without_permission_list_are_reported() {
    let t = token(Some("k1"), b"secret", r#"{"app":"app-1","exp":4102444800}"#);
    assert_eq!(verify_jwt(JWKS, &t, &[]), Err(VerifyError::ClaimsMalformed));
}

#[test]
fn held_permission_is_accepted() {
    let t = token(Some("k1"), b"secret", GRANTED);
    assert_eq!(verify_jwt(JWKS, &t, &[SaleorPermission::ManageProducts]), Ok(()));
}

#[test]
fn unheld_permission_is_denied_despite_valid_signature() {
    let t = token(Some("k1"), b"secret", GRANTED);
    assert_eq!(
        verify_jwt(JWKS, &t, &[SaleorPermission::ManageApps]),
        Err(VerifyError::PermissionDenied(SaleorPermission::ManageApps))
    );
}

#[test]
fn empty_permission_list_fails_when_something_is_required() {
    let t = token(Some("k1"), b"secret", NONE_GRANTED);
    assert_eq!(
        verify_jwt(JWKS, &t, &[SaleorPermission::ManageProducts]),
        Err(VerifyError::MissingPermissions)
    );
    assert_eq!(verify_jwt(JWKS, &t, &[]), Ok(()));
}

#[test]
fn first_missing_permission_is_named() {
    let claimed = vec!["MANAGE_ORDERS".to_string()];
    let required = [
        SaleorPermission::ManageOrders,
        SaleorPermission::ManageStaff,
        SaleorPermission::ManageApps,
    ];
    assert_eq!(
        check_permissions(&claimed, &required),
        Err(VerifyError::PermissionDenied(SaleorPermission::ManageStaff))
    );
    assert_eq!(check_permissions(&claimed, &required[..1]), Ok(()));
    assert_eq!(check_permissions(&vec![], &[]), Ok(()));
}

#[test]
fn permission_names_match_wire_names() {
    assert_eq!(SaleorPermission::ManageProducts.name(), "MANAGE_PRODUCTS");
    assert_eq!(SaleorPermission::HandlePayments.name(), "HANDLE_PAYMENTS");
}

#[test]
fn error_messages_name_the_permission() {
    assert_eq!(
        VerifyError::PermissionDenied(SaleorPermission::ManageProducts).message(),
        "missing required permission MANAGE_PRODUCTS"
    );
    assert_eq!(VerifyError::UnknownKey.message(), "unable to find jwk with the token's kid");
}

#[test]
fn claims_without_app_are_reported() {
    let t = token(Some("k1"), b"secret", r#"{"user_permissions":["MANAGE_PRODUCTS"],"exp":4102444800}"#);
    assert_eq!(verify_jwt(JWKS, &t, &[]), Err(VerifyError::ClaimsMalformed));
}
