use vstd::prelude::*;

use crate::apl::{AplId, AplStore, AuthData, StoreError, APP_ID};
use crate::jwt::VerifyError;
use crate::middleware::authorize_token;
use crate::permission::SaleorPermission;

verus! {

/// A request is turned away with this status and message.
#[derive(Debug)]
pub struct Rejection {
    pub status: u16,
    pub message: String,
}

/// The text of a verification failure, as a rejected request carries it.
pub open spec fn verify_message(e: VerifyError) -> Seq<char> {
    match e {
        VerifyError::KeysMalformed => "unable to deserialize jwks"@,
        VerifyError::HeaderMalformed => "unable to decode jwt header"@,
        VerifyError::MissingKeyId => "missing kid in jwt header"@,
        VerifyError::UnknownKey => "unable to find jwk with the token's kid"@,
        VerifyError::SignatureInvalid => "unable to decode jwt"@,
        VerifyError::ClaimsMalformed => "unable to read user permissions"@,
        VerifyError::MissingPermissions => "missing user permissions"@,
        VerifyError::PermissionDenied(p) => "missing required permission "@ + crate::permission::permission_name(p),
    }
}

impl VerifyError {
    /// A short description of the failure.
    pub fn message(&self) -> (r: String)
        ensures
            r@ == verify_message(*self),
    {
        match self {
            VerifyError::KeysMalformed => String::from_str("unable to deserialize jwks"),
            VerifyError::HeaderMalformed => String::from_str("unable to decode jwt header"),
            VerifyError::MissingKeyId => String::from_str("missing kid in jwt header"),
            VerifyError::UnknownKey => String::from_str("unable to find jwk with the token's kid"),
            VerifyError::SignatureInvalid => String::from_str("unable to decode jwt"),
            VerifyError::ClaimsMalformed => String::from_str("unable to read user permissions"),
            VerifyError::MissingPermissions => String::from_str("missing user permissions"),
            VerifyError::PermissionDenied(p) => {
                let mut m = String::from_str("missing required permission ");
                m.append(p.name());
                m
            },
        }
    }
}

/// `r` reports the verification result `v`: the request goes on where `v`
/// is `Ok`, and is rejected with 401 and the reason otherwise.
pub open spec fn reports(v: Result<(), VerifyError>, r: Result<(), Rejection>) -> bool {
    &&& (v is Ok <==> r is Ok)
    &&& v matches Err(e) ==> (r matches Err(j) && j.status == 401 && j.message@ == verify_message(e))
}

/// What a request earns from the verification of its token.
pub fn verdict_response(verdict: Result<(), VerifyError>) -> (r: Result<(), Rejection>)
    ensures
        reports(verdict, r),
{
    match verdict {
        Ok(()) => Ok(()),
        Err(e) => Err(Rejection { status: 401, message: e.message() }),
    }
}

/// Where the signing keys of a tenant come from.
#[derive(Debug)]
pub enum KeySource {
    /// The key set cached in the tenant's record.
    Cached(String),
    /// No key set is cached: fetch it from this address.
    Fetch(String),
}

/// The address under which a tenant API publishes its keys.
pub open spec fn api_jwks_location(api_url: Seq<char>) -> Seq<char> {
    api_url + "/.well-known/jwks.json"@
}

/// The key set cached in a tenant's record, if there is a record.
pub open spec fn cached_keys(found: Option<AuthData>) -> Option<String> {
    match found {
        Some(d) => d.jwks,
        None => None,
    }
}

/// Picks the key set of a tenant: the one cached in its record, where the
/// record has one, else the published one. A failed store read rejects the
/// request with 500.
pub fn key_source(record: Result<Option<AuthData>, StoreError>, api_url: &str) -> (r: Result<
    KeySource,
    Rejection,
>)
    ensures
        record is Err <==> r is Err,
        r matches Err(j) ==> j.status == 500,
        r matches Ok(KeySource::Cached(k)) ==> (record matches Ok(found) && cached_keys(found)
            == Some(k)),
        r matches Ok(KeySource::Fetch(u)) ==> (record matches Ok(found) && cached_keys(found) is None
            && u@ == api_jwks_location(api_url@)),
{
    match record {
        Err(e) => Err(Rejection { status: 500, message: e.message }),
        Ok(Some(AuthData { jwks: Some(k), .. })) => Ok(KeySource::Cached(k)),
        Ok(_) => {
            let mut u = String::from_str(api_url);
            u.append("/.well-known/jwks.json");
            Ok(KeySource::Fetch(u))
        },
    }
}

/// Looks up the key set of the tenant with the given API URL in a store.
pub fn tenant_key_source<T: AplStore>(store: &T, api_url: &str) -> (r: Result<KeySource, Rejection>)
    requires
        store.well_formed(),
    ensures
        r matches Err(j) ==> j.status == 500,
        r matches Ok(KeySource::Cached(k)) ==> cached_keys(
            crate::apl::lookup(store.records(), crate::apl::tenant_id(APP_ID@, api_url@)),
        ) == Some(k),
        r matches Ok(KeySource::Fetch(u)) ==> (cached_keys(
            crate::apl::lookup(store.records(), crate::apl::tenant_id(APP_ID@, api_url@)),
        ) is None && u@ == api_jwks_location(api_url@)),
{
    let id = AplId::from_api_url(api_url);
    key_source(store.get(&id), api_url)
}

/// A browser client's request to open a session with a tenant token.
#[derive(Debug)]
pub struct SaleorClientAuthenticationRequest {
    pub api_url: String,
    pub token: String,
}

impl SaleorClientAuthenticationRequest {
    /// Checks the token against the tenant's key set (`None` where it could
    /// not be had), with no permission required; a failure is answered with
    /// 401 and opens no session.
    pub fn check_token(&self, jwks: Option<String>) -> (r: Result<(), Rejection>)
        ensures
            r matches Err(j) ==> j.status == 401,
            jwks is None ==> r is Err,
            jwks matches Some(k) ==> exists|v: Result<(), VerifyError>|
                #[trigger] crate::jwt::verification_allows(
                    k@,
                    self.token@,
                    Seq::<SaleorPermission>::empty(),
                    v,
                ) && reports(v, r) && !(v matches Err(VerifyError::MissingPermissions)) && !(v matches Err(
                    VerifyError::PermissionDenied(_),
                )),
    {
        let none: Vec<SaleorPermission> = Vec::new();
        let r = authorize_token(jwks, self.token.as_str(), none.as_slice());
        proof {
            if jwks is Some {
                let k = jwks.unwrap();
                let v = choose|v: Result<(), VerifyError>|
                    #[trigger] crate::jwt::verification_allows(k@, self.token@, none@, v) && reports(v, r);
                assert(crate::jwt::verification_allows(k@, self.token@, Seq::<SaleorPermission>::empty(), v));
            }
        }
        r
    }

    /// Judges the identity-confirmation call made with the token: `Ok(true)`
    /// where the tenant answered with data, `Ok(false)` where it answered
    /// without, `Err` with the transport's message where the call failed.
    /// Only a confirmed identity opens a session; the rest is answered 500.
    pub fn confirm_identity(confirmation: Result<bool, String>) -> (r: Result<(), Rejection>)
        ensures
            r is Ok <==> confirmation == Ok::<bool, String>(true),
            r matches Err(j) ==> j.status == 500,
            confirmation matches Err(m) ==> (r matches Err(j) && j.message == m),
            confirmation == Ok::<bool, String>(false) ==> (r matches Err(j) && j.message@
                == "no data in response"@),
    {
        match confirmation {
            Ok(true) => Ok(()),
            Ok(false) => Err(
                Rejection { status: 500, message: String::from_str("no data in response") },
            ),
            Err(m) => Err(Rejection { status: 500, message: m }),
        }
    }
}

} // verus!
