use vstd::prelude::*;

use crate::apl::{AplId, AplStore, AuthData, APP_ID};

verus! {

/// The origin (`scheme://host[:port]`) of a URL text, or `None` where the
/// text is no URL.
pub uninterp spec fn url_origin(text: Seq<char>) -> Option<Seq<char>>;

/// Relies on `Url::parse` (reqwest's re-export of `url::Url`) and
/// `Origin::ascii_serialization`: parses the text as a URL and serialises
/// its origin.
#[verifier::external_body]
fn api_origin(text: &str) -> (r: Option<String>)
    ensures
        r is Some <==> url_origin(text@) is Some,
        r matches Some(o) ==> url_origin(text@) == Some(o@),
{
    reqwest::Url::parse(text).ok().map(|u| u.origin().ascii_serialization())
}

/// Where a tenant publishes its signing keys, given the origin of its API.
pub open spec fn jwks_location(origin: Seq<char>) -> Seq<char> {
    origin + "/.well-known/jwks.json"@
}

/// The fields of a registration call from a Saleor instance.
pub struct SaleorRegisterRequest {
    pub auth_token: String,
    pub saleor_domain: String,
    pub saleor_api_url: String,
}

/// Why a registration call could not be read.
#[derive(Clone, Copy, Debug, PartialEq, Eq, Structural)]
pub enum RequestRejection {
    MissingDomain,
    MissingApiUrl,
    MissingAuthToken,
}

/// A registration call read from its headers, its query and its body.
pub struct ExtractRegisterRequest(pub SaleorRegisterRequest);

impl ExtractRegisterRequest {
    /// Assembles a registration request from the domain and API URL headers
    /// and the auth token of the query, or else of the body.
    pub fn from_parts(
        domain: Option<String>,
        api_url: Option<String>,
        query_token: Option<String>,
        body_token: Option<String>,
    ) -> (r: Result<ExtractRegisterRequest, RequestRejection>)
        ensures
            domain is None ==> r == Err::<ExtractRegisterRequest, RequestRejection>(
                RequestRejection::MissingDomain,
            ),
            domain is Some && api_url is None ==> r == Err::<ExtractRegisterRequest, RequestRejection>(
                RequestRejection::MissingApiUrl,
            ),
            domain is Some && api_url is Some && query_token is None && body_token is None ==> r
                == Err::<ExtractRegisterRequest, RequestRejection>(
                RequestRejection::MissingAuthToken,
            ),
            r matches Ok(e) ==> {
                &&& domain == Some(e.0.saleor_domain)
                &&& api_url == Some(e.0.saleor_api_url)
                &&& if query_token is Some {
                    query_token == Some(e.0.auth_token)
                } else {
                    body_token == Some(e.0.auth_token)
                }
            },
            domain is Some && api_url is Some && (query_token is Some || body_token is Some) ==> r is Ok,
    {
        let saleor_domain = match domain {
            Some(d) => d,
            None => return Err(RequestRejection::MissingDomain),
        };
        let saleor_api_url = match api_url {
            Some(u) => u,
            None => return Err(RequestRejection::MissingApiUrl),
        };
        let auth_token = match query_token {
            Some(t) => t,
            None => match body_token {
                Some(t) => t,
                None => return Err(RequestRejection::MissingAuthToken),
            },
        };
        Ok(ExtractRegisterRequest(SaleorRegisterRequest { auth_token, saleor_domain, saleor_api_url }))
    }
}

/// Why a registration failed.
#[derive(Debug)]
pub enum RegisterError {
    /// The tenant's API URL is no URL.
    ApiUrlParsingFailed,
    /// The tenant's signing keys could not be fetched.
    KeysNotAvailable,
    /// The store refused the record; the message says why.
    StorageFailure(String),
}

/// The address of a registering tenant's signing keys: the origin of its
/// API URL followed by `/.well-known/jwks.json`.
pub fn registration_keys_url(request: &SaleorRegisterRequest) -> (r: Result<String, RegisterError>)
    ensures
        url_origin(request.saleor_api_url@) is None <==> r is Err,
        r matches Err(e) ==> e is ApiUrlParsingFailed,
        r matches Ok(u) ==> url_origin(request.saleor_api_url@) == Some(
            u@.subrange(0, u@.len() - 22),
        ) && u@ == jwks_location(u@.subrange(0, u@.len() - 22)),
{
    match api_origin(request.saleor_api_url.as_str()) {
        Some(origin) => {
            let mut url = origin;
            url.append("/.well-known/jwks.json");
            proof {
                reveal_strlit("/.well-known/jwks.json");
                assert(url@.subrange(0, url@.len() - 22) == origin@);
            }
            Ok(url)
        },
        None => Err(RegisterError::ApiUrlParsingFailed),
    }
}

/// The outcome of a registration from the store's answer to its write: a
/// refusal becomes `StorageFailure` with the store's message.
pub fn storage_outcome(written: Result<(), crate::apl::StoreError>) -> (r: Result<(), RegisterError>)
    ensures
        written is Ok <==> r is Ok,
        written matches Err(e) ==> (r matches Err(RegisterError::StorageFailure(m)) && m == e.message),
{
    match written {
        Ok(()) => Ok(()),
        Err(e) => Err(RegisterError::StorageFailure(e.message)),
    }
}

/// `record` is what a registration of `request` with the fetched key set
/// `jwks` stores.
pub open spec fn is_registered_record(
    record: AuthData,
    request: SaleorRegisterRequest,
    jwks: Seq<char>,
) -> bool {
    &&& record.domain matches Some(d) && d@ == request.saleor_domain@
    &&& record.token@ == request.auth_token@
    &&& record.saleor_api_url@ == request.saleor_api_url@
    &&& record.app_id@ == APP_ID@
    &&& record.jwks matches Some(k) && k@ == jwks
}

/// Completes a registration once the key set has been fetched (`None` where
/// the fetch failed). A URL that does not parse fails with
/// `ApiUrlParsingFailed` and a failed fetch with `KeysNotAvailable`, both
/// without touching the store; otherwise the record is stored under the
/// tenant id of this app and the API URL, and a refusal of the store is
/// reported as `StorageFailure`.
pub fn complete_registration<S: AplStore>(
    store: &mut S,
    request: SaleorRegisterRequest,
    fetched: Option<String>,
) -> (r: Result<(), RegisterError>)
    requires
        old(store).well_formed(),
    ensures
        final(store).well_formed(),
        url_origin(request.saleor_api_url@) is None ==> r matches Err(
            RegisterError::ApiUrlParsingFailed,
        ),
        url_origin(request.saleor_api_url@) is Some && fetched is None ==> r matches Err(
            RegisterError::KeysNotAvailable,
        ),
        r is Err ==> final(store).records() == old(store).records(),
        url_origin(request.saleor_api_url@) is Some && fetched is Some && r is Err ==> r matches Err(
            RegisterError::StorageFailure(_),
        ),
        old(store).infallible() && url_origin(request.saleor_api_url@) is Some && fetched is Some
            ==> r is Ok,
        r is Ok ==> url_origin(request.saleor_api_url@) is Some,
        r is Ok ==> fetched is Some && exists|record: AuthData|
            final(store).records() == old(store).records().insert(
                crate::apl::tenant_id(APP_ID@, request.saleor_api_url@),
                record,
            ) && #[trigger] is_registered_record(record, request, fetched.unwrap()@),
{
    if api_origin(request.saleor_api_url.as_str()).is_none() {
        return Err(RegisterError::ApiUrlParsingFailed);
    }
    let jwks = match fetched {
        Some(jwks) => jwks,
        None => return Err(RegisterError::KeysNotAvailable),
    };
    let ghost req = request;
    let ghost keys = jwks@;
    let auth_data = AuthData {
        domain: Some(request.saleor_domain),
        token: request.auth_token,
        saleor_api_url: request.saleor_api_url,
        app_id: String::from_str(APP_ID),
        jwks: Some(jwks),
    };
    assert(is_registered_record(auth_data, req, keys));
    let id = AplId::from_auth_data(&auth_data);
    storage_outcome(store.set(&id, auth_data))
}

/// The error part of a registration answer.
#[derive(Debug)]
pub struct SaleorRegisterError {
    pub code: String,
    pub message: String,
}

/// The answer to a registration call, with the HTTP status it goes out with.
#[derive(Debug)]
pub struct SaleorRegisterResponse {
    pub success: bool,
    pub error: Option<SaleorRegisterError>,
}

/// `r` is a failed registration answer with this status, code and message.
pub open spec fn is_failure(
    r: (u16, SaleorRegisterResponse),
    status: u16,
    code: Seq<char>,
    message: Seq<char>,
) -> bool {
    &&& r.0 == status
    &&& !r.1.success
    &&& r.1.error matches Some(e) && e.code@ == code && e.message@ == message
}

impl SaleorRegisterResponse {
    pub fn success() -> (r: (u16, SaleorRegisterResponse))
        ensures
            r.0 == 200,
            r.1.success,
            r.1.error is None,
    {
        (200, SaleorRegisterResponse { success: true, error: None })
    }

    pub fn jwks_not_available() -> (r: (u16, SaleorRegisterResponse))
        ensures
            is_failure(r, 401, "JWKS_NOT_AVAILABLE"@, "JWKS not available"@),
    {
        SaleorRegisterResponse::custom("JWKS_NOT_AVAILABLE", "JWKS not available", 401)
    }

    pub fn api_url_parsing_failed() -> (r: (u16, SaleorRegisterResponse))
        ensures
            is_failure(r, 400, "API_URL_PARSING_FAILED"@, "API URL parsing failed"@),
    {
        SaleorRegisterResponse::custom("API_URL_PARSING_FAILED", "API URL parsing failed", 400)
    }

    pub fn custom(code: &str, message: &str, status_code: u16) -> (r: (u16, SaleorRegisterResponse))
        ensures
            is_failure(r, status_code, code@, message@),
    {
        (
            status_code,
            SaleorRegisterResponse {
                success: false,
                error: Some(
                    SaleorRegisterError {
                        code: String::from_str(code),
                        message: String::from_str(message),
                    },
                ),
            },
        )
    }
}

impl RegisterError {
    /// The answer that reports this failure: 400 for a bad URL, 401 for
    /// unavailable keys, 500 with the store's message for a storage failure.
    pub fn response(&self) -> (r: (u16, SaleorRegisterResponse))
        ensures
            *self is ApiUrlParsingFailed ==> is_failure(
                r,
                400,
                "API_URL_PARSING_FAILED"@,
                "API URL parsing failed"@,
            ),
            *self is KeysNotAvailable ==> is_failure(r, 401, "JWKS_NOT_AVAILABLE"@, "JWKS not available"@),
            *self matches RegisterError::StorageFailure(m) ==> is_failure(
                r,
                500,
                "STORAGE_FAILURE"@,
                m@,
            ),
    {
        match self {
            RegisterError::ApiUrlParsingFailed => SaleorRegisterResponse::api_url_parsing_failed(),
            RegisterError::KeysNotAvailable => SaleorRegisterResponse::jwks_not_available(),
            RegisterError::StorageFailure(m) => SaleorRegisterResponse::custom(
                "STORAGE_FAILURE",
                m.as_str(),
                500,
            ),
        }
    }
}

} // verus!
