use vstd::prelude::*;

use crate::auth::{verdict_response, Rejection};
use crate::jwt::verify_jwt;
use crate::permission::SaleorPermission;

verus! {

/// The bearer token of an `Authorization` header value: what follows a
/// leading `Bearer `, or the whole value where it has no such prefix.
pub open spec fn strip_bearer(header: Seq<char>) -> Seq<char> {
    if header.len() >= 7 && header.subrange(0, 7) == "Bearer "@ {
        header.subrange(7, header.len() as int)
    } else {
        header
    }
}

/// The token carried by an `Authorization` header value.
pub fn bearer_token(header: &str) -> (r: String)
    ensures
        r@ == strip_bearer(header@),
{
    proof {
        reveal_strlit("Bearer ");
    }
    let n = header.unicode_len();
    if n >= 7 {
        let head = String::from_str(header.substring_char(0, 7));
        if head == String::from_str("Bearer ") {
            return String::from_str(header.substring_char(7, n));
        }
    }
    String::from_str(header)
}

/// Copies a list of permissions.
fn copy_permissions(permissions: &[SaleorPermission]) -> (r: Vec<SaleorPermission>)
    ensures
        r@ == permissions@,
{
    let mut r: Vec<SaleorPermission> = Vec::new();
    let mut i: usize = 0;
    while i < permissions.len()
        invariant
            i <= permissions@.len(),
            r@ == permissions@.subrange(0, i as int),
        decreases permissions.len() - i,
    {
        r.push(permissions[i]);
        i += 1;
        assert(r@ == permissions@.subrange(0, i as int));
    }
    r
}

/// Checks a token against a tenant's key set (`None` where it could not be
/// had) and the required permissions; a failure rejects the request with 401.
pub fn authorize_token(jwks: Option<String>, token: &str, required: &[SaleorPermission]) -> (r: Result<
    (),
    Rejection,
>)
    ensures
        r matches Err(j) ==> j.status == 401,
        jwks is None ==> r is Err,
        jwks matches Some(k) ==> exists|v: Result<(), crate::jwt::VerifyError>|
            #[trigger] crate::jwt::verification_allows(k@, token@, required@, v) && crate::auth::reports(
                v,
                r,
            ),
{
    match jwks {
        None => Err(Rejection { status: 401, message: String::from_str("signing keys not available") }),
        Some(k) => verdict_response(verify_jwt(k.as_str(), token, required)),
    }
}

/// The middleware configuration for a group of routes: the permissions that
/// each request's token must hold.
#[derive(Debug)]
pub struct SaleorAuthLayer {
    pub required_permissions: Vec<SaleorPermission>,
}

impl SaleorAuthLayer {
    pub fn with_permissions(permissions: &[SaleorPermission]) -> (r: Self)
        ensures
            r.required_permissions@ == permissions@,
    {
        SaleorAuthLayer { required_permissions: copy_permissions(permissions) }
    }

    /// Wraps a handler in the middleware.
    pub fn layer<S>(&self, inner: S) -> (r: SaleorAuthMiddleware<S>)
        ensures
            r.inner == inner,
            r.required_permissions@ == self.required_permissions@,
    {
        SaleorAuthMiddleware {
            inner,
            required_permissions: copy_permissions(self.required_permissions.as_slice()),
        }
    }
}

/// A handler behind the authorization middleware.
#[derive(Debug)]
pub struct SaleorAuthMiddleware<S> {
    pub inner: S,
    pub required_permissions: Vec<SaleorPermission>,
}

impl<S> SaleorAuthMiddleware<S> {
    /// Resolves the tenant API URL and the bearer token of a request: each
    /// from its header where present, else from the session. A request with
    /// neither is rejected with 400.
    pub fn resolve_credentials(
        &self,
        header_api_url: Option<String>,
        session_api_url: Option<String>,
        authorization: Option<String>,
        session_token: Option<String>,
    ) -> (r: Result<(String, String), Rejection>)
        ensures
            r matches Err(j) ==> j.status == 400,
            header_api_url is None && session_api_url is None ==> (r matches Err(j) && j.message@
                == "missing api url"@),
            (header_api_url is Some || session_api_url is Some) && authorization is None
                && session_token is None ==> (r matches Err(j) && j.message@ == "missing token"@),
            (header_api_url is Some || session_api_url is Some) && (authorization is Some
                || session_token is Some) ==> r is Ok,
            r matches Ok(c) ==> {
                &&& header_api_url matches Some(h) ==> c.0 == h
                &&& header_api_url is None ==> session_api_url == Some(c.0)
                &&& authorization matches Some(a) ==> c.1@ == strip_bearer(a@)
                &&& authorization is None ==> session_token == Some(c.1)
            },
    {
        let api_url = match header_api_url {
            Some(u) => u,
            None => match session_api_url {
                Some(u) => u,
                None => {
                    return Err(
                        Rejection { status: 400, message: String::from_str("missing api url") },
                    );
                },
            },
        };
        let token = match authorization {
            Some(a) => bearer_token(a.as_str()),
            None => match session_token {
                Some(t) => t,
                None => {
                    return Err(
                        Rejection { status: 400, message: String::from_str("missing token") },
                    );
                },
            },
        };
        Ok((api_url, token))
    }

    /// Decides a request whose token and tenant key set are known: it is
    /// passed on to the wrapped handler where the token verifies with the
    /// configured permissions, and rejected with 401 otherwise.
    pub fn authorize(&self, jwks: Option<String>, token: &str) -> (r: Result<(), Rejection>)
        ensures
            r matches Err(j) ==> j.status == 401,
            jwks is None ==> r is Err,
            jwks matches Some(k) ==> exists|v: Result<(), crate::jwt::VerifyError>|
                #[trigger] crate::jwt::verification_allows(
                    k@,
                    token@,
                    self.required_permissions@,
                    v,
                ) && crate::auth::reports(v, r),
    {
        authorize_token(jwks, token, self.required_permissions.as_slice())
    }
}

/// The store handle that handlers read from the request context.
#[derive(Debug)]
pub struct SaleorApl<T> {
    pub inner: T,
}

impl<T> SaleorApl<T> {
    /// The store behind the handle.
    pub fn store(&self) -> (r: &T)
        ensures
            *r == self.inner,
    {
        &self.inner
    }
}

/// The configuration of the store-injection middleware: the store that
/// every request receives.
#[derive(Debug)]
pub struct SaleorAplLayer<T> {
    pub apl_store: T,
}

impl<T> SaleorAplLayer<T> {
    pub fn new(apl_store: T) -> (r: Self)
        ensures
            r.apl_store == apl_store,
    {
        SaleorAplLayer { apl_store }
    }
}

/// A handler behind the store-injection middleware.
#[derive(Debug)]
pub struct SaleorAplService<S, T> {
    pub inner: S,
    pub apl_store: T,
}

impl<S, T> SaleorAplService<S, T> {
    /// Puts a store handle into a request's context slot, unless the slot
    /// already holds one, which is then left as it is.
    pub fn attach(slot: &mut Option<SaleorApl<T>>, handle: T)
        ensures
            (*old(slot)) is Some ==> *final(slot) == *old(slot),
            (*old(slot)) is None ==> *final(slot) == Some(SaleorApl { inner: handle }),
    {
        if slot.is_none() {
            *slot = Some(SaleorApl { inner: handle });
        }
    }
}

} // verus!
