use vstd::prelude::*;

use crate::permission::SaleorPermission;
use jsonwebtoken::jwk::{Jwk, JwkSet};
use jsonwebtoken::{Algorithm, DecodingKey};

verus! {

#[verifier::external_type_specification]
#[verifier::external_body]
pub struct ExJwkSet(JwkSet);

#[verifier::external_type_specification]
#[verifier::external_body]
pub struct ExJwk(Jwk);

#[verifier::external_type_specification]
#[verifier::external_body]
pub struct ExDecodingKey(DecodingKey);

#[verifier::external_type_specification]
#[verifier::external_body]
pub struct ExAlgorithm(Algorithm);

#[verifier::external_type_specification]
#[verifier::external_body]
pub struct ExJwtError(jsonwebtoken::errors::Error);

#[verifier::external_type_specification]
#[verifier::external_body]
pub struct ExJsonError(serde_json::Error);

#[verifier::external_type_specification]
#[verifier::external_body]
pub struct ExJsonValue(serde_json::Value);

/// The key ids of the keys in a JSON Web Key Set text, in order, or `None`
/// where the text is no key set.
pub uninterp spec fn jwks_key_ids(text: Seq<char>) -> Option<Seq<Option<Seq<char>>>>;

/// The key ids of the keys that a parsed key set holds, in order.
pub uninterp spec fn jwk_set_key_ids(set: JwkSet) -> Seq<Option<Seq<char>>>;

/// The key id in a token's header, or `None` where the header cannot be read.
pub uninterp spec fn header_key_id(token: Seq<char>) -> Option<Option<Seq<char>>>;

pub open spec fn opt_view(o: Option<String>) -> Option<Seq<char>> {
    match o {
        Some(s) => Some(s@),
        None => None,
    }
}

/// Relies on `serde_json::from_str::<JwkSet>`: it fails exactly on text that
/// is no key set, and the set it returns holds the keys of the text.
#[verifier::external_body]
fn parse_key_set(text: &str) -> (r: Result<JwkSet, serde_json::Error>)
    ensures
        r is Ok <==> jwks_key_ids(text@) is Some,
        r matches Ok(set) ==> jwks_key_ids(text@) == Some(jwk_set_key_ids(set)),
{
    serde_json::from_str::<JwkSet>(text)
}

/// Relies on `JwkSet::find`: it returns a key exactly when some key of the
/// set carries the key id, and the key it returns carries it.
#[verifier::external_body]
fn find_key(set: &JwkSet, kid: &str) -> (r: Option<(Jwk, Option<String>)>)
    ensures
        r is Some <==> jwk_set_key_ids(*set).contains(Some(kid@)),
        r matches Some(found) ==> opt_view(found.1) == Some(kid@),
{
    set.find(kid).map(|jwk| (jwk.clone(), jwk.common.key_id.clone()))
}

/// Relies on `jsonwebtoken::decode_header`: reads the key id and algorithm
/// of a token's header without checking its signature.
#[verifier::external_body]
fn read_header(token: &str) -> (r: Result<(Option<String>, Algorithm), jsonwebtoken::errors::Error>)
    ensures
        r is Ok <==> header_key_id(token@) is Some,
        r matches Ok(h) ==> header_key_id(token@) == Some(opt_view(h.0)),
{
    jsonwebtoken::decode_header(token).map(|h| (h.kid, h.alg))
}

/// Relies on `DecodingKey::from_jwk`: turns a published key into a key that
/// checks signatures.
#[verifier::external_body]
fn decoding_key(jwk: &Jwk) -> (r: Result<DecodingKey, jsonwebtoken::errors::Error>) {
    DecodingKey::from_jwk(jwk)
}

/// The `app` claim and the permission names of the `user_permissions` claim
/// of a token, or `None` where its claims hold no string `app` or no list of
/// strings `user_permissions`.
pub uninterp spec fn token_claims(token: Seq<char>) -> Option<(Seq<char>, Seq<Seq<char>>)>;

/// The views of a list of strings.
pub open spec fn names_of(list: Seq<String>) -> Seq<Seq<char>> {
    list.map_values(|s: String| s@)
}

pub open spec fn claims_view(c: Option<(String, Vec<String>)>) -> Option<(Seq<char>, Seq<Seq<char>>)> {
    match c {
        Some(c) => Some((c.0@, names_of(c.1@))),
        None => None,
    }
}

/// Relies on `jsonwebtoken::decode` with `Validation::new(alg)`, then on
/// `Value::get` and `serde_json::from_value`: checks the signature with the
/// given algorithm only, and the expiry against the clock, then reads the
/// `app` and `user_permissions` claims. Whether decoding succeeds depends on
/// the clock; the claims it reads depend on the token alone.
#[verifier::external_body]
fn decode_claims(token: &str, key: &DecodingKey, alg: Algorithm) -> (r: Result<
    Option<(String, Vec<String>)>,
    jsonwebtoken::errors::Error,
>)
    ensures
        r matches Ok(c) ==> claims_view(c) == token_claims(token@),
{
    let validation = jsonwebtoken::Validation::new(alg);
    jsonwebtoken::decode::<serde_json::Value>(token, key, &validation).map(|data| {
        let app = serde_json::from_value::<String>(data.claims.get("app")?.clone()).ok()?;
        let names = serde_json::from_value::<Vec<String>>(data.claims.get("user_permissions")?.clone());
        Some((app, names.ok()?))
    })
}

/// Why a token was not accepted.
#[derive(Clone, Copy, Debug, PartialEq, Eq, Structural)]
pub enum VerifyError {
    /// The signing keys are not a JSON Web Key Set.
    KeysMalformed,
    /// The token's header cannot be read.
    HeaderMalformed,
    /// The token's header names no key id.
    MissingKeyId,
    /// No key of the set carries the token's key id.
    UnknownKey,
    /// The signature or the temporal claims did not check out.
    SignatureInvalid,
    /// The claims hold no list of permission names.
    ClaimsMalformed,
    /// Permissions are required and the token holds none.
    MissingPermissions,
    /// The first required permission that the token does not hold.
    PermissionDenied(SaleorPermission),
}

/// Whether a list of claimed permission names holds the name of `p`.
pub open spec fn grants(claimed: Seq<Seq<char>>, p: SaleorPermission) -> bool {
    claimed.contains(crate::permission::permission_name(p))
}

/// The first permission of `required`, from position `i` on, that is not
/// claimed.
pub open spec fn first_denied(claimed: Seq<Seq<char>>, required: Seq<SaleorPermission>, i: int) -> Option<
    SaleorPermission,
>
    decreases required.len() - i,
{
    if i < 0 || i >= required.len() {
        None
    } else if !grants(claimed, required[i]) {
        Some(required[i])
    } else {
        first_denied(claimed, required, i + 1)
    }
}

/// What a token with the given claimed permissions earns when `required`
/// must be held.
pub open spec fn permission_outcome(claimed: Seq<Seq<char>>, required: Seq<SaleorPermission>) -> Result<
    (),
    VerifyError,
> {
    if required.len() == 0 {
        Ok(())
    } else if claimed.len() == 0 {
        Err(VerifyError::MissingPermissions)
    } else {
        match first_denied(claimed, required, 0) {
            Some(p) => Err(VerifyError::PermissionDenied(p)),
            None => Ok(()),
        }
    }
}

/// The outcome of the checks that come before the signature: the key set
/// parses, the header names a key id, and the set has a key with that id.
pub open spec fn key_checks(jwks: Seq<char>, token: Seq<char>) -> Option<VerifyError> {
    match jwks_key_ids(jwks) {
        None => Some(VerifyError::KeysMalformed),
        Some(ids) => match header_key_id(token) {
            None => Some(VerifyError::HeaderMalformed),
            Some(None) => Some(VerifyError::MissingKeyId),
            Some(Some(kid)) => if ids.contains(Some(kid)) {
                None
            } else {
                Some(VerifyError::UnknownKey)
            },
        },
    }
}

/// Whether `claimed` holds the name of `p`.
pub fn holds_permission(claimed: &Vec<String>, p: SaleorPermission) -> (r: bool)
    ensures
        r == grants(names_of(claimed@), p),
{
    let wanted = String::from_str(p.name());
    let mut j: usize = 0;
    while j < claimed.len()
        invariant
            j <= claimed@.len(),
            wanted@ == crate::permission::permission_name(p),
            forall|k: int| 0 <= k < j ==> claimed@[k]@ != crate::permission::permission_name(p),
        decreases claimed.len() - j,
    {
        if claimed[j] == wanted {
            assert(names_of(claimed@)[j as int] == crate::permission::permission_name(p));
            return true;
        }
        j += 1;
    }
    assert(!names_of(claimed@).contains(crate::permission::permission_name(p))) by {
        assert forall|k: int| 0 <= k < claimed@.len() implies names_of(claimed@)[k] != crate::permission::permission_name(p) by {
            assert(names_of(claimed@)[k] == claimed@[k]@);
        }
    }
    false
}

/// Decides whether claimed permissions satisfy the required ones: any claims
/// do when nothing is required; otherwise an empty claim list fails with
/// `MissingPermissions`, and the first required permission that is not
/// claimed fails with `PermissionDenied`.
pub fn check_permissions(claimed: &Vec<String>, required: &[SaleorPermission]) -> (r: Result<
    (),
    VerifyError,
>)
    ensures
        r == permission_outcome(names_of(claimed@), required@),
{
    if required.len() == 0 {
        return Ok(());
    }
    if claimed.len() == 0 {
        return Err(VerifyError::MissingPermissions);
    }
    let mut i: usize = 0;
    while i < required.len()
        invariant
            i <= required@.len(),
            required@.len() > 0,
            claimed@.len() > 0,
            first_denied(names_of(claimed@), required@, 0) == first_denied(names_of(claimed@), required@, i as int),
        decreases required.len() - i,
    {
        let p = required[i];
        if !holds_permission(claimed, p) {
            return Err(VerifyError::PermissionDenied(p));
        }
        i += 1;
    }
    Ok(())
}

/// The results that verification may give: the checks before the signature
/// are decided by the key set and the token alone; past them the token fails
/// on its signature or expiry (which depend on the clock), or on claims that
/// cannot be read, or earns what its claimed permissions earn.
pub open spec fn verification_allows(
    jwks: Seq<char>,
    token: Seq<char>,
    required: Seq<SaleorPermission>,
    r: Result<(), VerifyError>,
) -> bool {
    match key_checks(jwks, token) {
        Some(e) => r == Err::<(), VerifyError>(e),
        None => {
            ||| r == Err::<(), VerifyError>(VerifyError::SignatureInvalid)
            ||| match token_claims(token) {
                None => r == Err::<(), VerifyError>(VerifyError::ClaimsMalformed),
                Some(c) => r == permission_outcome(c.1, required),
            }
        },
    }
}

/// Verifies a bearer token against a tenant's signing keys and a set of
/// required permissions, with the algorithm that the token's header names
/// and the key of the set that carries the header's key id.
pub fn verify_jwt(jwks: &str, token: &str, required_permissions: &[SaleorPermission]) -> (r: Result<
    (),
    VerifyError,
>)
    ensures
        verification_allows(jwks@, token@, required_permissions@, r),
{
    let set = match parse_key_set(jwks) {
        Ok(set) => set,
        Err(_) => return Err(VerifyError::KeysMalformed),
    };
    let (kid, alg) = match read_header(token) {
        Ok(h) => h,
        Err(_) => return Err(VerifyError::HeaderMalformed),
    };
    let kid = match kid {
        Some(kid) => kid,
        None => return Err(VerifyError::MissingKeyId),
    };
    let (jwk, _) = match find_key(&set, kid.as_str()) {
        Some(found) => found,
        None => return Err(VerifyError::UnknownKey),
    };
    let key = match decoding_key(&jwk) {
        Ok(key) => key,
        Err(_) => return Err(VerifyError::SignatureInvalid),
    };
    let claims = match decode_claims(token, &key, alg) {
        Ok(claims) => claims,
        Err(_) => return Err(VerifyError::SignatureInvalid),
    };
    match claims {
        Some((_, claimed)) => check_permissions(&claimed, required_permissions),
        None => Err(VerifyError::ClaimsMalformed),
    }
}

/// Where no permission is required, the claimed permissions never decide:
/// a token whose keys, header and signature check out is accepted.
pub proof fn lemma_nothing_required(claimed: Seq<Seq<char>>)
    ensures
        permission_outcome(claimed, Seq::<SaleorPermission>::empty()) == Ok::<(), VerifyError>(()),
{
}

/// A token that claims some permissions but not `p` is denied `p` when `p`
/// is required, however valid its signature.
pub proof fn lemma_unclaimed_permission_denied(claimed: Seq<Seq<char>>, p: SaleorPermission)
    requires
        claimed.len() > 0,
        !grants(claimed, p),
    ensures
        permission_outcome(claimed, seq![p]) == Err::<(), VerifyError>(
            VerifyError::PermissionDenied(p),
        ),
{
    assert(seq![p][0] == p);
}

proof fn lemma_none_denied_from(claimed: Seq<Seq<char>>, required: Seq<SaleorPermission>, i: int)
    requires
        0 <= i,
        first_denied(claimed, required, i) is None,
    ensures
        forall|j: int| i <= j < required.len() ==> grants(claimed, #[trigger] required[j]),
    decreases required.len() - i,
{
    if i < required.len() {
        lemma_none_denied_from(claimed, required, i + 1);
    }
}

/// A token is accepted only where it claims every required permission.
pub proof fn lemma_accepted_holds_required(claimed: Seq<Seq<char>>, required: Seq<SaleorPermission>)
    requires
        permission_outcome(claimed, required) == Ok::<(), VerifyError>(()),
    ensures
        forall|i: int| 0 <= i < required.len() ==> grants(claimed, #[trigger] required[i]),
{
    if required.len() > 0 {
        lemma_none_denied_from(claimed, required, 0);
    }
}

/// With no permission required, a token whose key set, header and key id
/// check out and whose claims can be read is accepted unless its signature
/// or expiry fails; a token whose key id is in no key of the set fails with
/// `UnknownKey`.
pub proof fn lemma_verify_nothing_required(
    jwks: Seq<char>,
    token: Seq<char>,
    r: Result<(), VerifyError>,
)
    requires
        verification_allows(jwks, token, Seq::<SaleorPermission>::empty(), r),
    ensures
        key_checks(jwks, token) is None && token_claims(token) is Some ==> {
            ||| r is Ok
            ||| r == Err::<(), VerifyError>(VerifyError::SignatureInvalid)
        },
        jwks_key_ids(jwks) matches Some(ids) ==> (header_key_id(token) matches Some(Some(kid)) ==> (
        !ids.contains(Some(kid)) ==> r == Err::<(), VerifyError>(VerifyError::UnknownKey))),
{
}

/// A token that claims some permissions but not `p` is never accepted when
/// `p` is required: past the key checks it fails on its signature or is
/// denied `p`.
pub proof fn lemma_verify_denies_unclaimed(
    jwks: Seq<char>,
    token: Seq<char>,
    p: SaleorPermission,
    r: Result<(), VerifyError>,
)
    requires
        verification_allows(jwks, token, seq![p], r),
        key_checks(jwks, token) is None,
        token_claims(token) matches Some(c) && c.1.len() > 0 && !grants(c.1, p),
    ensures
        r == Err::<(), VerifyError>(VerifyError::SignatureInvalid) || r == Err::<(), VerifyError>(
            VerifyError::PermissionDenied(p),
        ),
{
    lemma_unclaimed_permission_denied(token_claims(token).unwrap().1, p);
}

} // verus!
