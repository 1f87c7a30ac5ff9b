//! Multi-tenant authentication core of a Saleor app: the tenant credential
//! store, token verification against a tenant's signing keys, the
//! registration handshake and the per-request authorization decisions.

pub mod apl;
pub mod auth;
pub mod jwt;
pub mod middleware;
pub mod permission;
pub mod register;

pub use apl::{AplId, AplStore, AuthData, MemoryAplStore, StoreError, APP_ID};
pub use auth::{KeySource, Rejection, SaleorClientAuthenticationRequest};
pub use jwt::{check_permissions, verify_jwt, VerifyError};
pub use middleware::{SaleorApl, SaleorAplLayer, SaleorAplService, SaleorAuthLayer, SaleorAuthMiddleware};
pub use permission::SaleorPermission;
pub use register::{
    complete_registration, registration_keys_url, storage_outcome, ExtractRegisterRequest,
    RegisterError,
    SaleorRegisterError, SaleorRegisterRequest, SaleorRegisterResponse,
};
