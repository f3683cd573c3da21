//! Core of a small OAuth2-style authorization server: password policy,
//! credential hashing, authorize-request validation, the session cache with
//! its expiry sweep, and the account-creation and login decisions.

pub mod account;
pub mod authorize;
pub mod config;
pub mod crypto;
pub mod http;
pub mod policy;
pub mod session;

pub use account::{
    CreateAccountRequest, CreatePlan, LoginOutcome, LoginRequestBody, User, credentials_accepted, open_login_session,
    open_login_session_at, persist_plan, process_login, process_login_at,
};
pub use authorize::{validate, validate_keys};
pub use config::{ConfigHandler, EmailConfig};
pub use crypto::{CredentialError, hash_password, verify_password};
pub use http::{
    Method, Reply, Route, authorize_reply, create_account_status, login_status, payload_too_large_reply, route,
    MAX_BODY_BYTES, STATUS_BAD_REQUEST, STATUS_INTERNAL_SERVER_ERROR, STATUS_NOT_FOUND, STATUS_OK,
    STATUS_PAYLOAD_TOO_LARGE,
};
pub use policy::{PasswordRequirements, password_valid};
pub use session::{CleanupTick, Session, SessionCache, SessionRecord, SESSION_TTL_MILLIS};
