//! Authorization-code issuance and redemption for an OAuth2-style server:
//! request validation, one-time codes held in a TTL store, client and user
//! credential checks, session handling and access-token issuance.

pub mod error;
pub mod store;
pub mod hashing;
pub mod secrets;
pub mod authorize;
pub mod token;
pub mod session;
pub mod registration;
pub mod request;
pub mod redact;
pub mod laws;
