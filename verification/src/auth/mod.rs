//! Credential-based token issuance, refresh and revocation checks.

pub mod models;
pub mod service;
