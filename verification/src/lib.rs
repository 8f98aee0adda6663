//! Authentication and authorization core: credential checks, signed
//! time-bounded identity tokens, per-request identity resolution and
//! role-grant derivation.
//!
//! - [`security`]: the credential verifier (bcrypt) and the token codec
//!   (HS256 tokens that are valid for eight hours).
//! - [`store`]: the identity store, with unique emails and usernames.
//! - [`auth`]: login, refresh and the revocation check.
//! - [`users`]: user records and registration.
//! - [`authenticator`]: from a request's token to its identity and grants.
//! - [`grants`]: role grants and the access rule.
//! - [`http`]: the status a transport answers with.
//! - [`laws`]: what holds across operations.
//!
//! Contracts speak of the mathematical value of each type (its view) and of
//! three named results of outside calls: [`security::bcrypt_verdict`],
//! [`security::jwt_signed`] and [`security::jwt_payload`]. What is assumed
//! of those calls is stated where they are made, in [`security`].

pub mod auth;
pub mod authenticator;
pub mod environment;
pub mod errors;
pub mod grants;
pub mod http;
pub mod laws;
pub mod security;
pub mod store;
pub mod users;
