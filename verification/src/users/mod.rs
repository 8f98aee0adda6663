//! User records and the registration service.

pub mod models;
pub mod service;
