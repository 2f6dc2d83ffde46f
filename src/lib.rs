//! A small credential service: registration with salted password hashes and
//! login that issues a signed, time-bounded session token.
pub mod error;
pub mod laws;
pub mod password;
pub mod service;
pub mod store;
pub mod token;
