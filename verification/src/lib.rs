//! Keyed-verification anonymous credentials from algebraic MACs over the
//! ristretto255 group, with the non-interactive zero-knowledge proofs that
//! bind issuance, presentation, and verifiable encryption together.
#![allow(non_snake_case)]

pub mod amacs;
pub mod credential;
pub mod encryption;
pub mod engine;
pub mod errors;
pub mod field;
pub mod group;
pub mod issuance;
pub mod issuer;
pub mod parameters;
pub mod presentation;
pub mod symmetric;
