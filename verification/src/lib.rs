//! Admission and notarization core of a timestamping service: proof-of-work
//! framing, canonical hashing and signing of the bound record, and the
//! at-most-once rule on content hashes.

pub mod b64;
pub mod config;
pub mod crypto_sign;
pub mod db_conn;
pub mod errors;
pub mod models;
pub mod pow_ratelimit;
pub mod sign_data;
mod text;
