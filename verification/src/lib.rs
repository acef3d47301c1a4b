//! Core of a user-registration backend: one-time email verification codes
//! (generation, expiry, single-use consumption), credential hashing and
//! verification, input validation, and the two workflows that tie them
//! together (code issuance and registration) against an in-memory system
//! of record.

pub mod code;
pub mod config;
pub mod errors;
pub mod hash;
pub mod registrar;
pub mod store;
pub mod user;
pub mod validate;
pub mod workflow;
