//! A secret-backed TOTP vault: a per-owner credential store that derives
//! short numeric codes from a shared secret and the current time window,
//! and gates every read or write of a secret behind a viewing-key token.

pub mod digits;
pub mod hashes;
pub mod laws;
pub mod otp;
pub mod service;
pub mod table;
pub mod vault;
