//! A credential helper that keeps TOTP secrets in the platform credential
//! store and produces the current one-time code on demand.
//!
//! The library holds the verified logic: the TOTP parameters, the secret
//! validation and code generation (through `totp_rs`), and the command
//! decisions, which hand store requests to the caller and turn the store's
//! answers into outcomes.
use vstd::prelude::*;

pub mod command;
pub mod config;
pub mod engine;

verus! {

} // verus!
