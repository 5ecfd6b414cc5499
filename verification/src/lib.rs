//! Receipt admission for a paid-query indexing service.
//!
//! The crate verifies micropayment receipts: a signature-verification engine
//! that lazily upgrades from a known signer address to a cached public key,
//! and a receipt-admission manager that sequences eligibility checks,
//! signer recovery and storage of accepted receipts.

pub mod config;
pub mod crypto;
pub mod hex;
pub mod receipt;
pub mod signature_verification;
pub mod tap_manager;
pub mod types;
pub mod util;
