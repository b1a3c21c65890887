//! Derivation of Bitcoin addresses from public keys held by a remote
//! key-derivation service.
//!
//! The engine maps a network, an address type and a derivation path to a
//! canonical address string.  Key retrieval itself is a remote call and is
//! performed by the caller; this crate decides which key algorithm is
//! required, validates the returned key material, builds the embedded
//! redeem script where one is needed, and encodes the address.

pub mod crypto;
pub mod encoder;
pub mod engine;
pub mod errors;
pub mod keys;
pub mod network;
pub mod script;
