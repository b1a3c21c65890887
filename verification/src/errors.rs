//! Error taxonomy of the address derivation engine.
//!
//! Every failure is terminal for its request: nothing is retried and no
//! partially formed address is ever returned.

use vstd::prelude::*;

verus! {

/// The key-derivation service failed or returned unusable key material.
#[derive(Debug, Clone, PartialEq, Eq)]
pub enum KeyRetrievalError {
    /// The service itself reported a failure; the payload is the
    /// service's own message, passed through unchanged.
    Service(String),
    /// The service answered, but the bytes are not a valid public key
    /// of the kind the engine asked for.
    MalformedKey,
}

/// A precondition of the address encoder was violated.
///
/// These indicate a programming error in the caller of the encoder; the
/// encoder fails closed rather than produce a malformed address.
#[derive(Clone, Copy, Debug, PartialEq, Eq, Structural)]
pub enum EncodingError {
    /// The key variant does not fit the address type: only Taproot takes
    /// an x-only key, and the four other types take a compressed key.
    KeyVariantMismatch,
    /// The key bytes have the wrong length for their variant.
    BadKeyLength,
    /// A redeem script was supplied where none belongs, or is missing
    /// where the address type embeds one.
    ScriptMismatch,
    /// The x-only key bytes do not encode a valid point, so the output
    /// key tweak cannot be computed.
    InvalidKey,
}

/// The script builder was handed key material of the wrong shape.
#[derive(Clone, Copy, Debug, PartialEq, Eq, Structural)]
pub enum ScriptBuildError {
    /// A compressed public key must be exactly 33 bytes.
    BadKeyLength,
}

/// Any failure of a single address-generation request.
#[derive(Debug, Clone, PartialEq, Eq)]
pub enum AddressError {
    /// Obtaining the public key failed.
    KeyRetrieval(KeyRetrievalError),
    /// Encoding the address failed.
    Encoding(EncodingError),
    /// Building the embedded redeem script failed.
    ScriptBuild(ScriptBuildError),
}

} // verus!
