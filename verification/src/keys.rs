//! Key material, key algorithms, and the names of the service's keys.

use vstd::prelude::*;

verus! {

/// Signature algorithms offered by the Schnorr endpoint of the
/// key-derivation service.
#[derive(Clone, Copy, Debug, PartialEq, Eq, PartialOrd, Ord, Structural)]
pub enum SchnorrAlgorithm {
    /// BIP-340 Schnorr signatures over secp256k1.
    Bip340Secp256k1,
    /// Ed25519 signatures.
    Ed25519,
}

/// Which of the two key-retrieval flows a request must use.
///
/// The two flows speak structurally different protocols; the engine only
/// selects between them.
#[derive(Clone, Copy, Debug, PartialEq, Eq, Structural)]
pub enum KeyAlgorithm {
    /// ECDSA over secp256k1; the service answers with a 33-byte
    /// SEC1-compressed point.
    Ecdsa,
    /// A Schnorr variant; the service answers with a 32-byte x-only point.
    Schnorr(SchnorrAlgorithm),
}

/// Public key material as returned by the key-derivation service and
/// validated by the engine.
#[derive(Debug, Clone, PartialEq, Eq)]
pub enum PublicKeyMaterial {
    /// A 33-byte SEC1-compressed ECDSA point.
    Compressed(Vec<u8>),
    /// A 32-byte BIP-340 x-only point.
    XOnly(Vec<u8>),
}

/// The named keys the key-derivation service can be asked to use.
#[derive(Clone, Copy, Debug, PartialEq, Eq, Structural)]
pub enum Key {
    /// The local development key.
    Dfx,
    /// The test-network key.
    Test,
    /// The production key.
    Prod,
}

/// The symbolic name under which the service knows each key.
pub open spec fn spec_key_name(key: Key) -> Seq<char> {
    match key {
        Key::Dfx => "dfx_test_key"@,
        Key::Test => "test_key_1"@,
        Key::Prod => "key_1"@,
    }
}

impl Key {
    /// The key's symbolic name, as sent to the key-derivation service.
    pub fn as_str(&self) -> (r: &'static str)
        ensures
            r@ == spec_key_name(*self),
    {
        match self {
            Key::Dfx => "dfx_test_key",
            Key::Test => "test_key_1",
            Key::Prod => "key_1",
        }
    }
}

} // verus!
