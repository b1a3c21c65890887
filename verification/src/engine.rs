//! The address derivation engine.
//!
//! The engine's remote step — obtaining the public key — is performed by
//! the caller: the engine plans the key request, and turns the service's
//! response into the final address.  Both halves are pure decisions and
//! are fully specified here.

use vstd::prelude::*;

use crate::crypto;
use crate::encoder;
use crate::encoder::AddressType;
use crate::errors::{AddressError, EncodingError, KeyRetrievalError};
use crate::keys::{KeyAlgorithm, PublicKeyMaterial, SchnorrAlgorithm};
use crate::network::Network;
use crate::script;

verus! {

/// One planned request to the key-derivation service.
pub struct KeyRequest {
    /// Which of the two retrieval flows to use.
    pub algorithm: KeyAlgorithm,
    /// The caller's derivation path, forwarded verbatim.
    pub derivation_path: Vec<Vec<u8>>,
}

/// The key algorithm an address type requires: the BIP-340 Schnorr flow
/// for Taproot, the ECDSA flow for every other type.
pub open spec fn spec_required_algorithm(address_type: AddressType) -> KeyAlgorithm {
    if address_type is Taproot {
        KeyAlgorithm::Schnorr(SchnorrAlgorithm::Bip340Secp256k1)
    } else {
        KeyAlgorithm::Ecdsa
    }
}

/// Whether the engine accepts these bytes as key material for this
/// address type.
pub open spec fn spec_key_accepted(address_type: AddressType, key: Seq<u8>) -> bool {
    if address_type is Taproot {
        key.len() == 32 && crypto::spec_xonly_point_ok(key)
    } else {
        key.len() == 33 && crypto::spec_sec1_point_ok(key)
    }
}

/// The address the engine encodes for accepted key bytes: the two
/// script-hash types embed the redeem script built from the same key.
pub open spec fn spec_engine_address(
    network: Network,
    address_type: AddressType,
    key: Seq<u8>,
) -> Seq<char> {
    match address_type {
        AddressType::LegacyHash => encoder::spec_p2pkh_addr(network, key),
        AddressType::LegacyScriptHash => encoder::spec_p2sh_addr(
            network,
            script::spec_p2pkh_script(key),
        ),
        AddressType::SegwitV0Key => encoder::spec_p2wpkh_addr(network, key),
        AddressType::SegwitV0Script => encoder::spec_p2wsh_addr(
            network,
            script::spec_p2pkh_script(key),
        ),
        AddressType::Taproot => encoder::spec_p2tr_addr(network, key),
    }
}

/// The key algorithm an address type requires.
pub fn required_algorithm(address_type: AddressType) -> (r: KeyAlgorithm)
    ensures
        r == spec_required_algorithm(address_type),
{
    if matches!(address_type, AddressType::Taproot) {
        KeyAlgorithm::Schnorr(SchnorrAlgorithm::Bip340Secp256k1)
    } else {
        KeyAlgorithm::Ecdsa
    }
}

/// The derivation path bound to a caller identity: the identity as the
/// single path component, or the empty path when the caller opted out
/// of identity binding.  All opted-out callers therefore share one
/// address per network and address type; that sharing is deliberate.
pub fn derivation_path_from_identity(identity: Option<Vec<u8>>) -> (r: Vec<Vec<u8>>)
    ensures
        identity matches Some(id) ==> r@.len() == 1 && r@[0] == id,
        identity is None ==> r@.len() == 0,
{
    match identity {
        Some(id) => {
            let mut path: Vec<Vec<u8>> = Vec::new();
            path.push(id);
            path
        },
        None => Vec::new(),
    }
}

/// Plans the key request for an address type: selects the retrieval
/// flow and forwards the derivation path unchanged, byte for byte and
/// in order.
pub fn plan_key_request(address_type: AddressType, derivation_path: Vec<Vec<u8>>) -> (r: KeyRequest)
    ensures
        r.algorithm == spec_required_algorithm(address_type),
        r.derivation_path == derivation_path,
{
    KeyRequest { algorithm: required_algorithm(address_type), derivation_path }
}

/// Turns the key service's raw response into validated key material.
///
/// A service failure is passed through with its message unchanged; a
/// successful response is accepted exactly when its bytes parse as a
/// key of the requested kind.
pub fn parse_key_response(algorithm: KeyAlgorithm, response: Result<Vec<u8>, String>) -> (r: Result<
    PublicKeyMaterial,
    KeyRetrievalError,
>)
    ensures
        response matches Err(m) ==> r matches Err(KeyRetrievalError::Service(s)) && s@ == m@,
        response matches Ok(b) ==> match algorithm {
            KeyAlgorithm::Ecdsa => if b@.len() == 33 && crypto::spec_sec1_point_ok(b@) {
                r matches Ok(PublicKeyMaterial::Compressed(c)) && c@ == b@
            } else {
                r == Err::<PublicKeyMaterial, KeyRetrievalError>(KeyRetrievalError::MalformedKey)
            },
            KeyAlgorithm::Schnorr(_) => if b@.len() == 32 && crypto::spec_xonly_point_ok(b@) {
                r matches Ok(PublicKeyMaterial::XOnly(x)) && x@ == b@
            } else {
                r == Err::<PublicKeyMaterial, KeyRetrievalError>(KeyRetrievalError::MalformedKey)
            },
        },
{
    match response {
        Err(message) => Err(KeyRetrievalError::Service(message)),
        Ok(bytes) => match algorithm {
            KeyAlgorithm::Ecdsa => {
                if bytes.len() == 33 && crypto::sec1_point_ok(&bytes) {
                    Ok(PublicKeyMaterial::Compressed(bytes))
                } else {
                    Err(KeyRetrievalError::MalformedKey)
                }
            },
            KeyAlgorithm::Schnorr(_) => {
                if bytes.len() == 32 && crypto::xonly_point_ok(&bytes) {
                    Ok(PublicKeyMaterial::XOnly(bytes))
                } else {
                    Err(KeyRetrievalError::MalformedKey)
                }
            },
        },
    }
}

/// Generates the address of the requested type from the key service's
/// response for the planned request.
///
/// A service failure, or key material of the wrong shape, surfaces as
/// an error and never as an address; accepted key material is encoded
/// to exactly the address that `spec_engine_address` states.
pub fn generate_address(
    network: Network,
    address_type: AddressType,
    key_response: Result<Vec<u8>, String>,
) -> (r: Result<String, AddressError>)
    ensures
        key_response matches Err(m) ==> r matches Err(AddressError::KeyRetrieval(
            KeyRetrievalError::Service(s),
        )) && s@ == m@,
        key_response matches Ok(b) ==> if spec_key_accepted(address_type, b@) {
            if address_type is Taproot && !(crypto::spec_tap_tweak(b@) is Some) {
                r == Err::<String, AddressError>(
                    AddressError::Encoding(EncodingError::InvalidKey),
                )
            } else {
                r matches Ok(a) && a@ == spec_engine_address(network, address_type, b@)
            }
        } else {
            r == Err::<String, AddressError>(
                AddressError::KeyRetrieval(KeyRetrievalError::MalformedKey),
            )
        },
{
    let algorithm = required_algorithm(address_type);
    let key = match parse_key_response(algorithm, key_response) {
        Ok(key) => key,
        Err(e) => {
            return Err(AddressError::KeyRetrieval(e));
        },
    };
    if encoder::needs_script(address_type) {
        let key_bytes = match &key {
            PublicKeyMaterial::Compressed(b) => b,
            PublicKeyMaterial::XOnly(b) => b,
        };
        let redeem_script = match script::build_p2pkh_script(key_bytes) {
            Ok(s) => s,
            Err(e) => {
                return Err(AddressError::ScriptBuild(e));
            },
        };
        match encoder::encode(address_type, network, &key, Some(&redeem_script)) {
            Ok(address) => Ok(address),
            Err(e) => Err(AddressError::Encoding(e)),
        }
    } else {
        match encoder::encode(address_type, network, &key, None) {
            Ok(address) => Ok(address),
            Err(e) => Err(AddressError::Encoding(e)),
        }
    }
}

/// Law: address generation is deterministic — two requests with the
/// same network, address type and key bytes are answered with the same
/// address.
pub proof fn lemma_engine_deterministic(
    network1: Network,
    address_type1: AddressType,
    key1: Seq<u8>,
    network2: Network,
    address_type2: AddressType,
    key2: Seq<u8>,
)
    requires
        network1 == network2,
        address_type1 == address_type2,
        key1 == key2,
    ensures
        spec_engine_address(network1, address_type1, key1) == spec_engine_address(
            network2,
            address_type2,
            key2,
        ),
{
}

} // verus!
