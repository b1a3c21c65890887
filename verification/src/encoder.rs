//! The address encoder: one entry point over the five encodings.

use vstd::prelude::*;

use crate::crypto;
use crate::errors::EncodingError;
use crate::keys::PublicKeyMaterial;
use crate::network::{spec_hrp, spec_p2pkh_version, spec_p2sh_version, Network};

verus! {

/// The five supported address encodings.
#[derive(Clone, Copy, Debug, PartialEq, Eq, Structural)]
pub enum AddressType {
    /// Legacy checksummed-base58 pay-to-public-key-hash.
    LegacyHash,
    /// Legacy checksummed-base58 pay-to-script-hash.
    LegacyScriptHash,
    /// Segwit version-0 pay-to-witness-public-key-hash.
    SegwitV0Key,
    /// Segwit version-0 pay-to-witness-script-hash.
    SegwitV0Script,
    /// Segwit version-1 Taproot, key-path-only spend.
    Taproot,
}

/// Whether this address type embeds a redeem script.
pub open spec fn spec_needs_script(address_type: AddressType) -> bool {
    address_type is LegacyScriptHash || address_type is SegwitV0Script
}

/// The key variant each address type takes: an x-only key for Taproot,
/// a compressed key for the four other types.
pub open spec fn spec_key_variant_fits(address_type: AddressType, key: PublicKeyMaterial) -> bool {
    (address_type is Taproot) == (key is XOnly)
}

/// The raw bytes of either key variant.
pub open spec fn spec_key_bytes(key: PublicKeyMaterial) -> Seq<u8> {
    match key {
        PublicKeyMaterial::Compressed(b) => b@,
        PublicKeyMaterial::XOnly(b) => b@,
    }
}

/// Whether the key bytes have the exact length of their variant:
/// 33 bytes compressed, 32 bytes x-only.
pub open spec fn spec_key_len_ok(key: PublicKeyMaterial) -> bool {
    match key {
        PublicKeyMaterial::Compressed(b) => b@.len() == 33,
        PublicKeyMaterial::XOnly(b) => b@.len() == 32,
    }
}

/// The legacy pay-to-public-key-hash address of a compressed key.
pub open spec fn spec_p2pkh_addr(network: Network, key: Seq<u8>) -> Seq<char> {
    crypto::spec_base58check(seq![spec_p2pkh_version(network)] + crypto::spec_hash160(key))
}

/// The legacy pay-to-script-hash address of a redeem script.
pub open spec fn spec_p2sh_addr(network: Network, script: Seq<u8>) -> Seq<char> {
    crypto::spec_base58check(seq![spec_p2sh_version(network)] + crypto::spec_hash160(script))
}

/// The version-0 witness address of a compressed key's 20-byte digest.
pub open spec fn spec_p2wpkh_addr(network: Network, key: Seq<u8>) -> Seq<char> {
    crypto::spec_segwit_addr(spec_hrp(network), 0, crypto::spec_hash160(key))
}

/// The version-0 witness address of a redeem script's 32-byte digest.
pub open spec fn spec_p2wsh_addr(network: Network, script: Seq<u8>) -> Seq<char> {
    crypto::spec_segwit_addr(spec_hrp(network), 0, crypto::spec_sha256(script))
}

/// The version-1 witness address of the BIP-341 output key of an x-only
/// internal key.
pub open spec fn spec_p2tr_addr(network: Network, key: Seq<u8>) -> Seq<char> {
    crypto::spec_segwit_addr(spec_hrp(network), 1, crypto::spec_tap_tweak(key).unwrap())
}

/// Whether this address type embeds a redeem script.
pub fn needs_script(address_type: AddressType) -> (r: bool)
    ensures
        r == spec_needs_script(address_type),
{
    matches!(address_type, AddressType::LegacyScriptHash | AddressType::SegwitV0Script)
}

/// Prefixes the payload with a version byte and renders it in
/// checksummed base58.
fn encode_base58(version: u8, digest: Vec<u8>) -> (r: String)
    ensures
        r@ == crypto::spec_base58check(seq![version] + digest@),
{
    let mut payload: Vec<u8> = Vec::new();
    payload.push(version);
    let mut rest = digest;
    payload.append(&mut rest);
    crypto::base58check(&payload)
}

/// Encodes an address of the requested type.
///
/// Fails closed on every violation of the encoder's precondition table:
/// the key variant must fit the address type, the key bytes must have
/// their variant's length, and a redeem script must be supplied exactly
/// for the two script-hash types.  A Taproot key whose bytes do not
/// parse as a point, or whose tweak cannot be applied, is likewise
/// rejected rather than coerced.
pub fn encode(
    address_type: AddressType,
    network: Network,
    key: &PublicKeyMaterial,
    script: Option<&Vec<u8>>,
) -> (r: Result<String, EncodingError>)
    ensures
        !spec_key_variant_fits(address_type, *key) ==> r == Err::<String, EncodingError>(
            EncodingError::KeyVariantMismatch,
        ),
        spec_key_variant_fits(address_type, *key) && !spec_key_len_ok(*key) ==> r
            == Err::<String, EncodingError>(EncodingError::BadKeyLength),
        spec_key_variant_fits(address_type, *key) && spec_key_len_ok(*key) && ((
        script is Some) != spec_needs_script(address_type)) ==> r == Err::<String, EncodingError>(
            EncodingError::ScriptMismatch,
        ),
        spec_key_variant_fits(address_type, *key) && spec_key_len_ok(*key) && ((
        script is Some) == spec_needs_script(address_type)) ==> match address_type {
            AddressType::LegacyHash => r matches Ok(a) && a@ == spec_p2pkh_addr(
                network,
                spec_key_bytes(*key),
            ),
            AddressType::LegacyScriptHash => r matches Ok(a) && a@ == spec_p2sh_addr(
                network,
                script.unwrap()@,
            ),
            AddressType::SegwitV0Key => r matches Ok(a) && a@ == spec_p2wpkh_addr(
                network,
                spec_key_bytes(*key),
            ),
            AddressType::SegwitV0Script => r matches Ok(a) && a@ == spec_p2wsh_addr(
                network,
                script.unwrap()@,
            ),
            AddressType::Taproot => if crypto::spec_xonly_point_ok(spec_key_bytes(*key))
                && crypto::spec_tap_tweak(spec_key_bytes(*key)) is Some {
                r matches Ok(a) && a@ == spec_p2tr_addr(network, spec_key_bytes(*key))
            } else {
                r == Err::<String, EncodingError>(EncodingError::InvalidKey)
            },
        },
{
    let is_taproot = matches!(address_type, AddressType::Taproot);
    let is_xonly = matches!(key, PublicKeyMaterial::XOnly(_));
    if is_taproot != is_xonly {
        return Err(EncodingError::KeyVariantMismatch);
    }
    let len_ok = match key {
        PublicKeyMaterial::Compressed(b) => b.len() == 33,
        PublicKeyMaterial::XOnly(b) => b.len() == 32,
    };
    if !len_ok {
        return Err(EncodingError::BadKeyLength);
    }
    if script.is_some() != needs_script(address_type) {
        return Err(EncodingError::ScriptMismatch);
    }
    proof {
        assert(spec_hrp(network) == "bc"@ || spec_hrp(network) == "tb"@ || spec_hrp(network)
            == "bcrt"@);
    }
    match address_type {
        AddressType::LegacyHash => match key {
            PublicKeyMaterial::Compressed(b) => Ok(
                encode_base58(network.p2pkh_version(), crypto::hash160(b)),
            ),
            PublicKeyMaterial::XOnly(_) => Err(EncodingError::KeyVariantMismatch),
        },
        AddressType::LegacyScriptHash => match script {
            Some(s) => Ok(encode_base58(network.p2sh_version(), crypto::hash160(s))),
            None => Err(EncodingError::ScriptMismatch),
        },
        AddressType::SegwitV0Key => match key {
            PublicKeyMaterial::Compressed(b) => {
                let program = crypto::hash160(b);
                match crypto::segwit_encode(network.hrp(), 0, &program) {
                    Some(a) => Ok(a),
                    None => Err(EncodingError::InvalidKey),
                }
            },
            PublicKeyMaterial::XOnly(_) => Err(EncodingError::KeyVariantMismatch),
        },
        AddressType::SegwitV0Script => match script {
            Some(s) => {
                let program = crypto::sha256(s);
                match crypto::segwit_encode(network.hrp(), 0, &program) {
                    Some(a) => Ok(a),
                    None => Err(EncodingError::InvalidKey),
                }
            },
            None => Err(EncodingError::ScriptMismatch),
        },
        AddressType::Taproot => match key {
            PublicKeyMaterial::XOnly(b) => match crypto::tap_tweak(b) {
                Some(output_key) => match crypto::segwit_encode(network.hrp(), 1, &output_key) {
                    Some(a) => Ok(a),
                    None => Err(EncodingError::InvalidKey),
                },
                None => Err(EncodingError::InvalidKey),
            },
            PublicKeyMaterial::Compressed(_) => Err(EncodingError::KeyVariantMismatch),
        },
    }
}

} // verus!
