//! Address-encoding tests: fixed vectors and cross-checks against the
//! reference encodings of the `bitcoin` crate.

use bitcoin_addresses::encoder::{encode, AddressType};
use bitcoin_addresses::engine::generate_address;
use bitcoin_addresses::errors::{AddressError, EncodingError, KeyRetrievalError, ScriptBuildError};
use bitcoin_addresses::keys::PublicKeyMaterial;
use bitcoin_addresses::network::Network;
use bitcoin_addresses::script::build_p2pkh_script;

use bitcoin::hashes::Hash as HashTrait;

/// The SEC1-compressed generator point of secp256k1.
fn gen_key() -> Vec<u8> {
    vec![
        0x02, 0x79, 0xbe, 0x66, 0x7e, 0xf9, 0xdc, 0xbb, 0xac, 0x55, 0xa0, 0x62, 0x95, 0xce, 0x87,
        0x0b, 0x07, 0x02, 0x9b, 0xfc, 0xdb, 0x2d, 0xce, 0x28, 0xd9, 0x59, 0xf2, 0x81, 0x5b, 0x16,
        0xf8, 0x17, 0x98,
    ]
}

/// The same point with odd-y parity: a second, distinct valid key.
fn alt_key() -> Vec<u8> {
    let mut k = gen_key();
    k[0] = 0x03;
    k
}

/// The x-only form of the generator point.
fn gen_xonly() -> Vec<u8> {
    gen_key()[1..].to_vec()
}

fn btc_network(network: Network) -> bitcoin::Network {
    match network {
        Network::Main => bitcoin::Network::Bitcoin,
        Network::Test => bitcoin::Network::Testnet,
        Network::Reg => bitcoin::Network::Regtest,
    }
}

fn all_networks() -> Vec<Network> {
    vec![Network::Main, Network::Test, Network::Reg]
}

/// The reference redeem script: the same five-opcode template, built
/// with the `bitcoin` crate's script builder.
fn reference_script(key: &[u8]) -> bitcoin::ScriptBuf {
    let digest = bitcoin::hashes::hash160::Hash::hash(key).to_byte_array();
    bitcoin::script::Builder::new()
        .push_opcode(bitcoin::opcodes::all::OP_DUP)
        .push_opcode(bitcoin::opcodes::all::OP_HASH160)
        .push_slice(digest)
        .push_opcode(bitcoin::opcodes::all::OP_EQUALVERIFY)
        .push_opcode(bitcoin::opcodes::all::OP_CHECKSIG)
        .into_script()
}

/// The reference address string for each type and network, computed by
/// the `bitcoin` crate.
fn reference_address(network: Network, address_type: AddressType) -> String {
    let net = btc_network(network);
    let ck = bitcoin::CompressedPublicKey::from_slice(&gen_key()).unwrap();
    match address_type {
        AddressType::LegacyHash => bitcoin::Address::p2pkh(&ck, net).to_string(),
        AddressType::LegacyScriptHash => {
            bitcoin::Address::p2sh(&reference_script(&gen_key()), net).unwrap().to_string()
        }
        AddressType::SegwitV0Key => bitcoin::Address::p2wpkh(&ck, net).to_string(),
        AddressType::SegwitV0Script => {
            bitcoin::Address::p2wsh(&reference_script(&gen_key()), net).to_string()
        }
        AddressType::Taproot => {
            let secp = bitcoin::key::Secp256k1::new();
            let xonly = bitcoin::key::XOnlyPublicKey::from_slice(&gen_xonly()).unwrap();
            bitcoin::Address::p2tr(&secp, xonly, None, net).to_string()
        }
    }
}

fn key_response_for(address_type: AddressType) -> Result<Vec<u8>, String> {
    match address_type {
        AddressType::Taproot => Ok(gen_xonly()),
        _ => Ok(gen_key()),
    }
}

fn all_types() -> Vec<AddressType> {
    vec![
        AddressType::LegacyHash,
        AddressType::LegacyScriptHash,
        AddressType::SegwitV0Key,
        AddressType::SegwitV0Script,
        AddressType::Taproot,
    ]
}

#[test]
fn p2wpkh_mainnet_fixed_vector() {
    let r = encode(
        AddressType::SegwitV0Key,
        Network::Main,
        &PublicKeyMaterial::Compressed(gen_key()),
        None,
    );
    assert_eq!(
        r,
        Ok(String::from("bc1qw508d6qejxtdg4y5r3zarvary0c5xw7kv8f3t4"))
    );
}

#[test]
fn end_to_end_testnet_segwit_key() {
    let r = generate_address(Network::Test, AddressType::SegwitV0Key, Ok(gen_key()));
    let address = r.expect("address expected");
    assert!(address.starts_with("tb1"));
    assert_eq!(address, reference_address(Network::Test, AddressType::SegwitV0Key));
}

#[test]
fn all_types_and_networks_match_reference_vectors() {
    for network in all_networks() {
        for address_type in all_types() {
            let r = generate_address(network, address_type, key_response_for(address_type));
            assert_eq!(
                r,
                Ok(reference_address(network, address_type)),
                "mismatch for {:?} on {:?}",
                address_type,
                network
            );
        }
    }
}

#[test]
fn the_five_types_are_pairwise_distinct_on_each_network() {
    for network in all_networks() {
        let mut seen: Vec<String> = Vec::new();
        for address_type in all_types() {
            let a = generate_address(network, address_type, key_response_for(address_type))
                .expect("address expected");
            assert!(!seen.contains(&a));
            seen.push(a);
        }
    }
}

#[test]
fn mainnet_addresses_differ_from_testnet_addresses() {
    for address_type in all_types() {
        let main = generate_address(Network::Main, address_type, key_response_for(address_type));
        let test = generate_address(Network::Test, address_type, key_response_for(address_type));
        assert_ne!(main.unwrap(), test.unwrap());
    }
}

#[test]
fn script_building_is_deterministic() {
    let s1 = build_p2pkh_script(&gen_key()).expect("script expected");
    let s2 = build_p2pkh_script(&gen_key()).expect("script expected");
    assert_eq!(s1, s2);
    assert_eq!(s1, reference_script(&gen_key()).to_bytes());
}

#[test]
fn script_hash_addresses_differ_for_same_script() {
    let p2sh = generate_address(Network::Main, AddressType::LegacyScriptHash, Ok(gen_key()));
    let p2wsh = generate_address(Network::Main, AddressType::SegwitV0Script, Ok(gen_key()));
    assert_ne!(p2sh.clone().unwrap(), p2wsh.clone().unwrap());
    assert!(p2sh.unwrap().starts_with('3'));
    assert!(p2wsh.unwrap().starts_with("bc1q"));
}

#[test]
fn script_builder_rejects_wrong_key_length() {
    assert_eq!(
        build_p2pkh_script(&gen_xonly()),
        Err(ScriptBuildError::BadKeyLength)
    );
}

#[test]
fn taproot_never_encodes_a_compressed_key() {
    let r = encode(
        AddressType::Taproot,
        Network::Main,
        &PublicKeyMaterial::Compressed(gen_key()),
        None,
    );
    assert_eq!(r, Err(EncodingError::KeyVariantMismatch));
}

#[test]
fn ecdsa_types_never_encode_an_xonly_key() {
    for address_type in [
        AddressType::LegacyHash,
        AddressType::LegacyScriptHash,
        AddressType::SegwitV0Key,
        AddressType::SegwitV0Script,
    ] {
        let script = build_p2pkh_script(&gen_key()).unwrap();
        let script_arg = match address_type {
            AddressType::LegacyScriptHash | AddressType::SegwitV0Script => Some(&script),
            _ => None,
        };
        let r = encode(
            address_type,
            Network::Main,
            &PublicKeyMaterial::XOnly(gen_xonly()),
            script_arg,
        );
        assert_eq!(r, Err(EncodingError::KeyVariantMismatch));
    }
}

#[test]
fn encoder_rejects_missing_or_extra_script() {
    let script = build_p2pkh_script(&gen_key()).unwrap();
    let with_script = encode(
        AddressType::LegacyHash,
        Network::Main,
        &PublicKeyMaterial::Compressed(gen_key()),
        Some(&script),
    );
    assert_eq!(with_script, Err(EncodingError::ScriptMismatch));
    let without_script = encode(
        AddressType::LegacyScriptHash,
        Network::Main,
        &PublicKeyMaterial::Compressed(gen_key()),
        None,
    );
    assert_eq!(without_script, Err(EncodingError::ScriptMismatch));
}

#[test]
fn encoder_rejects_invalid_xonly_point() {
    let not_an_x_coordinate = vec![0xffu8; 32];
    let r = encode(
        AddressType::Taproot,
        Network::Main,
        &PublicKeyMaterial::XOnly(not_an_x_coordinate),
        None,
    );
    assert_eq!(r, Err(EncodingError::InvalidKey));
}

#[test]
fn encoder_rejects_wrong_key_length() {
    let r = encode(
        AddressType::LegacyHash,
        Network::Main,
        &PublicKeyMaterial::Compressed(gen_xonly()),
        None,
    );
    assert_eq!(r, Err(EncodingError::BadKeyLength));
}

#[test]
fn service_failure_propagates_and_yields_no_address() {
    for address_type in all_types() {
        let r = generate_address(
            Network::Test,
            address_type,
            Err(String::from("service unreachable")),
        );
        assert_eq!(
            r,
            Err(AddressError::KeyRetrieval(KeyRetrievalError::Service(
                String::from("service unreachable")
            )))
        );
    }
}

#[test]
fn malformed_key_material_is_rejected() {
    let not_a_point = vec![0x05u8; 33];
    let r = generate_address(Network::Main, AddressType::LegacyHash, Ok(not_a_point));
    assert_eq!(
        r,
        Err(AddressError::KeyRetrieval(KeyRetrievalError::MalformedKey))
    );
    let compressed_for_taproot = generate_address(Network::Main, AddressType::Taproot, Ok(gen_key()));
    assert_eq!(
        compressed_for_taproot,
        Err(AddressError::KeyRetrieval(KeyRetrievalError::MalformedKey))
    );
}

#[test]
fn identical_requests_yield_identical_addresses() {
    for address_type in all_types() {
        let a1 = generate_address(Network::Reg, address_type, key_response_for(address_type));
        let a2 = generate_address(Network::Reg, address_type, key_response_for(address_type));
        assert!(a1.is_ok());
        assert_eq!(a1, a2);
    }
}

#[test]
fn distinct_keys_yield_distinct_addresses() {
    for address_type in [
        AddressType::LegacyHash,
        AddressType::LegacyScriptHash,
        AddressType::SegwitV0Key,
        AddressType::SegwitV0Script,
    ] {
        let a1 = generate_address(Network::Main, address_type, Ok(gen_key())).unwrap();
        let a2 = generate_address(Network::Main, address_type, Ok(alt_key())).unwrap();
        assert_ne!(a1, a2);
    }
}
