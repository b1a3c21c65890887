//! Trusted bindings to the hashing, point-parsing and string-encoding
//! primitives of the `bitcoin` and `bech32` crates.
//!
//! Every other function of this crate is verified against the contracts
//! stated here; each contract states only what the named function's own
//! source shows, and names a digest or encoding instead of restating its
//! algorithm.

use vstd::prelude::*;

use bitcoin::hashes::Hash as HashTrait;

verus! {

/// The 20-byte RIPEMD-160-of-SHA-256 digest of a byte string.
pub uninterp spec fn spec_hash160(data: Seq<u8>) -> Seq<u8>;

/// The 32-byte SHA-256 digest of a byte string.
pub uninterp spec fn spec_sha256(data: Seq<u8>) -> Seq<u8>;

/// The base58 rendering of a payload with its 4-byte checksum appended.
pub uninterp spec fn spec_base58check(payload: Seq<u8>) -> Seq<char>;

/// The bech32 (version 0) or bech32m (version 1 and up) rendering of a
/// witness program under a human-readable prefix.
pub uninterp spec fn spec_segwit_addr(hrp: Seq<char>, version: u8, program: Seq<u8>) -> Seq<char>;

/// Whether the bytes parse as a SEC1-encoded secp256k1 point.
pub uninterp spec fn spec_sec1_point_ok(data: Seq<u8>) -> bool;

/// Whether the bytes parse as a BIP-340 x-only secp256k1 point.
pub uninterp spec fn spec_xonly_point_ok(data: Seq<u8>) -> bool;

/// The BIP-341 output key (key-path-only spend, no script tree) for an
/// x-only internal key; `None` when the bytes are not a valid x-only
/// point or the tweak cannot be applied within the group.
pub uninterp spec fn spec_tap_tweak(data: Seq<u8>) -> Option<Seq<u8>>;

/// Relies on `bitcoin::hashes::hash160::Hash::hash`: a 20-byte digest
/// that is a function of the input bytes alone.
#[verifier::external_body]
pub(crate) fn hash160(data: &Vec<u8>) -> (r: Vec<u8>)
    ensures
        r@ == spec_hash160(data@),
        r@.len() == 20,
{
    bitcoin::hashes::hash160::Hash::hash(data.as_slice()).to_byte_array().to_vec()
}

/// Relies on `bitcoin::hashes::sha256::Hash::hash`: a 32-byte digest
/// that is a function of the input bytes alone.
#[verifier::external_body]
pub(crate) fn sha256(data: &Vec<u8>) -> (r: Vec<u8>)
    ensures
        r@ == spec_sha256(data@),
        r@.len() == 32,
{
    bitcoin::hashes::sha256::Hash::hash(data.as_slice()).to_byte_array().to_vec()
}

/// Relies on `bitcoin::base58::encode_check`: the checksummed base58
/// string is a function of the payload bytes alone, and the call cannot
/// fail.
#[verifier::external_body]
pub(crate) fn base58check(payload: &Vec<u8>) -> (r: String)
    ensures
        r@ == spec_base58check(payload@),
{
    bitcoin::base58::encode_check(payload.as_slice())
}

/// Relies on `bech32::segwit::encode` (and `bech32::Hrp::parse`,
/// `bech32::Fe32::try_from`): the encoded string is a function of
/// prefix, witness version and program alone.  Encoding succeeds for the
/// three Bitcoin prefixes whenever the witness version is at most 16,
/// the program holds 2 to 40 bytes, and a version-0 program holds 20 or
/// 32 bytes; those are exactly the checks the crate's source makes.
#[verifier::external_body]
pub(crate) fn segwit_encode(hrp: &str, version: u8, program: &Vec<u8>) -> (r: Option<String>)
    ensures
        r is Some ==> r.unwrap()@ == spec_segwit_addr(hrp@, version, program@),
        (hrp@ == "bc"@ || hrp@ == "tb"@ || hrp@ == "bcrt"@) && version <= 16
            && 2 <= program@.len() <= 40
            && (version == 0 ==> program@.len() == 20 || program@.len() == 32)
            ==> r is Some,
{
    let parsed_hrp = match bech32::Hrp::parse(hrp) {
        Ok(h) => h,
        Err(_) => return None,
    };
    let fe_version = match bech32::Fe32::try_from(version) {
        Ok(v) => v,
        Err(_) => return None,
    };
    bech32::segwit::encode(parsed_hrp, fe_version, program.as_slice()).ok()
}

/// Relies on `bitcoin::CompressedPublicKey::from_slice`, which defers to
/// `secp256k1::PublicKey::from_slice`: parsing succeeds exactly when the
/// bytes are a SEC1-encoded point, and parsing is a function of the
/// bytes alone.
#[verifier::external_body]
pub(crate) fn sec1_point_ok(data: &Vec<u8>) -> (r: bool)
    ensures
        r == spec_sec1_point_ok(data@),
{
    bitcoin::CompressedPublicKey::from_slice(data.as_slice()).is_ok()
}

/// Relies on `bitcoin::key::XOnlyPublicKey::from_slice`: parsing
/// succeeds exactly when the bytes are 32 bytes encoding a valid x
/// coordinate, and parsing is a function of the bytes alone.
#[verifier::external_body]
pub(crate) fn xonly_point_ok(data: &Vec<u8>) -> (r: bool)
    ensures
        r == spec_xonly_point_ok(data@),
        r ==> data@.len() == 32,
{
    bitcoin::key::XOnlyPublicKey::from_slice(data.as_slice()).is_ok()
}

/// Relies on `bitcoin::key::XOnlyPublicKey::from_slice`,
/// `bitcoin::taproot::TapTweakHash::from_key_and_tweak`,
/// `secp256k1::Scalar::from_be_bytes` and
/// `secp256k1::XOnlyPublicKey::add_tweak`: together the steps of the
/// BIP-341 key-path tweak that `bitcoin`'s `TapTweak` trait performs.
/// The output key is a function of the input bytes alone; the fallible
/// steps answer `None` here instead of failing.
#[verifier::external_body]
pub(crate) fn tap_tweak(data: &Vec<u8>) -> (r: Option<Vec<u8>>)
    ensures
        r is Some ==> spec_xonly_point_ok(data@) && spec_tap_tweak(data@) is Some,
        spec_xonly_point_ok(data@) && spec_tap_tweak(data@) is Some ==> r is Some,
        r is Some ==> r.unwrap()@ == spec_tap_tweak(data@).unwrap(),
        r is Some ==> r.unwrap()@.len() == 32,
{
    let key = match bitcoin::key::XOnlyPublicKey::from_slice(data.as_slice()) {
        Ok(k) => k,
        Err(_) => return None,
    };
    let digest = bitcoin::taproot::TapTweakHash::from_key_and_tweak(key, None).to_byte_array();
    let scalar = match bitcoin::secp256k1::Scalar::from_be_bytes(digest) {
        Ok(s) => s,
        Err(_) => return None,
    };
    let secp = bitcoin::key::Secp256k1::verification_only();
    match key.add_tweak(&secp, &scalar) {
        Ok((tweaked, _parity)) => Some(tweaked.serialize().to_vec()),
        Err(_) => None,
    }
}

} // verus!
