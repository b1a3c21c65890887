//! The redeem script embedded in script-hash addresses.

use vstd::prelude::*;

use crate::crypto;
use crate::errors::ScriptBuildError;

verus! {

/// Opcode: duplicate the top stack item.
pub const OP_DUP: u8 = 0x76;
/// Opcode: replace the top stack item by its RIPEMD-160-of-SHA-256 digest.
pub const OP_HASH160: u8 = 0xa9;
/// Opcode: push the next 20 bytes onto the stack.
pub const OP_PUSHBYTES_20: u8 = 0x14;
/// Opcode: fail unless the top two stack items are equal.
pub const OP_EQUALVERIFY: u8 = 0x88;
/// Opcode: check the signature against the public key on the stack.
pub const OP_CHECKSIG: u8 = 0xac;

/// The standard five-opcode pay-to-public-key-hash program over the
/// given public key: duplicate, hash, push the key's 20-byte digest,
/// equal-verify, check-signature.
pub open spec fn spec_p2pkh_script(public_key: Seq<u8>) -> Seq<u8> {
    seq![OP_DUP, OP_HASH160, OP_PUSHBYTES_20] + crypto::spec_hash160(public_key)
        + seq![OP_EQUALVERIFY, OP_CHECKSIG]
}

/// Builds the redeem script for a 33-byte compressed public key.
///
/// Deterministic: the script is a function of the key bytes alone.  A
/// key of any other length is rejected rather than hashed.
pub fn build_p2pkh_script(public_key: &Vec<u8>) -> (r: Result<Vec<u8>, ScriptBuildError>)
    ensures
        public_key@.len() == 33 ==> (r matches Ok(s) && s@ == spec_p2pkh_script(public_key@)),
        public_key@.len() != 33 ==> r == Err::<Vec<u8>, ScriptBuildError>(
            ScriptBuildError::BadKeyLength,
        ),
{
    if public_key.len() != 33 {
        return Err(ScriptBuildError::BadKeyLength);
    }
    let mut digest = crypto::hash160(public_key);
    let mut s: Vec<u8> = Vec::new();
    s.push(OP_DUP);
    s.push(OP_HASH160);
    s.push(OP_PUSHBYTES_20);
    s.append(&mut digest);
    s.push(OP_EQUALVERIFY);
    s.push(OP_CHECKSIG);
    proof {
        assert(s@ =~= spec_p2pkh_script(public_key@));
    }
    Ok(s)
}

/// Law: script building is deterministic — two keys with identical
/// bytes are mapped to byte-identical scripts.
pub proof fn lemma_p2pkh_script_deterministic(key1: Seq<u8>, key2: Seq<u8>)
    requires
        key1 == key2,
    ensures
        spec_p2pkh_script(key1) == spec_p2pkh_script(key2),
{
}

} // verus!
