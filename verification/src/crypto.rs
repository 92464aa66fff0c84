//! Trusted boundary to the ECDSA library.
//!
//! Public-key recovery and address derivation are the only operations this
//! library takes on trust; everything around them is verified against the
//! names given to their results here.

use vstd::prelude::*;
use crate::bytes::Hash32;
use crate::u256::U256;
use parity_crypto::publickey as pk;

verus! {

/// The public key that recovery yields from a signature `(r, s, v)` over a
/// 32-byte message, or nothing when the signature recovers to no valid key.
/// Recovery is a deterministic function of these arguments alone.
pub uninterp spec fn recovered_public(r: nat, s: nat, v: u8, message: Seq<u8>) -> Option<Seq<u8>>;

/// The 20-byte address derived from a 64-byte public key: a deterministic,
/// one-way function of the key alone.
pub uninterp spec fn address_of_public(public: Seq<u8>) -> Seq<u8>;

/// Relies on `parity_crypto::publickey::recover`: recovery of the 64-byte
/// public key from an ECDSA signature, given as its two 256-bit components
/// and the recovery byte, over a 32-byte message. The result depends on the
/// arguments alone; a signature that yields no valid key is an error.
#[verifier::external_body]
pub(crate) fn recover_public_key(r: &U256, s: &U256, v: u8, message: &Hash32) -> (res: Result<
    Vec<u8>,
    String,
>)
    requires
        message@.len() == 32,
    ensures
        match res {
            Ok(p) => recovered_public(r.as_nat(), s.as_nat(), v, message@) == Some(p@)
                && p@.len() == 64,
            Err(_) => recovered_public(r.as_nat(), s.as_nat(), v, message@) is None,
        },
{
    let mut sig = [0u8; 65];
    let words = [r.w3, r.w2, r.w1, r.w0, s.w3, s.w2, s.w1, s.w0];
    for (i, w) in words.iter().enumerate() {
        sig[i * 8..(i + 1) * 8].copy_from_slice(&w.to_be_bytes());
    }
    sig[64] = v;
    let msg = pk::Message::from_slice(&message.0);
    match pk::recover(&pk::Signature::from(sig), &msg) {
        Ok(p) => Ok(p.as_bytes().to_vec()),
        Err(e) => Err(e.to_string()),
    }
}

/// Relies on `parity_crypto::publickey::public_to_address`: the address is
/// the trailing 20 bytes of the key's keccak-256 digest, a deterministic
/// function of the key alone.
#[verifier::external_body]
pub(crate) fn public_to_address(public: &Vec<u8>) -> (res: Vec<u8>)
    requires
        public@.len() == 64,
    ensures
        res@ == address_of_public(public@),
        res@.len() == 20,
{
    let p = pk::Public::from_slice(public);
    pk::public_to_address(&p).as_bytes().to_vec()
}

} // verus!
