//! The raw, wire-decoded transaction as the verifiers consume it.
//!
//! The wire decoder (an external collaborator) hands over the plain fields,
//! the signature components, the declared chain id, and the 32-byte hash the
//! signature covers; nothing here has been checked yet.

use vstd::prelude::*;
use crate::action::Action;
use crate::bytes::{Hash32, PublicKey};
use crate::crypto::{recover_public_key, recovered_public};
use crate::error::Error;
use crate::u256::U256;

verus! {

/// A signature's `s` component is "low" when it lies in the lower half of
/// the curve order: at most
/// `0x7FFFFFFFFFFFFFFFFFFFFFFFFFFFFFFF5D576E7357A4501DDFE92F46681B20A0`.
pub open spec fn is_low_s_spec(s: U256) -> bool {
    s.as_nat() <= 0x7FFFFFFFFFFFFFFFFFFFFFFFFFFFFFFF5D576E7357A4501DDFE92F46681B20A0
}

/// An untrusted transaction, straight from the wire decoder.
#[derive(Debug, Clone, PartialEq, Eq)]
pub struct UnverifiedTransaction {
    /// The sender's transaction count.
    pub nonce: U256,
    /// The price per unit of gas.
    pub gas_price: U256,
    /// The gas limit.
    pub gas: U256,
    /// Contract creation, or a call of an address.
    pub action: Action,
    /// The transferred value.
    pub value: U256,
    /// The input data.
    pub data: Vec<u8>,
    /// The signature's `r` component; zero together with `s` means unsigned.
    pub r: U256,
    /// The signature's `s` component; zero together with `r` means unsigned.
    pub s: U256,
    /// The recovery byte of the signature, already stripped of any
    /// replay-protection offset.
    pub standard_v: u8,
    /// The chain id the transaction declares, if any.
    pub chain_id: Option<u64>,
    /// The 32-byte hash the signature covers, computed by the wire decoder.
    pub signing_hash: Hash32,
}

impl UnverifiedTransaction {
    /// The shape every wire-decoded transaction has: a full signing hash and
    /// a full call address, if one is present.
    pub open spec fn wf(self) -> bool {
        self.signing_hash.wf() && self.action.wf()
    }

    /// An unsigned transaction carries the all-zero signature.
    pub open spec fn is_unsigned_spec(self) -> bool {
        self.r.as_nat() == 0 && self.s.as_nat() == 0
    }

    /// True exactly when the transaction is unsigned.
    pub fn is_unsigned(&self) -> (r: bool)
        ensures
            r == self.is_unsigned_spec(),
    {
        self.r.is_zero() && self.s.is_zero()
    }

    /// True exactly when the signature's `s` component is low.
    pub fn signature_is_low_s(&self) -> (r: bool)
        ensures
            r == is_low_s_spec(self.s),
    {
        let t = U256 {
            w0: 0xDFE92F46681B20A0,
            w1: 0x5D576E7357A4501D,
            w2: 0xFFFFFFFFFFFFFFFF,
            w3: 0x7FFFFFFFFFFFFFFF,
        };
        self.s.le(&t)
    }

    /// The chain id the transaction declares, if any.
    pub fn chain_id(&self) -> (r: Option<u64>)
        ensures
            r == self.chain_id,
    {
        self.chain_id
    }

    /// Recover the public key from the signature over the signing hash;
    /// a signature that recovers to no valid key is an invalid-signature
    /// rejection.
    pub fn recover_public(&self) -> (res: Result<PublicKey, Error>)
        requires
            self.wf(),
        ensures
            match res {
                Ok(p) => p.wf() && recovered_public(
                    self.r.as_nat(),
                    self.s.as_nat(),
                    self.standard_v,
                    self.signing_hash@,
                ) == Some(p@),
                Err(e) => recovered_public(
                    self.r.as_nat(),
                    self.s.as_nat(),
                    self.standard_v,
                    self.signing_hash@,
                ) is None && e matches Error::InvalidSignature(_),
            },
    {
        match recover_public_key(&self.r, &self.s, self.standard_v, &self.signing_hash) {
            Ok(bytes) => Ok(PublicKey(bytes)),
            Err(reason) => Err(Error::from_signature_error(reason)),
        }
    }
}

} // verus!
