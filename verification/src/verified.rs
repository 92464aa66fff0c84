//! The wrapper attesting that a transaction passed both verification stages.

use vstd::prelude::*;
use crate::action::Action;
use crate::bytes::{Address, PublicKey, unsigned_sender_seq};
use crate::crypto::address_of_public;
use crate::u256::U256;
use crate::unverified::UnverifiedTransaction;

verus! {

/// A fully verified transaction: the structural checks passed and the sender
/// is attributed. The recovered public key is absent exactly on the unsigned
/// sentinel path, where the sender is the fixed sentinel address. Only the
/// signature verifier constructs this wrapper; it is immutable afterwards.
#[derive(Debug, Clone, PartialEq, Eq)]
pub struct VerifiedTransaction {
    transaction: UnverifiedTransaction,
    sender: Address,
    public: Option<PublicKey>,
}

impl VerifiedTransaction {
    /// The wrapped transaction.
    pub closed spec fn inner_spec(self) -> UnverifiedTransaction {
        self.transaction
    }

    /// The attributed sender address.
    pub closed spec fn sender_spec(self) -> Address {
        self.sender
    }

    /// The recovered public key; absent exactly on the unsigned path.
    pub closed spec fn public_spec(self) -> Option<PublicKey> {
        self.public
    }

    /// What the signature verifier attests: without a key the sender is the
    /// unsigned sentinel; with one it is the address derived from that key.
    pub open spec fn wf(self) -> bool {
        &&& self.inner_spec().wf()
        &&& self.sender_spec().wf()
        &&& match self.public_spec() {
            None => self.sender_spec()@ == unsigned_sender_seq(),
            Some(k) => k.wf() && self.sender_spec()@ == address_of_public(k@),
        }
    }

    /// Wrap a transaction whose sender is attributed. Only the signature
    /// verifier calls this.
    pub(crate) fn attest(
        transaction: UnverifiedTransaction,
        sender: Address,
        public: Option<PublicKey>,
    ) -> (r: Self)
        ensures
            r.inner_spec() == transaction,
            r.sender_spec() == sender,
            r.public_spec() == public,
    {
        VerifiedTransaction { transaction, sender, public }
    }

    /// Read-through access to the wrapped transaction.
    pub fn inner(&self) -> (r: &UnverifiedTransaction)
        ensures
            *r == self.inner_spec(),
    {
        &self.transaction
    }

    /// The attributed sender address.
    pub fn sender(&self) -> (r: &Address)
        ensures
            *r == self.sender_spec(),
    {
        &self.sender
    }

    /// The recovered public key; absent exactly on the unsigned path.
    pub fn public(&self) -> (r: &Option<PublicKey>)
        ensures
            *r == self.public_spec(),
    {
        &self.public
    }

    /// Give up the attestation and hand the raw transaction back.
    pub fn into_unverified(self) -> (r: UnverifiedTransaction)
        ensures
            r == self.inner_spec(),
    {
        self.transaction
    }

    /// The wrapped transaction's nonce.
    pub fn nonce(&self) -> (r: &U256)
        ensures
            *r == self.inner_spec().nonce,
    {
        &self.transaction.nonce
    }

    /// The wrapped transaction's gas price.
    pub fn gas_price(&self) -> (r: &U256)
        ensures
            *r == self.inner_spec().gas_price,
    {
        &self.transaction.gas_price
    }

    /// The wrapped transaction's gas limit.
    pub fn gas(&self) -> (r: &U256)
        ensures
            *r == self.inner_spec().gas,
    {
        &self.transaction.gas
    }

    /// The wrapped transaction's action.
    pub fn action(&self) -> (r: &Action)
        ensures
            *r == self.inner_spec().action,
    {
        &self.transaction.action
    }

    /// The wrapped transaction's value.
    pub fn value(&self) -> (r: &U256)
        ensures
            *r == self.inner_spec().value,
    {
        &self.transaction.value
    }

    /// The wrapped transaction's input data.
    pub fn data(&self) -> (r: &Vec<u8>)
        ensures
            *r == self.inner_spec().data,
    {
        &self.transaction.data
    }

    /// The chain id the wrapped transaction declares, if any.
    pub fn chain_id(&self) -> (r: Option<u64>)
        ensures
            r == self.inner_spec().chain_id,
    {
        self.transaction.chain_id
    }

    /// True exactly when the wrapped transaction is unsigned.
    pub fn is_unsigned(&self) -> (r: bool)
        ensures
            r == self.inner_spec().is_unsigned_spec(),
    {
        self.transaction.is_unsigned()
    }
}

/// The sentinel attribution is two-sided: a verified transaction carries the
/// sentinel sender exactly when it carries no recovered key. The forward
/// direction needs the derived address of the key, when there is one, to
/// differ from the sentinel, which the one-way derivation gives for every
/// key that anyone can exhibit.
pub proof fn lemma_sentinel_sender_iff_no_key(vt: VerifiedTransaction)
    requires
        vt.wf(),
        match vt.public_spec() {
            Some(k) => address_of_public(k@) != unsigned_sender_seq(),
            None => true,
        },
    ensures
        (vt.sender_spec()@ == unsigned_sender_seq()) <==> vt.public_spec() is None,
{
}

} // verus!
