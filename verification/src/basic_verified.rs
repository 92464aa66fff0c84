//! The wrapper attesting that a transaction passed the structural stage.

use vstd::prelude::*;
use crate::action::Action;
use crate::u256::U256;
use crate::unverified::UnverifiedTransaction;

verus! {

/// A transaction whose basic signature parameters have been checked. Its
/// signature has *not* been cryptographically recovered yet. Only the
/// structural verifier constructs this wrapper; it never alters the wrapped
/// transaction.
#[derive(Debug, Clone, PartialEq, Eq)]
pub struct BasicVerifiedTransaction {
    transaction: UnverifiedTransaction,
}

impl BasicVerifiedTransaction {
    /// The wrapped transaction.
    pub closed spec fn inner_spec(self) -> UnverifiedTransaction {
        self.transaction
    }

    /// Wrap a transaction that passed the structural checks. Only the
    /// structural verifier calls this.
    pub(crate) fn attest(transaction: UnverifiedTransaction) -> (r: Self)
        ensures
            r.inner_spec() == transaction,
    {
        BasicVerifiedTransaction { transaction }
    }

    /// Read-through access to the wrapped transaction.
    pub fn inner(&self) -> (r: &UnverifiedTransaction)
        ensures
            *r == self.inner_spec(),
    {
        &self.transaction
    }

    /// Give up the wrapper and hand the transaction on.
    pub(crate) fn into_inner(self) -> (r: UnverifiedTransaction)
        ensures
            r == self.inner_spec(),
    {
        self.transaction
    }

    /// The wrapped transaction's nonce.
    pub fn nonce(&self) -> (r: &U256)
        ensures
            *r == self.inner_spec().nonce,
    {
        &self.transaction.nonce
    }

    /// The wrapped transaction's gas price.
    pub fn gas_price(&self) -> (r: &U256)
        ensures
            *r == self.inner_spec().gas_price,
    {
        &self.transaction.gas_price
    }

    /// The wrapped transaction's gas limit.
    pub fn gas(&self) -> (r: &U256)
        ensures
            *r == self.inner_spec().gas,
    {
        &self.transaction.gas
    }

    /// The wrapped transaction's action.
    pub fn action(&self) -> (r: &Action)
        ensures
            *r == self.inner_spec().action,
    {
        &self.transaction.action
    }

    /// The wrapped transaction's value.
    pub fn value(&self) -> (r: &U256)
        ensures
            *r == self.inner_spec().value,
    {
        &self.transaction.value
    }

    /// The wrapped transaction's input data.
    pub fn data(&self) -> (r: &Vec<u8>)
        ensures
            *r == self.inner_spec().data,
    {
        &self.transaction.data
    }

    /// The chain id the wrapped transaction declares, if any.
    pub fn chain_id(&self) -> (r: Option<u64>)
        ensures
            r == self.inner_spec().chain_id,
    {
        self.transaction.chain_id
    }

    /// True exactly when the wrapped transaction is unsigned.
    pub fn is_unsigned(&self) -> (r: bool)
        ensures
            r == self.inner_spec().is_unsigned_spec(),
    {
        self.transaction.is_unsigned()
    }
}

} // verus!
