//! The activation wrapper the pool queues transactions in.

use vstd::prelude::*;
use crate::verified::VerifiedTransaction;

verus! {

/// The earliest point at which a transaction becomes eligible for inclusion.
#[derive(Debug, Clone, Copy, PartialEq, Eq, Structural)]
pub enum Condition {
    /// Valid at this block number or later.
    Number(u64),
    /// Valid at this unix time or later.
    Timestamp(u64),
}

/// A queued transaction: a fully verified transaction together with its
/// activation condition, if any. The external pool owns and evaluates it;
/// this core only defines its shape and construction.
#[derive(Debug, Clone, PartialEq, Eq)]
pub struct PendingTransaction {
    /// The fully verified transaction.
    pub transaction: VerifiedTransaction,
    /// To be activated at this condition; `None` means immediately eligible.
    pub condition: Option<Condition>,
}

impl PendingTransaction {
    /// Queue a verified transaction under the given activation condition.
    pub fn new(transaction: VerifiedTransaction, condition: Option<Condition>) -> (r: Self)
        ensures
            r.transaction == transaction,
            r.condition == condition,
    {
        PendingTransaction { transaction, condition }
    }

    /// Queue a verified transaction as immediately eligible.
    pub fn from_verified(transaction: VerifiedTransaction) -> (r: Self)
        ensures
            r.transaction == transaction,
            r.condition is None,
    {
        PendingTransaction { transaction, condition: None }
    }
}

} // verus!
