//! The two-stage verification pipeline.
//!
//! `verify_basic` runs the cheap structural checks in a fixed order; the
//! first failure wins and decides which single error a multiply-invalid
//! transaction is reported with. `verify_signature` then does the expensive
//! cryptographic recovery on the survivors, and never re-checks what the
//! structural stage already settled.

use vstd::prelude::*;
use crate::basic_verified::BasicVerifiedTransaction;
use crate::bytes::{Address, unsigned_sender, unsigned_sender_seq};
use crate::crypto::{address_of_public, public_to_address, recovered_public};
use crate::error::{Error, invalid_ec_signature_msg};
use crate::unverified::{UnverifiedTransaction, is_low_s_spec};
use crate::verified::VerifiedTransaction;

verus! {

/// First check: with low-s checking on, a transaction that is not on the
/// allowed unsigned path must carry a low `s` component.
pub open spec fn fails_low_s_check(
    tx: UnverifiedTransaction,
    check_low_s: bool,
    allow_empty_signature: bool,
) -> bool {
    check_low_s && !(allow_empty_signature && tx.is_unsigned_spec()) && !is_low_s_spec(tx.s)
}

/// Second check: an unsigned transaction is rejected outright when empty
/// signatures are not allowed.
pub open spec fn fails_empty_signature_check(
    tx: UnverifiedTransaction,
    allow_empty_signature: bool,
) -> bool {
    !allow_empty_signature && tx.is_unsigned_spec()
}

/// Third check: an allowed unsigned transaction must have the system shape,
/// with gas price, value and nonce all exactly zero.
pub open spec fn fails_zero_fields_check(
    tx: UnverifiedTransaction,
    allow_empty_signature: bool,
) -> bool {
    allow_empty_signature && tx.is_unsigned_spec() && !(tx.gas_price.as_nat() == 0
        && tx.value.as_nat() == 0 && tx.nonce.as_nat() == 0)
}

/// Fourth check: a transaction that declares a chain id must declare the
/// configured one; a transaction that declares none is never checked.
pub open spec fn fails_chain_id_check(tx: UnverifiedTransaction, chain_id: Option<u64>) -> bool {
    tx.chain_id is Some && tx.chain_id != chain_id
}

/// The first three checks all report an invalid signature.
pub open spec fn fails_signature_checks(
    tx: UnverifiedTransaction,
    check_low_s: bool,
    allow_empty_signature: bool,
) -> bool {
    ||| fails_low_s_check(tx, check_low_s, allow_empty_signature)
    ||| fails_empty_signature_check(tx, allow_empty_signature)
    ||| fails_zero_fields_check(tx, allow_empty_signature)
}

/// A transaction survives the structural stage when every check passes.
pub open spec fn structurally_valid(
    tx: UnverifiedTransaction,
    check_low_s: bool,
    chain_id: Option<u64>,
    allow_empty_signature: bool,
) -> bool {
    !fails_signature_checks(tx, check_low_s, allow_empty_signature) && !fails_chain_id_check(
        tx,
        chain_id,
    )
}

/// Verify the basic signature parameters; no sender recovery is attempted.
///
/// The checks run in a fixed order and the first failure wins: a bad `s`
/// component, a disallowed empty signature, and a non-zero field on the
/// allowed unsigned shape are each an invalid-signature rejection; a
/// mismatched declared chain id, checked last, is an invalid-chain-id
/// rejection. A surviving transaction is wrapped unchanged.
pub fn verify_basic(
    tx: UnverifiedTransaction,
    check_low_s: bool,
    chain_id: Option<u64>,
    allow_empty_signature: bool,
) -> (res: Result<BasicVerifiedTransaction, Error>)
    ensures
        match res {
            Ok(b) => b.inner_spec() == tx && structurally_valid(
                tx,
                check_low_s,
                chain_id,
                allow_empty_signature,
            ),
            Err(e) => if fails_signature_checks(tx, check_low_s, allow_empty_signature) {
                e matches Error::InvalidSignature(m) && m@ == invalid_ec_signature_msg()
            } else {
                fails_chain_id_check(tx, chain_id) && e == Error::InvalidChainId
            },
        },
{
    if check_low_s && !(allow_empty_signature && tx.is_unsigned())
        && !tx.signature_is_low_s() {
        return Err(Error::invalid_signature());
    }
    if !allow_empty_signature && tx.is_unsigned() {
        return Err(Error::invalid_signature());
    }
    if allow_empty_signature && tx.is_unsigned() && !(tx.gas_price.is_zero() && tx.value.is_zero()
        && tx.nonce.is_zero()) {
        return Err(Error::invalid_signature());
    }
    let declared = tx.chain_id();
    if declared.is_some() && declared != chain_id {
        return Err(Error::InvalidChainId);
    }
    Ok(BasicVerifiedTransaction::attest(tx))
}

/// Perform the heavy check of the transaction signature.
///
/// An unsigned transaction (already validated by the structural stage) is
/// attributed to the fixed sentinel sender with no key and no cryptographic
/// work; any other transaction has its public key recovered from the
/// signature over the signing hash and its sender derived from that key, and
/// is rejected with an invalid-signature error when recovery fails. Chain id
/// and low-s are not re-checked here: they are the structural stage's
/// responsibility alone.
pub fn verify_signature(tx: BasicVerifiedTransaction) -> (res: Result<VerifiedTransaction, Error>)
    requires
        tx.inner_spec().wf(),
    ensures
        match res {
            Ok(vt) => {
                &&& vt.wf()
                &&& vt.inner_spec() == tx.inner_spec()
                &&& if tx.inner_spec().is_unsigned_spec() {
                    vt.public_spec() is None && vt.sender_spec()@ == unsigned_sender_seq()
                } else {
                    vt.public_spec() matches Some(k) && recovered_public(
                        tx.inner_spec().r.as_nat(),
                        tx.inner_spec().s.as_nat(),
                        tx.inner_spec().standard_v,
                        tx.inner_spec().signing_hash@,
                    ) == Some(k@) && vt.sender_spec()@ == address_of_public(k@)
                }
            },
            Err(e) => {
                &&& !tx.inner_spec().is_unsigned_spec()
                &&& recovered_public(
                    tx.inner_spec().r.as_nat(),
                    tx.inner_spec().s.as_nat(),
                    tx.inner_spec().standard_v,
                    tx.inner_spec().signing_hash@,
                ) is None
                &&& e matches Error::InvalidSignature(_)
            },
        },
{
    if tx.is_unsigned() {
        let sender = unsigned_sender();
        Ok(VerifiedTransaction::attest(tx.into_inner(), sender, None))
    } else {
        let public = match tx.inner().recover_public() {
            Ok(p) => p,
            Err(e) => {
                return Err(e);
            },
        };
        let sender_bytes = public_to_address(&public.0);
        let sender = Address(sender_bytes);
        Ok(VerifiedTransaction::attest(tx.into_inner(), sender, Some(public)))
    }
}

/// With low-s checking on, a high-`s` signature is rejected as an invalid
/// signature whatever the other fields and parameters are: a high `s` is
/// non-zero, so the transaction is not on the unsigned path and the first
/// check applies and fails.
pub proof fn lemma_high_s_rejected(
    tx: UnverifiedTransaction,
    chain_id: Option<u64>,
    allow_empty_signature: bool,
)
    requires
        !is_low_s_spec(tx.s),
    ensures
        fails_signature_checks(tx, true, allow_empty_signature),
        !structurally_valid(tx, true, chain_id, allow_empty_signature),
{
    assert(tx.s.as_nat() != 0);
}

/// When empty signatures are not allowed, every unsigned transaction is
/// rejected as an invalid signature, whatever the other parameters are.
pub proof fn lemma_unsigned_rejected(
    tx: UnverifiedTransaction,
    check_low_s: bool,
    chain_id: Option<u64>,
)
    requires
        tx.is_unsigned_spec(),
    ensures
        fails_signature_checks(tx, check_low_s, false),
        !structurally_valid(tx, check_low_s, chain_id, false),
{
}

/// When empty signatures are allowed, an unsigned transaction with any of
/// gas price, value or nonce non-zero is rejected as an invalid signature;
/// with all three zero it passes every structural check, provided it does
/// not declare a chain id other than the configured one.
pub proof fn lemma_unsigned_system_shape(
    tx: UnverifiedTransaction,
    check_low_s: bool,
    chain_id: Option<u64>,
)
    requires
        tx.is_unsigned_spec(),
    ensures
        (tx.gas_price.as_nat() != 0 || tx.value.as_nat() != 0 || tx.nonce.as_nat() != 0)
            ==> fails_signature_checks(tx, check_low_s, true) && !structurally_valid(
            tx,
            check_low_s,
            chain_id,
            true,
        ),
        (tx.gas_price.as_nat() == 0 && tx.value.as_nat() == 0 && tx.nonce.as_nat() == 0 && (
        tx.chain_id is None || tx.chain_id == chain_id)) ==> structurally_valid(
            tx,
            check_low_s,
            chain_id,
            true,
        ),
{
}

/// A transaction that declares a chain id other than the configured one
/// never survives the structural stage; when it passes the three signature
/// checks, the rejection is specifically the chain-id one.
pub proof fn lemma_chain_id_mismatch(
    tx: UnverifiedTransaction,
    check_low_s: bool,
    chain_id: Option<u64>,
    allow_empty_signature: bool,
)
    requires
        tx.chain_id is Some,
        tx.chain_id != chain_id,
    ensures
        !structurally_valid(tx, check_low_s, chain_id, allow_empty_signature),
        fails_chain_id_check(tx, chain_id),
{
}

/// A transaction that declares no chain id is never checked against the
/// configured one: the structural verdict is the same for every
/// configuration.
pub proof fn lemma_chain_id_never_checked(
    tx: UnverifiedTransaction,
    check_low_s: bool,
    allow_empty_signature: bool,
    chain_id_a: Option<u64>,
    chain_id_b: Option<u64>,
)
    requires
        tx.chain_id is None,
    ensures
        !fails_chain_id_check(tx, chain_id_a),
        structurally_valid(tx, check_low_s, chain_id_a, allow_empty_signature)
            == structurally_valid(tx, check_low_s, chain_id_b, allow_empty_signature),
{
}

} // verus!
