//! The signature stage, against the real cryptography: recovery of the
//! signer, the unsigned sentinel path, and the end-to-end pipeline.

use parity_crypto::publickey::{Generator, Message, Random, public_to_address, sign};
use tx_admission::{
    Action, Condition, Error, Hash32, PendingTransaction, U256, UnverifiedTransaction,
    verify_basic, verify_signature,
};

fn u256_from_be(bytes: &[u8]) -> U256 {
    assert_eq!(bytes.len(), 32);
    let word = |i: usize| u64::from_be_bytes(bytes[i * 8..(i + 1) * 8].try_into().unwrap());
    U256 { w3: word(0), w2: word(1), w1: word(2), w0: word(3) }
}

fn unsigned_tx() -> UnverifiedTransaction {
    UnverifiedTransaction {
        nonce: U256::zero(),
        gas_price: U256::zero(),
        gas: U256::from_u64(21000),
        action: Action::Create,
        value: U256::zero(),
        data: vec![],
        r: U256::zero(),
        s: U256::zero(),
        standard_v: 0,
        chain_id: None,
        signing_hash: Hash32(vec![0x5a; 32]),
    }
}

fn signed_tx(chain_id: Option<u64>) -> (UnverifiedTransaction, Vec<u8>, Vec<u8>) {
    let keypair = Random.generate();
    let hash_bytes = vec![0x42u8; 32];
    let message = Message::from_slice(&hash_bytes);
    let signature = sign(keypair.secret(), &message).expect("signing succeeds");
    let tx = UnverifiedTransaction {
        nonce: U256::from_u64(1),
        gas_price: U256::from_u64(20),
        gas: U256::from_u64(21000),
        action: Action::Call(tx_admission::Address(vec![0x22; 20])),
        value: U256::from_u64(5),
        data: vec![1, 2, 3],
        r: u256_from_be(signature.r()),
        s: u256_from_be(signature.s()),
        standard_v: signature.v(),
        chain_id,
        signing_hash: Hash32(hash_bytes),
    };
    let sender = public_to_address(keypair.public()).as_bytes().to_vec();
    let public = keypair.public().as_bytes().to_vec();
    (tx, sender, public)
}

#[test]
fn unsigned_transaction_yields_the_sentinel_sender() {
    let basic = verify_basic(unsigned_tx(), true, None, true).unwrap();
    let verified = verify_signature(basic).unwrap();
    assert_eq!(verified.sender().0, vec![0xff; 20]);
    assert!(verified.public().is_none());
}

#[test]
fn signed_transaction_recovers_the_signer() {
    let (tx, sender, public) = signed_tx(Some(1));
    let basic = verify_basic(tx, true, Some(1), false).unwrap();
    let verified = verify_signature(basic).unwrap();
    assert_eq!(verified.sender().0, sender);
    assert_eq!(verified.public().as_ref().unwrap().0, public);
}

#[test]
fn the_same_transaction_fails_on_another_chain() {
    let (tx, _, _) = signed_tx(Some(1));
    let res = verify_basic(tx, true, Some(2), false);
    assert_eq!(res.unwrap_err(), Error::InvalidChainId);
}

#[test]
fn an_unrecoverable_signature_is_rejected() {
    let mut tx = unsigned_tx();
    tx.r = U256::zero();
    tx.s = U256::from_u64(1); // a signed shape that recovers to no valid key
    let basic = verify_basic(tx, true, None, false).unwrap();
    let res = verify_signature(basic);
    assert!(matches!(res.unwrap_err(), Error::InvalidSignature(_)));
}

#[test]
fn a_bad_recovery_byte_is_rejected() {
    let (mut tx, _, _) = signed_tx(None);
    tx.standard_v = 7;
    let basic = verify_basic(tx, true, None, false).unwrap();
    let res = verify_signature(basic);
    assert!(matches!(res.unwrap_err(), Error::InvalidSignature(_)));
}

#[test]
fn end_to_end_system_transaction() {
    // the EIP-86 shape: empty signature, zero nonce, value and gas price
    let tx = unsigned_tx();
    let basic = verify_basic(tx, true, None, true).expect("structural stage accepts the shape");
    let verified = verify_signature(basic).expect("no cryptographic work on the unsigned path");
    assert_eq!(verified.sender().0, vec![0xff; 20]);
    assert!(verified.is_unsigned());
}

#[test]
fn the_verified_wrapper_reads_through() {
    let (tx, _, _) = signed_tx(None);
    let copy = tx.clone();
    let verified = verify_signature(verify_basic(tx, true, None, false).unwrap()).unwrap();
    assert_eq!(*verified.inner(), copy);
    assert_eq!(*verified.nonce(), U256::from_u64(1));
    assert_eq!(*verified.gas_price(), U256::from_u64(20));
    assert_eq!(*verified.gas(), U256::from_u64(21000));
    assert_eq!(*verified.value(), U256::from_u64(5));
    assert_eq!(*verified.data(), vec![1, 2, 3]);
    assert_eq!(verified.chain_id(), None);
    assert_eq!(verified.clone().into_unverified(), copy);
}

#[test]
fn pending_transactions_carry_their_condition() {
    let basic = verify_basic(unsigned_tx(), true, None, true).unwrap();
    let verified = verify_signature(basic).unwrap();
    let pending = PendingTransaction::new(verified.clone(), Some(Condition::Number(100)));
    assert_eq!(pending.condition, Some(Condition::Number(100)));
    assert_eq!(pending.transaction, verified);

    let pending = PendingTransaction::new(verified.clone(), Some(Condition::Timestamp(1_700_000_000)));
    assert_eq!(pending.condition, Some(Condition::Timestamp(1_700_000_000)));

    let immediate = PendingTransaction::from_verified(verified.clone());
    assert_eq!(immediate.condition, None);
    assert_eq!(immediate.transaction, verified);
}
