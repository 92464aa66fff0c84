//! Transaction admission: staged verification of untrusted transactions.
//!
//! A raw transaction passes a cheap structural stage (`verify_basic`) and
//! then an expensive cryptographic stage (`verify_signature`); each stage
//! produces an immutable wrapper attesting to the checks it survived.

mod action;
mod basic_verified;
mod bytes;
mod crypto;
mod error;
mod pending;
mod u256;
mod unverified;
mod verified;
mod verify;

pub use action::{
    Action, DecodeError, action_decode_error, actions_agree, decodable, decode, encode,
    encoded_action, is_decoding_of, is_empty_list_encoding, lemma_action_round_trip,
};
pub use basic_verified::BasicVerifiedTransaction;
pub use bytes::{
    Address, Hash32, PublicKey, system_address, system_address_seq, unsigned_sender,
    unsigned_sender_seq,
};
pub use crypto::{address_of_public, recovered_public};
pub use error::{
    Error, OutOfBounds, decode_error_msg, invalid_ec_signature_msg, message_spec,
    out_of_bounds_msg,
};
pub use pending::{Condition, PendingTransaction};
pub use u256::{U256, dec_digit, dec_string_of};
pub use unverified::{UnverifiedTransaction, is_low_s_spec};
pub use verified::{VerifiedTransaction, lemma_sentinel_sender_iff_no_key};
pub use verify::{
    fails_chain_id_check, fails_empty_signature_check, fails_low_s_check,
    fails_signature_checks, fails_zero_fields_check, lemma_chain_id_mismatch,
    lemma_chain_id_never_checked, lemma_high_s_rejected, lemma_unsigned_rejected,
    lemma_unsigned_system_shape, structurally_valid, verify_basic, verify_signature,
};
