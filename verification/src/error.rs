//! The closed taxonomy of transaction-rejection reasons.
//!
//! The two verifier stages raise `InvalidSignature`, `InvalidChainId` and
//! `InvalidRlp`; the remaining variants are the shared vocabulary that the
//! external pool rejects with. Every variant carries the data needed to
//! render a precise message, and `message` renders it.

use vstd::prelude::*;
use crate::u256::{U256, dec_string_of};
use crate::action::DecodeError;

verus! {

/// A value together with the bounds it violated.
#[derive(Debug, Clone, PartialEq, Eq)]
pub struct OutOfBounds {
    /// The lowest admissible value, if one is set.
    pub min: Option<U256>,
    /// The highest admissible value, if one is set.
    pub max: Option<U256>,
    /// The value that was given.
    pub found: U256,
}

/// Errors concerning transaction processing.
#[derive(Debug, Clone, PartialEq, Eq)]
pub enum Error {
    /// The transaction is already imported to the queue.
    AlreadyImported,
    /// The transaction is not valid anymore: state already has a higher nonce.
    Old,
    /// A transaction with the same sender and nonce but a higher gas price
    /// already sits in the queue.
    TooCheapToReplace,
    /// The queue's transaction limit has been reached.
    LimitReached,
    /// The transaction's gas price is below the threshold.
    InsufficientGasPrice {
        /// The minimal expected gas price.
        minimal: U256,
        /// The transaction's gas price.
        got: U256,
    },
    /// The transaction's gas is below the current minimal gas requirement.
    InsufficientGas {
        /// The minimal expected gas.
        minimal: U256,
        /// The transaction's gas.
        got: U256,
    },
    /// The sender does not have enough funds to pay for the transaction.
    InsufficientBalance {
        /// The sender's balance.
        balance: U256,
        /// The transaction's cost.
        cost: U256,
    },
    /// The transaction's gas is higher than the current gas limit.
    GasLimitExceeded {
        /// The current gas limit.
        limit: U256,
        /// The declared transaction gas.
        got: U256,
    },
    /// The transaction's gas limit is outside the admissible bounds.
    InvalidGasLimit(OutOfBounds),
    /// The sender is banned.
    SenderBanned,
    /// The recipient is banned.
    RecipientBanned,
    /// The contract creation code is banned.
    CodeBanned,
    /// The transaction declares a chain id that this chain does not accept.
    InvalidChainId,
    /// The permission contract gives the sender no permission for this
    /// kind of transaction.
    NotAllowed,
    /// The signature is invalid, with the reason.
    InvalidSignature(String),
    /// The transaction is too big.
    TooBig,
    /// The wire encoding is invalid, with the reason.
    InvalidRlp(String),
}

/// The rendering of the bounds part of an out-of-bounds rejection.
pub open spec fn out_of_bounds_msg(oob: OutOfBounds) -> Seq<char> {
    (match oob.min {
        Some(min) => "Min = "@ + dec_string_of(min.as_nat()) + ", "@,
        None => Seq::<char>::empty(),
    }) + (match oob.max {
        Some(max) => "Max = "@ + dec_string_of(max.as_nat()) + ", "@,
        None => Seq::<char>::empty(),
    }) + "Found = "@ + dec_string_of(oob.found.as_nat())
}

/// The human-readable message of each rejection, parameter values included.
pub open spec fn message_spec(e: Error) -> Seq<char> {
    match e {
        Error::AlreadyImported => "Already imported"@,
        Error::Old => "No longer valid"@,
        Error::TooCheapToReplace => "Gas price too low to replace"@,
        Error::LimitReached => "Transaction limit reached"@,
        Error::InsufficientGasPrice { minimal, got } => "Insufficient gas price. Min = "@
            + dec_string_of(minimal.as_nat()) + ", Given = "@ + dec_string_of(got.as_nat()),
        Error::InsufficientGas { minimal, got } => "Insufficient gas. Min = "@ + dec_string_of(
            minimal.as_nat(),
        ) + ", Given = "@ + dec_string_of(got.as_nat()),
        Error::InsufficientBalance { balance, cost } => "Insufficient balance for transaction. Balance = "@
            + dec_string_of(balance.as_nat()) + ", Cost = "@ + dec_string_of(cost.as_nat()),
        Error::GasLimitExceeded { limit, got } => "Gas limit exceeded. Limit = "@ + dec_string_of(
            limit.as_nat(),
        ) + ", Given = "@ + dec_string_of(got.as_nat()),
        Error::InvalidGasLimit(oob) => "Invalid gas limit. "@ + out_of_bounds_msg(oob),
        Error::SenderBanned => "Sender is temporarily banned."@,
        Error::RecipientBanned => "Recipient is temporarily banned."@,
        Error::CodeBanned => "Contract code is temporarily banned."@,
        Error::InvalidChainId => "Transaction of this chain ID is not allowed on this chain."@,
        Error::NotAllowed => "Sender does not have permissions to execute this type of transaction."@,
        Error::InvalidSignature(reason) => "Transaction has invalid signature: "@ + reason@ + "."@,
        Error::TooBig => "Transaction is too big."@,
        Error::InvalidRlp(reason) => "Transaction has invalid RLP structure: "@ + reason@ + "."@,
    }
}

/// The message that the signature library's rejection is rendered as.
pub open spec fn invalid_ec_signature_msg() -> Seq<char> {
    "Invalid EC signature"@
}

/// The reason string of each wire-decoding rejection.
pub open spec fn decode_error_msg(d: DecodeError) -> Seq<char> {
    match d {
        DecodeError::RlpIsTooShort => "RlpIsTooShort"@,
        DecodeError::RlpIsTooBig => "RlpIsTooBig"@,
        DecodeError::RlpExpectedToBeData => "RlpExpectedToBeData"@,
    }
}

impl Error {
    /// Render the human-readable message, parameter values included.
    pub fn message(&self) -> (r: String)
        ensures
            r@ == message_spec(*self),
    {
        match self {
            Error::AlreadyImported => String::from_str("Already imported"),
            Error::Old => String::from_str("No longer valid"),
            Error::TooCheapToReplace => String::from_str("Gas price too low to replace"),
            Error::LimitReached => String::from_str("Transaction limit reached"),
            Error::InsufficientGasPrice { minimal, got } => String::from_str(
                "Insufficient gas price. Min = ",
            ).concat(minimal.to_dec_string().as_str()).concat(", Given = ").concat(
                got.to_dec_string().as_str(),
            ),
            Error::InsufficientGas { minimal, got } => String::from_str(
                "Insufficient gas. Min = ",
            ).concat(minimal.to_dec_string().as_str()).concat(", Given = ").concat(
                got.to_dec_string().as_str(),
            ),
            Error::InsufficientBalance { balance, cost } => String::from_str(
                "Insufficient balance for transaction. Balance = ",
            ).concat(balance.to_dec_string().as_str()).concat(", Cost = ").concat(
                cost.to_dec_string().as_str(),
            ),
            Error::GasLimitExceeded { limit, got } => String::from_str(
                "Gas limit exceeded. Limit = ",
            ).concat(limit.to_dec_string().as_str()).concat(", Given = ").concat(
                got.to_dec_string().as_str(),
            ),
            Error::InvalidGasLimit(oob) => {
                let mut r = String::from_str("Invalid gas limit. ");
                match &oob.min {
                    Some(min) => {
                        r = r.concat("Min = ").concat(min.to_dec_string().as_str()).concat(", ");
                    },
                    None => {},
                }
                match &oob.max {
                    Some(max) => {
                        r = r.concat("Max = ").concat(max.to_dec_string().as_str()).concat(", ");
                    },
                    None => {},
                }
                let r = r.concat("Found = ").concat(oob.found.to_dec_string().as_str());
                proof {
                    assert(r@ =~= message_spec(*self));
                }
                r
            },
            Error::SenderBanned => String::from_str("Sender is temporarily banned."),
            Error::RecipientBanned => String::from_str("Recipient is temporarily banned."),
            Error::CodeBanned => String::from_str("Contract code is temporarily banned."),
            Error::InvalidChainId => String::from_str(
                "Transaction of this chain ID is not allowed on this chain.",
            ),
            Error::NotAllowed => String::from_str(
                "Sender does not have permissions to execute this type of transaction.",
            ),
            Error::InvalidSignature(reason) => String::from_str(
                "Transaction has invalid signature: ",
            ).concat(reason.as_str()).concat("."),
            Error::TooBig => String::from_str("Transaction is too big."),
            Error::InvalidRlp(reason) => String::from_str(
                "Transaction has invalid RLP structure: ",
            ).concat(reason.as_str()).concat("."),
        }
    }

    /// The rejection that every structural signature failure is reported as.
    pub fn invalid_signature() -> (e: Error)
        ensures
            e matches Error::InvalidSignature(m) && m@ == invalid_ec_signature_msg(),
    {
        Error::InvalidSignature(String::from_str("Invalid EC signature"))
    }

    /// Wrap a foreign signature-library failure into the taxonomy.
    pub fn from_signature_error(reason: String) -> (e: Error)
        ensures
            e matches Error::InvalidSignature(m) && m == reason,
    {
        Error::InvalidSignature(reason)
    }

    /// Wrap a wire-decoding failure into the taxonomy.
    pub fn from_decode_error(d: DecodeError) -> (e: Error)
        ensures
            e matches Error::InvalidRlp(m) && m@ == decode_error_msg(d),
    {
        match d {
            DecodeError::RlpIsTooShort => Error::InvalidRlp(String::from_str("RlpIsTooShort")),
            DecodeError::RlpIsTooBig => Error::InvalidRlp(String::from_str("RlpIsTooBig")),
            DecodeError::RlpExpectedToBeData => Error::InvalidRlp(
                String::from_str("RlpExpectedToBeData"),
            ),
        }
    }
}

} // verus!
