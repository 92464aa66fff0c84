//! The error taxonomy: every variant renders its exact parameterized message.

use tx_admission::{DecodeError, Error, OutOfBounds, U256};

#[test]
fn plain_variants_render() {
    assert_eq!(Error::AlreadyImported.message(), "Already imported");
    assert_eq!(Error::Old.message(), "No longer valid");
    assert_eq!(Error::TooCheapToReplace.message(), "Gas price too low to replace");
    assert_eq!(Error::LimitReached.message(), "Transaction limit reached");
    assert_eq!(Error::SenderBanned.message(), "Sender is temporarily banned.");
    assert_eq!(Error::RecipientBanned.message(), "Recipient is temporarily banned.");
    assert_eq!(Error::CodeBanned.message(), "Contract code is temporarily banned.");
    assert_eq!(
        Error::InvalidChainId.message(),
        "Transaction of this chain ID is not allowed on this chain."
    );
    assert_eq!(
        Error::NotAllowed.message(),
        "Sender does not have permissions to execute this type of transaction."
    );
    assert_eq!(Error::TooBig.message(), "Transaction is too big.");
}

#[test]
fn threshold_variants_render_both_values() {
    let e = Error::InsufficientGasPrice { minimal: U256::from_u64(15), got: U256::from_u64(3) };
    assert_eq!(e.message(), "Insufficient gas price. Min = 15, Given = 3");

    let e = Error::InsufficientGas { minimal: U256::from_u64(21000), got: U256::from_u64(20999) };
    assert_eq!(e.message(), "Insufficient gas. Min = 21000, Given = 20999");

    let e = Error::InsufficientBalance { balance: U256::from_u64(9), cost: U256::from_u64(10) };
    assert_eq!(e.message(), "Insufficient balance for transaction. Balance = 9, Cost = 10");

    let e = Error::GasLimitExceeded { limit: U256::from_u64(8000000), got: U256::from_u64(9000000) };
    assert_eq!(e.message(), "Gas limit exceeded. Limit = 8000000, Given = 9000000");
}

#[test]
fn gas_limit_bounds_render() {
    let e = Error::InvalidGasLimit(OutOfBounds {
        min: Some(U256::from_u64(21000)),
        max: Some(U256::from_u64(100000)),
        found: U256::from_u64(5),
    });
    assert_eq!(e.message(), "Invalid gas limit. Min = 21000, Max = 100000, Found = 5");

    let e = Error::InvalidGasLimit(OutOfBounds {
        min: None,
        max: Some(U256::from_u64(100000)),
        found: U256::from_u64(200000),
    });
    assert_eq!(e.message(), "Invalid gas limit. Max = 100000, Found = 200000");

    let e = Error::InvalidGasLimit(OutOfBounds {
        min: Some(U256::from_u64(21000)),
        max: None,
        found: U256::from_u64(5),
    });
    assert_eq!(e.message(), "Invalid gas limit. Min = 21000, Found = 5");

    let e = Error::InvalidGasLimit(OutOfBounds { min: None, max: None, found: U256::from_u64(5) });
    assert_eq!(e.message(), "Invalid gas limit. Found = 5");
}

#[test]
fn wrapped_reasons_render() {
    let e = Error::InvalidSignature(String::from("Invalid EC signature"));
    assert_eq!(e.message(), "Transaction has invalid signature: Invalid EC signature.");

    let e = Error::InvalidRlp(String::from("RlpIsTooShort"));
    assert_eq!(e.message(), "Transaction has invalid RLP structure: RlpIsTooShort.");
}

#[test]
fn foreign_errors_convert() {
    assert_eq!(
        Error::from_decode_error(DecodeError::RlpIsTooShort),
        Error::InvalidRlp(String::from("RlpIsTooShort"))
    );
    assert_eq!(
        Error::from_decode_error(DecodeError::RlpIsTooBig),
        Error::InvalidRlp(String::from("RlpIsTooBig"))
    );
    assert_eq!(
        Error::from_decode_error(DecodeError::RlpExpectedToBeData),
        Error::InvalidRlp(String::from("RlpExpectedToBeData"))
    );
    assert_eq!(
        Error::from_signature_error(String::from("bad parity byte")),
        Error::InvalidSignature(String::from("bad parity byte"))
    );
    assert_eq!(
        Error::invalid_signature(),
        Error::InvalidSignature(String::from("Invalid EC signature"))
    );
}

#[test]
fn decimal_rendering_is_exact() {
    assert_eq!(U256::zero().to_dec_string(), "0");
    assert_eq!(U256::from_u64(7).to_dec_string(), "7");
    assert_eq!(U256::from_u64(1234567890).to_dec_string(), "1234567890");
    assert_eq!(
        U256::from_u64(u64::MAX).to_dec_string(),
        "18446744073709551615"
    );
    // one above the word boundary: 2^64
    let two_to_64 = U256 { w0: 0, w1: 1, w2: 0, w3: 0 };
    assert_eq!(two_to_64.to_dec_string(), "18446744073709551616");
    // the largest 256-bit value
    let max = U256 { w0: u64::MAX, w1: u64::MAX, w2: u64::MAX, w3: u64::MAX };
    assert_eq!(
        max.to_dec_string(),
        "115792089237316195423570985008687907853269984665640564039457584007913129639935"
    );
}

#[test]
fn u256_basics() {
    assert!(U256::zero().is_zero());
    assert!(!U256::from_u64(1).is_zero());
    assert!(!(U256 { w0: 0, w1: 0, w2: 0, w3: 1 }).is_zero());
    assert!(U256::from_u64(5).le(&U256::from_u64(5)));
    assert!(U256::from_u64(5).le(&U256 { w0: 0, w1: 0, w2: 1, w3: 0 }));
    assert!(!(U256 { w0: 0, w1: 1, w2: 0, w3: 0 }).le(&U256::from_u64(u64::MAX)));
}

#[test]
fn sentinel_addresses_are_fixed() {
    assert_eq!(tx_admission::unsigned_sender().0, vec![0xff; 20]);
    let mut expected = vec![0xff; 19];
    expected.push(0xfe);
    assert_eq!(tx_admission::system_address().0, expected);
}
