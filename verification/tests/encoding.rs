use ain_evm::encoding::decode;
use ain_evm::error::EVMError;
use ain_evm::evm::EVMServices;

#[test]
fn decode_reads_both_cases() {
    assert_eq!(decode("00ff"), Ok(vec![0x00, 0xff]));
    assert_eq!(decode("aBcD10"), Ok(vec![0xab, 0xcd, 0x10]));
    assert_eq!(decode(""), Ok(vec![]));
}

#[test]
fn decode_refuses_odd_length_and_other_characters() {
    assert_eq!(decode("abc"), Err(EVMError::InvalidHex));
    assert_eq!(decode("zz"), Err(EVMError::InvalidHex));
    assert_eq!(decode("0x12"), Err(EVMError::InvalidHex));
}

#[test]
fn decode_raw_tx_refuses_text_that_is_not_hexadecimal() {
    assert_eq!(EVMServices::decode_raw_tx("not hex"), Err(EVMError::InvalidHex));
}

#[test]
fn decode_raw_tx_refuses_bytes_that_are_no_envelope() {
    assert_eq!(EVMServices::decode_raw_tx(""), Err(EVMError::InvalidEnvelope));
    assert_eq!(EVMServices::decode_raw_tx("05ff"), Err(EVMError::InvalidEnvelope));
}
