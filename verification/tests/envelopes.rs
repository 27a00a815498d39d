use ain_evm::error::EVMError;
use ain_evm::hash::H160;
use ain_evm::transaction::{GasPricing, SignedTx};
use ain_evm::uint::U256;
use ethereum::EnvelopedEncodable;

fn signature() -> ethereum::TransactionSignature {
    ethereum::TransactionSignature::new(
        27,
        primitive_types::H256::from_low_u64_be(1),
        primitive_types::H256::from_low_u64_be(2),
    )
    .unwrap()
}

fn legacy(nonce: primitive_types::U256) -> Vec<u8> {
    ethereum::TransactionV2::Legacy(ethereum::LegacyTransaction {
        nonce,
        gas_price: 10u64.into(),
        gas_limit: 21000u64.into(),
        action: ethereum::TransactionAction::Create,
        value: 5u64.into(),
        input: vec![1, 2, 3],
        signature: signature(),
    })
    .encode()
    .to_vec()
}

const SENDER: H160 = H160([0xa1; 20]);

#[test]
fn from_envelope_reads_a_legacy_transaction() {
    let raw = legacy(7u64.into());
    let tx = SignedTx::from_envelope(SENDER, raw.clone()).unwrap();
    assert_eq!(tx.sender, SENDER);
    assert_eq!(tx.nonce, 7);
    assert_eq!(tx.gas_limit, U256::from_u64(21000));
    assert!(matches!(tx.pricing, GasPricing::Legacy { gas_price } if gas_price == U256::from_u64(10)));
    assert_eq!(tx.raw, raw);
}

#[test]
fn from_envelope_reads_an_access_list_transaction() {
    let raw = ethereum::TransactionV2::EIP2930(ethereum::EIP2930Transaction {
        chain_id: 1,
        nonce: 3u64.into(),
        gas_price: 11u64.into(),
        gas_limit: 50000u64.into(),
        action: ethereum::TransactionAction::Create,
        value: 0u64.into(),
        input: Vec::new(),
        access_list: Vec::new(),
        odd_y_parity: false,
        r: primitive_types::H256::from_low_u64_be(1),
        s: primitive_types::H256::from_low_u64_be(2),
    })
    .encode()
    .to_vec();
    let tx = SignedTx::from_envelope(SENDER, raw).unwrap();
    assert_eq!(tx.nonce, 3);
    assert_eq!(tx.gas_limit, U256::from_u64(50000));
    assert!(matches!(tx.pricing, GasPricing::EIP2930 { gas_price } if gas_price == U256::from_u64(11)));
}

#[test]
fn from_envelope_reads_a_fee_cap_transaction() {
    let raw = ethereum::TransactionV2::EIP1559(ethereum::EIP1559Transaction {
        chain_id: 1,
        nonce: 4u64.into(),
        max_priority_fee_per_gas: 2u64.into(),
        max_fee_per_gas: 30u64.into(),
        gas_limit: 60000u64.into(),
        action: ethereum::TransactionAction::Create,
        value: 0u64.into(),
        input: Vec::new(),
        access_list: Vec::new(),
        odd_y_parity: true,
        r: primitive_types::H256::from_low_u64_be(1),
        s: primitive_types::H256::from_low_u64_be(2),
    })
    .encode()
    .to_vec();
    let tx = SignedTx::from_envelope(SENDER, raw).unwrap();
    assert_eq!(tx.nonce, 4);
    assert_eq!(tx.gas_limit, U256::from_u64(60000));
    assert!(matches!(
        tx.pricing,
        GasPricing::EIP1559 { max_fee_per_gas, max_priority_fee_per_gas }
            if max_fee_per_gas == U256::from_u64(30) && max_priority_fee_per_gas == U256::from_u64(2)
    ));
}

#[test]
fn from_envelope_refuses_bytes_that_do_not_decode() {
    assert_eq!(SignedTx::from_envelope(SENDER, Vec::new()).err(), Some(EVMError::InvalidEnvelope));
    assert_eq!(SignedTx::from_envelope(SENDER, vec![0x05, 0x01]).err(), Some(EVMError::InvalidEnvelope));
}

#[test]
fn from_envelope_refuses_a_nonce_beyond_64_bits() {
    let raw = legacy(primitive_types::U256([0, 1, 0, 0]));
    assert_eq!(SignedTx::from_envelope(SENDER, raw).err(), Some(EVMError::NonceOutOfRange));
    let raw = legacy(primitive_types::U256([u64::MAX, 0, 0, 0]));
    assert_eq!(SignedTx::from_envelope(SENDER, raw).unwrap().nonce, u64::MAX);
}
