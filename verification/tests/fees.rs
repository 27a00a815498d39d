use ain_evm::error::EVMError;
use ain_evm::evm::EVMServices;
use ain_evm::fee::{calculate_gas_fee, calculate_prepay_gas_fee, get_tx_max_gas_price};
use ain_evm::hash::H160;
use ain_evm::transaction::{GasPricing, SignedTx};
use ain_evm::uint::U256;

fn tx(gas_limit: U256, pricing: GasPricing) -> SignedTx {
    SignedTx { sender: H160([1u8; 20]), nonce: 0, gas_limit, pricing, raw: Vec::new() }
}

fn legacy(gas_limit: u64, gas_price: u64) -> SignedTx {
    tx(U256::from_u64(gas_limit), GasPricing::Legacy { gas_price: U256::from_u64(gas_price) })
}

fn fee_cap(gas_limit: u64, max_fee: u64, tip: u64) -> SignedTx {
    tx(
        U256::from_u64(gas_limit),
        GasPricing::EIP1559 {
            max_fee_per_gas: U256::from_u64(max_fee),
            max_priority_fee_per_gas: U256::from_u64(tip),
        },
    )
}

const MAX: U256 = U256([u64::MAX, u64::MAX, u64::MAX, u64::MAX]);

#[test]
fn prepay_is_gas_limit_times_highest_price() {
    assert_eq!(calculate_prepay_gas_fee(&legacy(21000, 10)), Ok(U256::from_u64(210000)));
    assert_eq!(calculate_prepay_gas_fee(&fee_cap(21000, 30, 2)), Ok(U256::from_u64(630000)));
    let listed = tx(U256::from_u64(50000), GasPricing::EIP2930 { gas_price: U256::from_u64(3) });
    assert_eq!(calculate_prepay_gas_fee(&listed), Ok(U256::from_u64(150000)));
}

#[test]
fn prepay_overflow_is_an_error() {
    let huge = tx(MAX, GasPricing::Legacy { gas_price: U256::from_u64(2) });
    assert_eq!(calculate_prepay_gas_fee(&huge), Err(EVMError::FeeOverflow));
}

#[test]
fn gas_fee_of_a_flat_price_ignores_the_base_fee() {
    let fee = calculate_gas_fee(&legacy(21000, 10), U256::from_u64(21000), U256::from_u64(7));
    assert_eq!(fee, Ok(U256::from_u64(210000)));
    let listed = tx(U256::from_u64(50000), GasPricing::EIP2930 { gas_price: U256::from_u64(3) });
    assert_eq!(
        calculate_gas_fee(&listed, U256::from_u64(40000), U256::from_u64(1000)),
        Ok(U256::from_u64(120000))
    );
}

#[test]
fn gas_fee_of_a_fee_cap_is_base_fee_plus_tip_capped() {
    // base fee 7 + tip 2 = 9, below the cap of 30
    let fee = calculate_gas_fee(&fee_cap(21000, 30, 2), U256::from_u64(21000), U256::from_u64(7));
    assert_eq!(fee, Ok(U256::from_u64(189000)));
    // base fee 29 + tip 2 = 31, capped at 30
    let fee = calculate_gas_fee(&fee_cap(21000, 30, 2), U256::from_u64(21000), U256::from_u64(29));
    assert_eq!(fee, Ok(U256::from_u64(630000)));
    // base fee 28 + tip 2 = 30, exactly the cap
    let fee = calculate_gas_fee(&fee_cap(21000, 30, 2), U256::from_u64(1), U256::from_u64(28));
    assert_eq!(fee, Ok(U256::from_u64(30)));
}

#[test]
fn gas_fee_overflow_is_an_error() {
    let fee = calculate_gas_fee(&legacy(21000, 2), MAX, U256::zero());
    assert_eq!(fee, Err(EVMError::FeeOverflow));
    // base fee plus tip does not fit, even though the cap would apply
    let fee = calculate_gas_fee(&fee_cap(21000, 30, 2), U256::from_u64(1), MAX);
    assert_eq!(fee, Err(EVMError::FeeOverflow));
}

#[test]
fn gas_fee_of_no_gas_is_zero() {
    assert_eq!(calculate_gas_fee(&legacy(21000, 10), U256::zero(), U256::from_u64(7)), Ok(U256::zero()));
}

#[test]
fn max_gas_price_is_the_flat_price_or_the_cap() {
    assert_eq!(get_tx_max_gas_price(&legacy(21000, 10)), U256::from_u64(10));
    assert_eq!(get_tx_max_gas_price(&fee_cap(21000, 30, 2)), U256::from_u64(30));
}

#[test]
fn verify_tx_fees_accepts_a_price_at_or_above_the_base_fee() {
    let base = U256::from_u64(10);
    let next = U256::from_u64(12);
    assert_eq!(EVMServices::verify_tx_fees(&legacy(21000, 10), false, base, next), Ok(()));
    assert_eq!(EVMServices::verify_tx_fees(&legacy(21000, 11), false, base, next), Ok(()));
    assert_eq!(EVMServices::verify_tx_fees(&fee_cap(21000, 12, 1), true, base, next), Ok(()));
}

#[test]
fn verify_tx_fees_rejects_a_price_below_the_base_fee() {
    let base = U256::from_u64(10);
    let next = U256::from_u64(12);
    assert_eq!(
        EVMServices::verify_tx_fees(&legacy(21000, 9), false, base, next),
        Err(EVMError::GasPriceTooLow)
    );
    // enough for the current block, not for the next one
    assert_eq!(
        EVMServices::verify_tx_fees(&legacy(21000, 11), true, base, next),
        Err(EVMError::GasPriceTooLow)
    );
}
