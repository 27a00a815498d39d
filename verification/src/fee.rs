//! Gas fees: what a sender must be able to pay before a transaction runs,
//! and what the transaction costs once the gas it used is known.

use crate::error::EVMError;
use crate::transaction::{GasPricing, SignedTx};
use crate::uint::{max_u256, U256};
use vstd::prelude::*;

verus! {

/// The most that a transaction pays per unit of gas.
pub open spec fn max_gas_price(pricing: GasPricing) -> nat {
    match pricing {
        GasPricing::Legacy { gas_price } => gas_price@,
        GasPricing::EIP2930 { gas_price } => gas_price@,
        GasPricing::EIP1559 { max_fee_per_gas, .. } => max_fee_per_gas@,
    }
}

/// What a transaction pays per unit of gas in a block with the given base
/// fee: the flat price, or the base fee plus the tip, capped by the fee cap.
pub open spec fn effective_gas_price(pricing: GasPricing, base_fee: nat) -> nat {
    match pricing {
        GasPricing::Legacy { gas_price } => gas_price@,
        GasPricing::EIP2930 { gas_price } => gas_price@,
        GasPricing::EIP1559 { max_fee_per_gas, max_priority_fee_per_gas } => {
            if max_fee_per_gas@ <= base_fee + max_priority_fee_per_gas@ {
                max_fee_per_gas@
            } else {
                base_fee + max_priority_fee_per_gas@
            }
        },
    }
}

/// Whether the effective price can be computed in 256 bits: the base fee
/// plus the tip must fit.
pub open spec fn price_fits(pricing: GasPricing, base_fee: nat) -> bool {
    match pricing {
        GasPricing::EIP1559 { max_priority_fee_per_gas, .. } => base_fee
            + max_priority_fee_per_gas@ <= max_u256(),
        _ => true,
    }
}

/// The fee that is taken from the sender before execution: the gas limit at
/// the highest price.
pub open spec fn prepay_gas_fee(pricing: GasPricing, gas_limit: nat) -> nat {
    gas_limit * max_gas_price(pricing)
}

/// The fee that a transaction costs for the gas it used.
pub open spec fn gas_fee(pricing: GasPricing, gas_used: nat, base_fee: nat) -> nat {
    gas_used * effective_gas_price(pricing, base_fee)
}

/// The fee recorded for a transaction, or `None` where it cannot be computed
/// in 256 bits.
pub open spec fn checked_gas_fee(pricing: GasPricing, gas_used: nat, base_fee: nat) -> Option<nat> {
    if price_fits(pricing, base_fee) && gas_fee(pricing, gas_used, base_fee) <= max_u256() {
        Some(gas_fee(pricing, gas_used, base_fee))
    } else {
        None
    }
}

/// The most the sender is willing to pay per unit of gas.
pub fn get_tx_max_gas_price(signed_tx: &SignedTx) -> (price: U256)
    ensures
        price@ == max_gas_price(signed_tx.pricing),
{
    match signed_tx.pricing {
        GasPricing::Legacy { gas_price } => gas_price,
        GasPricing::EIP2930 { gas_price } => gas_price,
        GasPricing::EIP1559 { max_fee_per_gas, .. } => max_fee_per_gas,
    }
}

/// The fee to take from the sender before execution. Fails where the product
/// does not fit in 256 bits.
pub fn calculate_prepay_gas_fee(signed_tx: &SignedTx) -> (fee: Result<U256, EVMError>)
    ensures
        prepay_gas_fee(signed_tx.pricing, signed_tx.gas_limit@) <= max_u256() ==> fee is Ok
            && fee.unwrap()@ == prepay_gas_fee(signed_tx.pricing, signed_tx.gas_limit@),
        prepay_gas_fee(signed_tx.pricing, signed_tx.gas_limit@) > max_u256() ==> fee
            == Err::<U256, EVMError>(EVMError::FeeOverflow),
{
    let price = get_tx_max_gas_price(signed_tx);
    match signed_tx.gas_limit.checked_mul(price) {
        Some(fee) => Ok(fee),
        None => Err(EVMError::FeeOverflow),
    }
}

/// The fee for the gas that a transaction used in a block with the given
/// base fee. Fails where the base fee plus the tip, or the product, does not
/// fit in 256 bits.
pub fn calculate_gas_fee(signed_tx: &SignedTx, gas_used: U256, base_fee: U256) -> (fee: Result<
    U256,
    EVMError,
>)
    ensures
        match checked_gas_fee(signed_tx.pricing, gas_used@, base_fee@) {
            Some(v) => fee is Ok && fee.unwrap()@ == v,
            None => fee == Err::<U256, EVMError>(EVMError::FeeOverflow),
        },
{
    let price = match signed_tx.pricing {
        GasPricing::Legacy { gas_price } => gas_price,
        GasPricing::EIP2930 { gas_price } => gas_price,
        GasPricing::EIP1559 { max_fee_per_gas, max_priority_fee_per_gas } => {
            match max_priority_fee_per_gas.checked_add(base_fee) {
                Some(with_tip) => max_fee_per_gas.min(with_tip),
                None => {
                    return Err(EVMError::FeeOverflow);
                },
            }
        },
    };
    match gas_used.checked_mul(price) {
        Some(fee) => Ok(fee),
        None => Err(EVMError::FeeOverflow),
    }
}

} // verus!
