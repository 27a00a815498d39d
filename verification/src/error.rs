//! The errors of the library.

use crate::hash::H160;
use crate::uint::U256;
use vstd::prelude::*;

verus! {

/// Why an operation was refused.
#[derive(Clone, Copy, Debug, PartialEq, Eq)]
pub enum EVMError {
    /// No queue is open under the given id.
    NoSuchQueue,
    /// A queue is already open under the given id.
    QueueExists,
    /// A fee or a total does not fit in 256 bits, or a difference is negative.
    FeeOverflow,
    /// A signed transaction's nonce is not its sender's account nonce.
    InvalidNonce { address: H160, account_nonce: u64, tx_nonce: u64 },
    /// The gas used by the transactions of a block does not fit in 64 bits.
    GasOverflow,
    /// The fees realized by a block are not the fees recorded in its queue.
    FeeMismatch { burnt_fees: U256, priority_fees: U256, total_fees: U256 },
    /// The most a transaction would pay per gas is below the base fee.
    GasPriceTooLow,
    /// A raw transaction is not a string of hexadecimal digit pairs.
    InvalidHex,
    /// An encoded transaction could not be decoded.
    InvalidEnvelope,
    /// The nonce of a transaction does not fit in 64 bits.
    NonceOutOfRange,
    /// A genesis state was supplied on a network other than the test network.
    GenesisRestricted,
    /// The target address of a deployment already holds code.
    ContractExists,
    /// An address that must hold an account holds none.
    NoSuchAccount,
    /// The address of a token contract holds no account.
    NotAContract,
    /// The code at the address of a token contract is not the token template.
    InvalidTokenCode,
    /// A balance would leave the range of 256 bits.
    BalanceOverflow,
    /// A debit is larger than the balance it is taken from.
    InsufficientBalance,
    /// The block counter or the block number would leave its range.
    CounterOverflow,
    /// An execution outcome was handed in when none was awaited, or the other
    /// way round; or a block was to be finalized whose execution had failed,
    /// had not come to its end, or had begun on another parent.
    UnexpectedStep,
}

} // verus!
