//! What a block candidate's queue holds: signed transactions of users and
//! the privileged system transactions of the node.

use crate::error::EVMError;
use crate::hash::{H160, H256};
use crate::seal::envelope_hash;
use crate::uint::U256;
use ethereum::{EnvelopedDecodable, TransactionV2};
use vstd::prelude::*;

verus! {

/// What a signed transaction offers to pay per unit of gas.
#[derive(Clone, Copy, Debug)]
pub enum GasPricing {
    /// One flat price.
    Legacy { gas_price: U256 },
    /// One flat price, with an access list.
    EIP2930 { gas_price: U256 },
    /// A cap on the price, and a tip above the block's base fee.
    EIP1559 { max_fee_per_gas: U256, max_priority_fee_per_gas: U256 },
}

/// A decoded transaction whose signature has been checked.
#[derive(Debug)]
pub struct SignedTx {
    /// The account that signed.
    pub sender: H160,
    /// The sender's account nonce that the transaction was signed for.
    pub nonce: u64,
    /// The most gas the transaction may use.
    pub gas_limit: U256,
    /// The price fields.
    pub pricing: GasPricing,
    /// The encoded envelope, from which the transaction's hash is computed.
    pub raw: Vec<u8>,
}

/// A signed transaction as a plain value.
pub ghost struct SignedTxView {
    pub sender: H160,
    pub nonce: u64,
    pub gas_limit: U256,
    pub pricing: GasPricing,
    pub raw: Seq<u8>,
}

impl View for SignedTx {
    type V = SignedTxView;

    open spec fn view(&self) -> SignedTxView {
        SignedTxView {
            sender: self.sender,
            nonce: self.nonce,
            gas_limit: self.gas_limit,
            pricing: self.pricing,
            raw: self.raw@,
        }
    }
}

/// A copy of a byte vector.
pub fn copy_bytes(bytes: &Vec<u8>) -> (r: Vec<u8>)
    ensures
        r@ == bytes@,
{
    let mut r: Vec<u8> = Vec::new();
    let mut i: usize = 0;
    while i < bytes.len()
        invariant
            i <= bytes.len(),
            r@ == bytes@.subrange(0, i as int),
        decreases bytes.len() - i,
    {
        r.push(bytes[i]);
        i = i + 1;
        assert(r@ =~= bytes@.subrange(0, i as int));
    }
    assert(r@ =~= bytes@);
    r
}

impl Clone for SignedTx {
    fn clone(&self) -> (r: SignedTx)
        ensures
            r@ == self@,
    {
        SignedTx {
            sender: self.sender,
            nonce: self.nonce,
            gas_limit: self.gas_limit,
            pricing: self.pricing,
            raw: copy_bytes(&self.raw),
        }
    }
}

/// The nonce, the gas limit and the price fields of the transaction that an
/// envelope decodes to with `ethereum::EnvelopedDecodable::decode`; `None`
/// where the envelope does not decode.
pub uninterp spec fn envelope_fields(envelope: Seq<u8>) -> Option<(U256, U256, GasPricing)>;

/// Decodes an envelope with `ethereum::EnvelopedDecodable::decode` and hands
/// out the nonce, the gas limit and the price fields of the transaction,
/// each as it stands in the transaction. The result depends on the envelope
/// alone, and there is one exactly where the envelope has a hash.
#[verifier::external_body]
fn decode_envelope(envelope: &Vec<u8>) -> (r: Option<(U256, U256, GasPricing)>)
    ensures
        r == envelope_fields(envelope@),
        r is Some <==> envelope_hash(envelope@) is Some,
{
    Some(match TransactionV2::decode(envelope).ok()? {
        TransactionV2::Legacy(t) => {
            (U256(t.nonce.0), U256(t.gas_limit.0), GasPricing::Legacy { gas_price: U256(t.gas_price.0) })
        },
        TransactionV2::EIP2930(t) => {
            (U256(t.nonce.0), U256(t.gas_limit.0), GasPricing::EIP2930 { gas_price: U256(t.gas_price.0) })
        },
        TransactionV2::EIP1559(t) => (
            U256(t.nonce.0), U256(t.gas_limit.0),
            GasPricing::EIP1559 {
                max_fee_per_gas: U256(t.max_fee_per_gas.0),
                max_priority_fee_per_gas: U256(t.max_priority_fee_per_gas.0),
            },
        ),
    })
}

/// The signed transaction that an envelope and its signer make; an error
/// where the envelope does not decode, and where the nonce of its
/// transaction does not fit in 64 bits.
pub open spec fn signed_from(sender: H160, raw: Seq<u8>) -> Result<SignedTxView, EVMError> {
    match envelope_fields(raw) {
        None => Err(EVMError::InvalidEnvelope),
        Some((nonce, gas_limit, pricing)) => if nonce@ > u64::MAX {
            Err(EVMError::NonceOutOfRange)
        } else {
            Ok(SignedTxView { sender, nonce: nonce@ as u64, gas_limit, pricing, raw })
        },
    }
}

impl SignedTx {
    /// Makes a signed transaction from its envelope and the signer that was
    /// recovered from its signature. Fails where the envelope does not
    /// decode, and where the nonce does not fit in 64 bits.
    pub fn from_envelope(sender: H160, raw: Vec<u8>) -> (r: Result<SignedTx, EVMError>)
        ensures
            match signed_from(sender, raw@) {
                Ok(view) => r is Ok && r.unwrap()@ == view && envelope_hash(raw@) is Some,
                Err(e) => r == Err::<SignedTx, EVMError>(e),
            },
    {
        match decode_envelope(&raw) {
            None => Err(EVMError::InvalidEnvelope),
            Some((nonce, gas_limit, pricing)) => {
                if nonce.0[1] != 0 || nonce.0[2] != 0 || nonce.0[3] != 0 {
                    return Err(EVMError::NonceOutOfRange);
                }
                Ok(SignedTx { sender, nonce: nonce.0[0], gas_limit, pricing, raw })
            },
        }
    }
}

/// A credit to, or a debit from, an account's balance.
#[derive(Clone, Copy, Debug)]
pub struct BalanceUpdate {
    pub address: H160,
    pub amount: U256,
}

/// The deployment of a token contract.
#[derive(Clone, Copy, Debug)]
pub struct DeployContractData {
    /// The storage word that encodes the token's name.
    pub name: H256,
    /// The storage word that encodes the token's symbol.
    pub symbol: H256,
    /// Where the contract is to live.
    pub address: H160,
}

/// A change of one holder's balance inside a deployed token contract.
#[derive(Clone, Copy, Debug)]
pub struct DST20Data {
    /// The holder.
    pub to: H160,
    /// The storage key of the holder's balance inside the contract.
    pub balance_slot: H256,
    /// The token contract.
    pub contract: H160,
    /// By how much the balance changes.
    pub amount: U256,
    /// `true` to take tokens out of the balance, `false` to put them in.
    pub out: bool,
}

/// A privileged operation that the node itself puts in a block.
#[derive(Clone, Copy, Debug)]
pub enum SystemTx {
    DeployContract(DeployContractData),
    DST20Bridge(DST20Data),
    EvmIn(BalanceUpdate),
    EvmOut(BalanceUpdate),
}

/// One entry of a queue.
#[derive(Debug)]
pub enum QueueTx {
    SignedTx(SignedTx),
    SystemTx(SystemTx),
}

/// A queue entry as a plain value.
pub ghost enum QueueTxView {
    SignedTx(SignedTxView),
    SystemTx(SystemTx),
}

impl View for QueueTx {
    type V = QueueTxView;

    open spec fn view(&self) -> QueueTxView {
        match self {
            QueueTx::SignedTx(tx) => QueueTxView::SignedTx(tx@),
            QueueTx::SystemTx(tx) => QueueTxView::SystemTx(*tx),
        }
    }
}

impl Clone for QueueTx {
    fn clone(&self) -> (r: QueueTx)
        ensures
            r@ == self@,
    {
        match self {
            QueueTx::SignedTx(tx) => QueueTx::SignedTx(tx.clone()),
            QueueTx::SystemTx(tx) => QueueTx::SystemTx(*tx),
        }
    }
}

} // verus!
