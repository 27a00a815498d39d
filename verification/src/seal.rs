//! The hashes that identify blocks and transactions, as the `ethereum` crate
//! computes them.

use crate::block::Header;
use ethereum::{Block, EnvelopedDecodable, PartialHeader, TransactionV2};
use ethereum_types::Bloom;
use primitive_types::{H160, H256, U256};
use vstd::prelude::*;

verus! {

/// The encoded envelopes of a list, as plain values.
pub open spec fn envelopes(transactions: Seq<Vec<u8>>) -> Seq<Seq<u8>> {
    transactions.map_values(|t: Vec<u8>| t@)
}

/// The hash of the block that `ethereum::Block::new` builds from a header
/// and the transactions that a list of envelopes decodes to; `None` where an
/// envelope does not decode.
pub uninterp spec fn sealed_hash(header: Header, transactions: Seq<Seq<u8>>) -> Option<[u8; 32]>;

/// The hash that `ethereum::TransactionV2::hash` gives the transaction that
/// an envelope decodes to; `None` where the envelope does not decode.
pub uninterp spec fn envelope_hash(envelope: Seq<u8>) -> Option<crate::hash::H256>;

/// Decodes each envelope with `ethereum::EnvelopedDecodable::decode`, builds
/// the block of the header and those transactions with
/// `ethereum::Block::new`, without ommers, and hashes the block's header with
/// `ethereum::Header::hash`. The header that is hashed has no extra data, a
/// zero mix hash and a zero nonce, and does not hold the base fee. The
/// result depends on the header and the envelopes alone.
#[verifier::external_body]
pub(crate) fn seal(header: &Header, transactions: &Vec<Vec<u8>>) -> (r: Option<[u8; 32]>)
    ensures
        r == sealed_hash(*header, envelopes(transactions@)),
{
    let partial = PartialHeader {
        parent_hash: H256(header.parent_hash.0),
        beneficiary: H160(header.beneficiary.0),
        state_root: H256(header.state_root.0),
        receipts_root: H256(header.receipts_root.0),
        logs_bloom: Bloom(header.logs_bloom.0),
        difficulty: U256(header.difficulty.0),
        number: U256(header.number.0),
        gas_limit: U256(header.gas_limit.0),
        gas_used: U256(header.gas_used.0),
        timestamp: header.timestamp, extra_data: Default::default(),
        mix_hash: Default::default(), nonce: Default::default(),
    };
    let txs: Option<Vec<_>> = transactions.iter().map(|t| TransactionV2::decode(t).ok()).collect();
    Some(Block::new(partial, txs?, vec![]).header.hash().0)
}

/// Decodes an envelope with `ethereum::EnvelopedDecodable::decode` and hashes
/// the transaction with `ethereum::TransactionV2::hash`. The result depends
/// on the envelope alone.
#[verifier::external_body]
pub(crate) fn hash_envelope(envelope: &Vec<u8>) -> (r: Option<crate::hash::H256>)
    ensures
        r == envelope_hash(envelope@),
{
    TransactionV2::decode(envelope).ok().map(|t| crate::hash::H256(t.hash().0))
}

} // verus!
