//! Block headers, and the latest block of a chain.

use crate::hash::{Bloom, H160, H256};
use crate::uint::U256;
use vstd::prelude::*;

verus! {

/// The header of a block, without what is derived from the block's body.
#[derive(Clone, Copy, Debug, PartialEq, Eq)]
pub struct Header {
    /// The hash of the block before this one; zero for the first block.
    pub parent_hash: H256,
    /// The account that receives the priority fees.
    pub beneficiary: H160,
    /// The root hash of the account state after the block.
    pub state_root: H256,
    /// The root hash of the receipts of the block's transactions.
    pub receipts_root: H256,
    /// The bloom filter over the logs of the block's transactions.
    pub logs_bloom: Bloom,
    pub difficulty: U256,
    /// The parent's number plus one; 0 for the first block.
    pub number: U256,
    pub gas_limit: U256,
    /// The gas that the block's transactions used together.
    pub gas_used: U256,
    pub timestamp: u64,
    /// The price per unit of gas that the block burns.
    pub base_fee: U256,
}

/// The latest block: its header, and the hash that identifies it.
#[derive(Clone, Copy, Debug, PartialEq, Eq)]
pub struct LatestBlock {
    pub header: Header,
    pub hash: [u8; 32],
}

} // verus!
