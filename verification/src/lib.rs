//! Block finalization and transaction-queue execution for an EVM-compatible
//! execution layer: fee accounting, the per-block transaction queue, the
//! account state that system transactions act on, and the pipeline that turns
//! a queue into a block.

pub mod backend;
pub mod block;
pub mod encoding;
pub mod error;
pub mod evm;
pub mod execution;
pub mod executor;
pub mod fee;
pub mod hash;
pub mod laws;
pub mod seal;
pub mod transaction;
pub mod txqueue;
pub mod uint;
