//! What the execution of one signed transaction hands back, and what a
//! system transaction does to the account state.

use crate::backend::{
    credited, debited, deployed, storage_at, storage_updated, Apply, Backend, Code, Slot,
    StateView,
};
use crate::error::EVMError;
use crate::evm::EVMServices;
use crate::hash::{bloom_accrued, Bloom, H160, H256};
use crate::transaction::SystemTx;
use crate::uint::max_u256;
use vstd::prelude::*;

verus! {

/// One event that a transaction emitted.
#[derive(Debug)]
pub struct Log {
    pub address: H160,
    pub topics: Vec<H256>,
    pub data: Vec<u8>,
}

/// The receipt of a transaction, as the `ethereum` crate holds it. It is
/// passed on as it comes.
#[verifier::external_type_specification]
#[verifier::external_body]
pub struct ExReceiptV3(ethereum::ReceiptV3);

/// The outcome of the execution of one signed transaction.
#[derive(Debug)]
pub struct TxResponse {
    /// Whether the execution came to a successful end.
    pub succeeded: bool,
    /// The gas that the execution used.
    pub used_gas: u64,
    /// The events that the execution emitted.
    pub logs: Vec<Log>,
    /// The changes that the execution makes to the account state, whether or
    /// not it succeeded.
    pub changes: Vec<Apply>,
    /// The receipt of the transaction.
    pub receipt: ethereum::ReceiptV3,
}

/// A filter after the topics of a list were added to it, first topic first.
pub open spec fn bloom_with_topics(bloom: Seq<u8>, topics: Seq<H256>) -> Seq<u8>
    decreases topics.len(),
{
    if topics.len() == 0 {
        bloom
    } else {
        bloom_accrued(bloom_with_topics(bloom, topics.drop_last()), topics.last()@)
    }
}

/// A filter after the address and the topics of each log of a list were
/// added to it, first log first.
pub open spec fn bloom_with_logs(bloom: Seq<u8>, logs: Seq<Log>) -> Seq<u8>
    decreases logs.len(),
{
    if logs.len() == 0 {
        bloom
    } else {
        bloom_with_topics(
            bloom_accrued(bloom_with_logs(bloom, logs.drop_last()), logs.last().address@),
            logs.last().topics@,
        )
    }
}

/// Adds the address and the topics of each log to a filter.
pub fn logs_bloom(logs: &Vec<Log>, bloom: &mut Bloom)
    ensures
        final(bloom)@ == bloom_with_logs(old(bloom)@, logs@),
{
    let mut i: usize = 0;
    assert(logs@.subrange(0, 0) =~= Seq::<Log>::empty());
    while i < logs.len()
        invariant
            i <= logs.len(),
            bloom@ == bloom_with_logs(old(bloom)@, logs@.subrange(0, i as int)),
        decreases logs.len() - i,
    {
        let log = &logs[i];
        let ghost start = bloom@;
        bloom.accrue(&log.address.0);
        let mut j: usize = 0;
        assert(log.topics@.subrange(0, 0) =~= Seq::<H256>::empty());
        while j < log.topics.len()
            invariant
                j <= log.topics.len(),
                bloom@ == bloom_with_topics(
                    bloom_accrued(start, log.address@),
                    log.topics@.subrange(0, j as int),
                ),
            decreases log.topics.len() - j,
        {
            bloom.accrue(&log.topics[j].0);
            proof {
                assert(log.topics@.subrange(0, j + 1).drop_last() =~= log.topics@.subrange(
                    0,
                    j as int,
                ));
            }
            j = j + 1;
        }
        proof {
            assert(log.topics@.subrange(0, j as int) =~= log.topics@);
            assert(logs@.subrange(0, i + 1).drop_last() =~= logs@.subrange(0, i as int));
        }
        i = i + 1;
    }
    assert(logs@.subrange(0, i as int) =~= logs@);
}

/// The storage key of a token contract's name.
pub open spec fn name_slot() -> H256 {
    H256::of_word(3)
}

/// The storage key of a token contract's symbol.
pub open spec fn symbol_slot() -> H256 {
    H256::of_word(4)
}

/// The storage that a token contract is deployed with.
pub open spec fn token_slots(name: H256, symbol: H256) -> Seq<Slot> {
    seq![Slot { key: name_slot(), value: name }, Slot { key: symbol_slot(), value: symbol }]
}

/// The balance that a holder of a token has after a bridge operation: the
/// balance held under `balance_slot` of `contract`, less `amount` where
/// `out` is set and plus `amount` where it is not. An error where `contract`
/// has no account, where its code is not the token template, and where the
/// new balance would leave the range of 256 bits.
pub open spec fn bridged_balance(
    state: StateView,
    token_hash: H256,
    contract: H160,
    balance_slot: H256,
    amount: nat,
    out: bool,
) -> Result<nat, EVMError> {
    if !state.contains_key(contract) {
        Err(EVMError::NotAContract)
    } else if state[contract].code_hash != token_hash {
        Err(EVMError::InvalidTokenCode)
    } else {
        let balance = storage_at(state, contract, balance_slot);
        if out {
            if balance < amount {
                Err(EVMError::BalanceOverflow)
            } else {
                Ok((balance - amount) as nat)
            }
        } else {
            if balance + amount > max_u256() {
                Err(EVMError::BalanceOverflow)
            } else {
                Ok(balance + amount)
            }
        }
    }
}

/// The state after a system transaction, or the error for which the
/// transaction leaves the state as it is.
pub open spec fn system_effect(
    state: StateView,
    tx: SystemTx,
    token_code: Seq<u8>,
    token_hash: H256,
) -> Result<StateView, EVMError> {
    match tx {
        SystemTx::EvmIn(update) => credited(state, update.address, update.amount@),
        SystemTx::EvmOut(update) => debited(state, update.address, update.amount@),
        SystemTx::DeployContract(data) => deployed(
            state,
            data.address,
            token_code,
            token_hash,
            token_slots(data.name, data.symbol),
        ),
        SystemTx::DST20Bridge(data) => match bridged_balance(
            state,
            token_hash,
            data.contract,
            data.balance_slot,
            data.amount@,
            data.out,
        ) {
            Ok(balance) => Ok(
                storage_updated(
                    state,
                    data.contract,
                    seq![Slot { key: data.balance_slot, value: H256::of_word(balance) }],
                ),
            ),
            Err(e) => Err(e),
        },
    }
}

/// Does to the state what a system transaction asks for. On an error the
/// state is left as it was.
pub fn apply_system(backend: &mut Backend, tx: &SystemTx, token: &Code) -> (r: Result<
    (),
    EVMError,
>)
    requires
        old(backend).wf(),
    ensures
        final(backend).wf(),
        match system_effect(old(backend)@, *tx, token.bytes@, token.hash) {
            Ok(state) => r is Ok && final(backend)@ == state,
            Err(e) => r == Err::<(), EVMError>(e) && final(backend)@ == old(backend)@,
        },
{
    match tx {
        SystemTx::EvmIn(update) => backend.add_balance(update.address, update.amount),
        SystemTx::EvmOut(update) => backend.sub_balance(update.address, update.amount),
        SystemTx::DeployContract(data) => {
            match EVMServices::dst20_contract(
                backend,
                token,
                data.address,
                data.name,
                data.symbol,
            ) {
                Ok(info) => backend.deploy_contract(info.address, info.bytecode, &info.storage),
                Err(e) => Err(e),
            }
        },
        SystemTx::DST20Bridge(data) => {
            match EVMServices::bridge_dst20(
                backend,
                &token.hash,
                data.contract,
                data.balance_slot,
                data.amount,
                data.out,
            ) {
                Ok(info) => {
                    backend.update_storage(info.address, &info.storage);
                    Ok(())
                },
                Err(e) => Err(e),
            }
        },
    }
}

} // verus!
