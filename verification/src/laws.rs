//! What holds of every block that the pipeline makes.

use crate::backend::{account_at, StateView};
use crate::error::EVMError;
use crate::evm::{counter_of, counter_slot, finalized, queued, EVMServices};
use crate::execution::{
    advance, after_signed, after_system, awaits, failed, fees_agree, run_steps, step_spec,
    ExecutionView, Fixed, Phase, Progress,
};
use crate::executor::{system_effect, TxResponse};
use crate::hash::{H160, H256};
use crate::transaction::{DST20Data, QueueTxView, SystemTx};
use crate::txqueue::{sum_fees, QueueTxItemView, QueueView};
use crate::uint::U256;
use vstd::prelude::*;

verus! {

/// Whether every entry of a queue from a position on is a system
/// transaction.
pub open spec fn only_system_from(items: Seq<QueueTxItemView>, from: nat) -> bool {
    forall|i: int| from <= i < items.len() ==> (#[trigger] items[i]).queue_tx is SystemTx
}

/// Whether a system transaction deploys to an address or bridges into it.
pub open spec fn touches(tx: SystemTx, address: H160) -> bool {
    match tx {
        SystemTx::DeployContract(data) => data.address == address,
        SystemTx::DST20Bridge(data) => data.contract == address,
        _ => false,
    }
}

/// Whether no entry of a queue from a position on deploys to an address or
/// bridges into it.
pub open spec fn spares(items: Seq<QueueTxItemView>, from: nat, address: H160) -> bool {
    forall|i: int|
        from <= i < items.len() ==> ((#[trigger] items[i]).queue_tx matches QueueTxView::SystemTx(
            tx,
        ) ==> !touches(tx, address))
}

/// Whether an address holds code that is not the token template.
pub open spec fn holds_other_code(state: StateView, address: H160, token_hash: H256) -> bool {
    &&& account_at(state, address).code.len() > 0
    &&& account_at(state, address).code_hash != token_hash
}

/// Whether the counter contract of the services cannot be taken for a token:
/// before the first block its code is not empty and not the token template,
/// and after it the counter's address holds code that is not the token
/// template.
pub open spec fn counter_is_guarded(services: &EVMServices) -> bool {
    if services@.latest is None {
        services.counter_code().len() > 0 && services.counter_code_hash()
            != services.token_code_hash()
    } else {
        holds_other_code(services@.state, services.counter_address(), services.token_code_hash())
    }
}

/// A block that does not update the state leaves the services as they were:
/// the latest block, the account state and every queue.
pub proof fn lemma_dry_run_changes_nothing(
    services: &EVMServices,
    queue_id: u64,
    difficulty: u32,
    beneficiary: H160,
    timestamp: u64,
    base_fee: U256,
    outcomes: Seq<TxResponse>,
    state_root: H256,
    receipts_root: H256,
)
    ensures
        match services.block_of(
            queue_id,
            false,
            difficulty,
            beneficiary,
            timestamp,
            base_fee,
            outcomes,
            state_root,
            receipts_root,
        ) {
            Ok((after, _)) => after == services@,
            Err(_) => true,
        },
{
}

/// The block of a queue depends on the services only by their queues, their
/// latest block, their account state and their registry: a second run on
/// services that are the same in these, with the same outcomes and root
/// hashes, gives the same block.
pub proof fn lemma_same_run_same_block(
    first: &EVMServices,
    second: &EVMServices,
    queue_id: u64,
    update_state: bool,
    difficulty: u32,
    beneficiary: H160,
    timestamp: u64,
    base_fee: U256,
    outcomes: Seq<TxResponse>,
    state_root: H256,
    receipts_root: H256,
)
    requires
        first@ == second@,
        first.same_contracts(second),
    ensures
        first.block_of(
            queue_id,
            update_state,
            difficulty,
            beneficiary,
            timestamp,
            base_fee,
            outcomes,
            state_root,
            receipts_root,
        ) == second.block_of(
            queue_id,
            update_state,
            difficulty,
            beneficiary,
            timestamp,
            base_fee,
            outcomes,
            state_root,
            receipts_root,
        ),
{
}

/// Where running on seals a block, the fees of the block agree.
pub proof fn lemma_advance_sealed(f: Fixed, p: Progress)
    requires
        p.phase != Phase::Sealed,
    ensures
        advance(f, p).0.phase == Phase::Sealed ==> fees_agree(f, advance(f, p).0),
    decreases f.items.len() - p.cursor,
{
    if p.cursor < f.items.len() {
        let item = f.items[p.cursor as int];
        match item.queue_tx {
            QueueTxView::SystemTx(tx) => {
                lemma_advance_sealed(f, after_system(f, p, tx, item.tx_hash));
            },
            QueueTxView::SignedTx(_) => {},
        }
    }
}

/// Where a step seals a block, the fees of the block agree.
pub proof fn lemma_step_sealed(f: Fixed, p: Progress, outcome: Option<TxResponse>)
    ensures
        step_spec(f, p, outcome).1 is Ok && step_spec(f, p, outcome).0.phase == Phase::Sealed
            ==> fees_agree(f, step_spec(f, p, outcome).0),
{
    match outcome {
        None => {
            if p.phase == Phase::Ready {
                lemma_advance_sealed(f, p);
            }
        },
        Some(response) => {
            if awaits(f, p) {
                let item = f.items[p.cursor as int];
                let after = after_signed(
                    f,
                    p,
                    item.queue_tx->SignedTx_0,
                    item.tx_hash,
                    response,
                );
                if after.1 is Ok {
                    lemma_advance_sealed(f, after.0);
                }
            }
        },
    }
}

/// In every finalized block the burnt fees and the priority fees together
/// are exactly the fees that were recorded in the queue at admission.
pub proof fn lemma_fees_add_up(
    services: &EVMServices,
    queue_id: u64,
    update_state: bool,
    difficulty: u32,
    beneficiary: H160,
    timestamp: u64,
    base_fee: U256,
    outcomes: Seq<TxResponse>,
    state_root: H256,
    receipts_root: H256,
)
    requires
        services.wf(),
    ensures
        match services.block_of(
            queue_id,
            update_state,
            difficulty,
            beneficiary,
            timestamp,
            base_fee,
            outcomes,
            state_root,
            receipts_root,
        ) {
            Ok((_, info)) => info.total_burnt_fees + info.total_priority_fees
                == services@.queues[queue_id].total_fees,
            Err(_) => true,
        },
{
    let begun = services.begun(
        queue_id,
        update_state,
        difficulty,
        beneficiary,
        timestamp,
        base_fee,
    );
    if begun is Ok {
        let e = begun->Ok_0;
        services.lemma_totals_in_range(queue_id);
        U256::lemma_of_value(services@.queues[queue_id].total_fees);
        if outcomes.len() == 0 {
            lemma_step_sealed(e.fixed, e.progress, None);
        } else {
            let before = run_steps(e.fixed, e.progress, outcomes.drop_last());
            if before.1 is Ok {
                lemma_step_sealed(e.fixed, before.0, Some(outcomes.last()));
            }
        }
    }
}

/// A system transaction leaves the counter of an address as it is, where it
/// does not deploy to the address or bridge into it, and where the address
/// holds code other than the token template; such code stays as well.
pub proof fn lemma_system_keeps_counter(
    state: StateView,
    tx: SystemTx,
    token_code: Seq<u8>,
    token_hash: H256,
    address: H160,
)
    requires
        holds_other_code(state, address, token_hash) || !touches(tx, address),
    ensures
        match system_effect(state, tx, token_code, token_hash) {
            Ok(after) => counter_of(after, address) == counter_of(state, address) && (
            holds_other_code(state, address, token_hash) ==> holds_other_code(
                after,
                address,
                token_hash,
            )),
            Err(_) => true,
        },
{
}

/// Running on over system transactions alone leaves the counter of an
/// address as it is, where none of them deploys to the address or bridges
/// into it, and where the address holds code other than the token template.
pub proof fn lemma_advance_keeps_counter(f: Fixed, p: Progress, address: H160)
    requires
        only_system_from(f.items, p.cursor),
        holds_other_code(p.state, address, f.token_hash) || spares(f.items, p.cursor, address),
    ensures
        counter_of(advance(f, p).0.state, address) == counter_of(p.state, address),
    decreases f.items.len() - p.cursor,
{
    if p.cursor < f.items.len() {
        let item = f.items[p.cursor as int];
        match item.queue_tx {
            QueueTxView::SystemTx(tx) => {
                lemma_system_keeps_counter(p.state, tx, f.token_code, f.token_hash, address);
                lemma_advance_keeps_counter(f, after_system(f, p, tx, item.tx_hash), address);
            },
            QueueTxView::SignedTx(_) => {},
        }
    }
}

/// A block without signed transactions raises the counter of the counter
/// contract by one, so that the state after it is not the state before it.
/// This is stated for queues none of whose system transactions deploys to
/// the counter's address or bridges into it, and for any queue of system
/// transactions where the counter contract cannot be taken for a token.
pub proof fn lemma_empty_block_changes_state(
    services: &EVMServices,
    queue_id: u64,
    difficulty: u32,
    beneficiary: H160,
    timestamp: u64,
    base_fee: U256,
    state_root: H256,
    receipts_root: H256,
)
    requires
        services.wf(),
        services@.queues.contains_key(queue_id) ==> only_system_from(
            services@.queues[queue_id].transactions,
            0,
        ) && (counter_is_guarded(services) || spares(
            services@.queues[queue_id].transactions,
            0,
            services.counter_address(),
        )),
    ensures
        match services.block_of(
            queue_id,
            true,
            difficulty,
            beneficiary,
            timestamp,
            base_fee,
            Seq::empty(),
            state_root,
            receipts_root,
        ) {
            Ok((after, _)) => counter_of(after.state, services.counter_address()) == counter_of(
                services@.state,
                services.counter_address(),
            ) + 1 && after.state != services@.state,
            Err(_) => true,
        },
{
    let begun = services.begun(queue_id, true, difficulty, beneficiary, timestamp, base_fee);
    if begun is Ok {
        let e = begun->Ok_0;
        let address = services.counter_address();
        let counter = counter_of(services@.state, address);
        let slot = crate::backend::Slot {
            key: counter_slot(),
            value: H256::of_word(counter + 1),
        };
        H256::lemma_of_word_value(counter + 1);
        crate::backend::lemma_write_one(Map::empty(), slot);
        crate::backend::lemma_write_one(account_at(services@.state, address).storage, slot);
        assert(counter_of(e.progress.state, address) == counter + 1);
        lemma_advance_keeps_counter(e.fixed, e.progress, address);
    }
}

/// A signed transaction whose nonce is not its sender's account nonce when
/// its turn comes ends the execution in an error, and no block can be
/// finalized from that execution: the services stay as they were.
pub proof fn lemma_nonce_mismatch_is_fatal(
    f: Fixed,
    p: Progress,
    services: &EVMServices,
    state_root: H256,
    receipts_root: H256,
)
    requires
        p.phase == Phase::Ready,
        p.cursor < f.items.len(),
        f.items[p.cursor as int].queue_tx matches QueueTxView::SignedTx(tx) && account_at(
            p.state,
            tx.sender,
        ).nonce != tx.nonce,
    ensures
        step_spec(f, p, None).0 == failed(p),
        step_spec(f, p, None).1 matches Err(
            EVMError::InvalidNonce { address, account_nonce, tx_nonce },
        )
            && f.items[p.cursor as int].queue_tx matches QueueTxView::SignedTx(tx) && address
            == tx.sender && account_nonce == account_at(p.state, tx.sender).nonce && tx_nonce
            == tx.nonce,
        finalized(
            services@,
            ExecutionView { fixed: f, progress: step_spec(f, p, None).0 },
            state_root,
            receipts_root,
        ) is Err,
{
}

/// A bridge operation that takes more out of a holder's balance than the
/// balance holds fails without ending the execution: the state, and with it
/// the balance, stays as it was, and the entry's hash is recorded among the
/// failed ones.
pub proof fn lemma_bridge_out_beyond_balance(
    f: Fixed,
    p: Progress,
    data: DST20Data,
    tx_hash: [u8; 32],
)
    requires
        data.out,
        data.amount@ > crate::backend::storage_at(p.state, data.contract, data.balance_slot),
    ensures
        after_system(f, p, SystemTx::DST20Bridge(data), tx_hash) == (Progress {
            failed: p.failed.push(tx_hash),
            cursor: p.cursor + 1,
            ..p
        }),
{
}

/// An execution begins on a queue as it stands at one moment: the total of
/// the fees that it holds against the block is the sum of the fees recorded
/// for exactly the entries that it runs.
pub proof fn lemma_snapshot_is_consistent(
    services: &EVMServices,
    queue_id: u64,
    update_state: bool,
    difficulty: u32,
    beneficiary: H160,
    timestamp: u64,
    base_fee: U256,
)
    requires
        services.wf(),
    ensures
        match services.begun(queue_id, update_state, difficulty, beneficiary, timestamp, base_fee) {
            Ok(e) => e.fixed.context.recorded_fees@ == sum_fees(e.fixed.items),
            Err(_) => true,
        },
{
    if services@.queues.contains_key(queue_id) {
        services.lemma_totals_are_sums(queue_id);
        services.lemma_totals_in_range(queue_id);
        U256::lemma_of_value(services@.queues[queue_id].total_fees);
    }
}

/// Admission to one queue leaves every other queue as it is.
pub proof fn lemma_queues_are_independent(
    queues: Map<u64, QueueView>,
    queue_id: u64,
    tx: QueueTxView,
    tx_hash: [u8; 32],
    gas_used: u64,
    base_fee: nat,
    other: u64,
)
    requires
        other != queue_id,
    ensures
        match queued(queues, queue_id, tx, tx_hash, gas_used, base_fee) {
            Ok((after, _)) => after.contains_key(other) == queues.contains_key(other) && (
            queues.contains_key(other) ==> after[other] == queues[other]),
            Err(_) => true,
        },
{
}

} // verus!
