//! The execution of the queue of one block candidate.
//!
//! Executing a signed transaction is the work of an interpreter that lives
//! outside this library. The execution is therefore a machine that is driven
//! from outside: a step does the system transactions that are next in the
//! queue and hands out the signed transaction that follows them; the next
//! step takes the outcome of that transaction back. At the end of the queue
//! the fees are held against the fees recorded at admission, and the block
//! is sealed or the execution fails.

use crate::backend::{account_at, applied_all, Backend, Code, StateView};
use crate::error::EVMError;
use crate::executor::{
    apply_system, bloom_with_logs, logs_bloom, system_effect, TxResponse,
};
use crate::fee::{calculate_gas_fee, calculate_prepay_gas_fee, checked_gas_fee, prepay_gas_fee};
use crate::hash::{Bloom, H160, H256};
use crate::seal::envelopes;
use crate::transaction::{copy_bytes, QueueTx, QueueTxView, SignedTxView, SystemTx};
use crate::txqueue::{items_view, QueueTxItem, QueueTxItemView};
use crate::uint::{max_u256, U256};
use vstd::prelude::*;

verus! {

/// How far the execution of a block has come.
#[derive(Clone, Copy, Debug, PartialEq, Eq)]
pub enum Phase {
    /// The next step is taken without an outcome.
    Ready,
    /// A signed transaction was handed out; the next step takes its outcome.
    Awaiting,
    /// Every entry is done and the fees agree: the block can be finalized.
    Sealed,
    /// The execution ended in an error; its block is lost.
    Failed,
}

/// What is to be done after a step.
#[derive(Clone, Copy, Debug, PartialEq, Eq)]
pub enum Action {
    /// Execute the signed transaction at `index` of the queue on the state
    /// of the execution, with `prepay` taken from the sender beforehand, and
    /// hand the outcome to the next step.
    Execute { index: usize, prepay: U256 },
    /// Compute the root hashes of the state and of the receipts, and
    /// finalize the block.
    Seal,
}

/// What is fixed when the execution of a block begins.
#[derive(Clone, Copy, Debug)]
pub struct BlockContext {
    /// The queue that the block is made of.
    pub queue_id: u64,
    /// Whether the block is to become the latest block.
    pub update_state: bool,
    /// The hash of the latest block; zero where there is none.
    pub parent_hash: H256,
    /// The number of the latest block plus one; 0 where there is none.
    pub number: U256,
    pub beneficiary: H160,
    pub timestamp: u64,
    pub difficulty: u32,
    pub base_fee: U256,
    pub gas_limit: U256,
    /// The total of the fees recorded in the queue when the execution began.
    pub recorded_fees: U256,
}

/// What an execution works on without changing it.
pub ghost struct Fixed {
    pub context: BlockContext,
    /// The code of the token template.
    pub token_code: Seq<u8>,
    /// The hash of the code of the token template.
    pub token_hash: H256,
    /// The entries of the queue when the execution began.
    pub items: Seq<QueueTxItemView>,
}

/// What an execution has done so far.
pub ghost struct Progress {
    pub phase: Phase,
    /// The account state after the entries that are done.
    pub state: StateView,
    /// How many entries are done.
    pub cursor: nat,
    /// The gas that the signed transactions used together.
    pub total_gas_used: nat,
    /// The fees that the signed transactions cost together.
    pub total_gas_fees: nat,
    /// The hashes of the entries that failed.
    pub failed: Seq<[u8; 32]>,
    /// The filter over the logs of the signed transactions.
    pub logs_bloom: Seq<u8>,
    /// The envelopes of the signed transactions.
    pub transactions: Seq<Seq<u8>>,
    /// The receipts of the signed transactions.
    pub receipts: Seq<ethereum::ReceiptV3>,
}

/// An execution as a plain value.
pub ghost struct ExecutionView {
    pub fixed: Fixed,
    pub progress: Progress,
}

/// The progress of an execution at its start, on a given state.
pub open spec fn started(state: StateView) -> Progress {
    Progress {
        phase: Phase::Ready,
        state,
        cursor: 0,
        total_gas_used: 0,
        total_gas_fees: 0,
        failed: Seq::empty(),
        logs_bloom: Seq::new(256, |i: int| 0u8),
        transactions: Seq::empty(),
        receipts: Seq::empty(),
    }
}

/// The progress of an execution that ended in an error.
pub open spec fn failed(p: Progress) -> Progress {
    Progress { phase: Phase::Failed, ..p }
}

/// The progress after a system transaction: the state as the transaction
/// leaves it, or, where the transaction fails, the state as it was and the
/// entry's hash among the failed ones. A system transaction never ends the
/// execution.
pub open spec fn after_system(f: Fixed, p: Progress, tx: SystemTx, tx_hash: [u8; 32]) -> Progress {
    match system_effect(p.state, tx, f.token_code, f.token_hash) {
        Ok(state) => Progress { state, cursor: p.cursor + 1, ..p },
        Err(_) => Progress { failed: p.failed.push(tx_hash), cursor: p.cursor + 1, ..p },
    }
}

/// The progress after the outcome of a signed transaction: its changes made
/// to the state, its gas and its fee added to the totals, its logs added to
/// the filter, its envelope added to the block and its receipt to the
/// receipts, and, where it did not succeed, its hash among the failed ones. An error where the fee or a
/// total leaves its range.
pub open spec fn after_signed(
    f: Fixed,
    p: Progress,
    tx: SignedTxView,
    tx_hash: [u8; 32],
    response: TxResponse,
) -> (Progress, Result<(), EVMError>) {
    match checked_gas_fee(tx.pricing, response.used_gas as nat, f.context.base_fee@) {
        None => (failed(p), Err(EVMError::FeeOverflow)),
        Some(fee) => if p.total_gas_used + response.used_gas > u64::MAX {
            (failed(p), Err(EVMError::GasOverflow))
        } else if p.total_gas_fees + fee > max_u256() {
            (failed(p), Err(EVMError::FeeOverflow))
        } else {
            (
                Progress {
                    phase: Phase::Ready,
                    state: applied_all(p.state, response.changes@),
                    cursor: p.cursor + 1,
                    total_gas_used: p.total_gas_used + response.used_gas as nat,
                    total_gas_fees: p.total_gas_fees + fee,
                    failed: if response.succeeded {
                        p.failed
                    } else {
                        p.failed.push(tx_hash)
                    },
                    logs_bloom: bloom_with_logs(p.logs_bloom, response.logs@),
                    transactions: p.transactions.push(tx.raw),
                    receipts: p.receipts.push(response.receipt),
                },
                Ok(()),
            )
        },
    }
}

/// The fees that a block burns: the gas used at the base fee.
pub open spec fn burnt_fees(f: Fixed, p: Progress) -> nat {
    p.total_gas_used * f.context.base_fee@
}

/// The fees that the beneficiary of a block receives: what the transactions
/// cost above the burnt fees.
pub open spec fn priority_fees(f: Fixed, p: Progress) -> nat {
    (p.total_gas_fees - burnt_fees(f, p)) as nat
}

/// Whether the fees of a block can be told and agree with the queue: the
/// burnt fees fit in 256 bits and are no more than the transactions cost,
/// and burnt and priority fees together are the fees recorded in the queue.
pub open spec fn fees_agree(f: Fixed, p: Progress) -> bool {
    &&& burnt_fees(f, p) <= max_u256()
    &&& burnt_fees(f, p) <= p.total_gas_fees
    &&& burnt_fees(f, p) + priority_fees(f, p) == f.context.recorded_fees@
}

/// The end of an execution: the block is sealed where the fees agree, and
/// the execution fails where they do not.
pub open spec fn seal_check(f: Fixed, p: Progress) -> (Progress, Result<Action, EVMError>) {
    if burnt_fees(f, p) > max_u256() || burnt_fees(f, p) > p.total_gas_fees {
        (failed(p), Err(EVMError::FeeOverflow))
    } else if burnt_fees(f, p) + priority_fees(f, p) != f.context.recorded_fees@ {
        (
            failed(p),
            Err(
                EVMError::FeeMismatch {
                    burnt_fees: U256::of(burnt_fees(f, p)),
                    priority_fees: U256::of(priority_fees(f, p)),
                    total_fees: f.context.recorded_fees,
                },
            ),
        )
    } else {
        (Progress { phase: Phase::Sealed, ..p }, Ok(Action::Seal))
    }
}

/// Runs an execution on from a point at which no outcome is awaited: system
/// transactions are done one after the other until a signed transaction or
/// the end of the queue is reached. A signed transaction whose nonce is not
/// its sender's account nonce ends the execution in an error, and so does
/// one whose prepaid fee does not fit in 256 bits; any other is handed out
/// for execution.
pub open spec fn advance(f: Fixed, p: Progress) -> (Progress, Result<Action, EVMError>)
    decreases f.items.len() - p.cursor,
{
    if p.cursor >= f.items.len() {
        seal_check(f, p)
    } else {
        let item = f.items[p.cursor as int];
        match item.queue_tx {
            QueueTxView::SystemTx(tx) => advance(f, after_system(f, p, tx, item.tx_hash)),
            QueueTxView::SignedTx(tx) => {
                let nonce = account_at(p.state, tx.sender).nonce;
                if nonce != tx.nonce {
                    (
                        failed(p),
                        Err(
                            EVMError::InvalidNonce {
                                address: tx.sender,
                                account_nonce: nonce,
                                tx_nonce: tx.nonce,
                            },
                        ),
                    )
                } else if prepay_gas_fee(tx.pricing, tx.gas_limit@) > max_u256() {
                    (failed(p), Err(EVMError::FeeOverflow))
                } else {
                    (
                        Progress { phase: Phase::Awaiting, ..p },
                        Ok(
                            Action::Execute {
                                index: p.cursor as usize,
                                prepay: U256::of(prepay_gas_fee(tx.pricing, tx.gas_limit@)),
                            },
                        ),
                    )
                }
            },
        }
    }
}

/// Whether an execution awaits the outcome of the signed transaction at its
/// cursor.
pub open spec fn awaits(f: Fixed, p: Progress) -> bool {
    &&& p.phase == Phase::Awaiting
    &&& p.cursor < f.items.len()
    &&& f.items[p.cursor as int].queue_tx is SignedTx
}

/// One step of an execution. Without an outcome, an execution that is ready
/// runs on. With an outcome, an execution that awaits one takes it in and
/// runs on. Any other step ends the execution in an error.
pub open spec fn step_spec(f: Fixed, p: Progress, outcome: Option<TxResponse>) -> (
    Progress,
    Result<Action, EVMError>,
) {
    match outcome {
        None => if p.phase == Phase::Ready {
            advance(f, p)
        } else {
            (failed(p), Err(EVMError::UnexpectedStep))
        },
        Some(response) => if awaits(f, p) {
            let item = f.items[p.cursor as int];
            let after = after_signed(f, p, item.queue_tx->SignedTx_0, item.tx_hash, response);
            match after.1 {
                Ok(_) => advance(f, after.0),
                Err(e) => (after.0, Err(e)),
            }
        } else {
            (failed(p), Err(EVMError::UnexpectedStep))
        },
    }
}

/// An execution after a first step without an outcome and one step for each
/// outcome of a list; an error ends it.
pub open spec fn run_steps(f: Fixed, p: Progress, outcomes: Seq<TxResponse>) -> (
    Progress,
    Result<Action, EVMError>,
)
    decreases outcomes.len(),
{
    if outcomes.len() == 0 {
        step_spec(f, p, None)
    } else {
        let before = run_steps(f, p, outcomes.drop_last());
        match before.1 {
            Ok(_) => step_spec(f, before.0, Some(outcomes.last())),
            Err(_) => before,
        }
    }
}

/// What an execution holds when it is taken apart.
pub(crate) struct ExecutionParts {
    pub context: BlockContext,
    pub phase: Phase,
    pub backend: Backend,
    pub total_gas_used: u64,
    pub total_gas_fees: U256,
    pub failed: Vec<[u8; 32]>,
    pub logs_bloom: Bloom,
    pub transactions: Vec<Vec<u8>>,
}

/// The execution of the queue of one block candidate.
pub struct BlockExecution {
    context: BlockContext,
    token: Code,
    items: Vec<QueueTxItem>,
    phase: Phase,
    backend: Backend,
    cursor: usize,
    total_gas_used: u64,
    total_gas_fees: U256,
    failed: Vec<[u8; 32]>,
    logs_bloom: Bloom,
    transactions: Vec<Vec<u8>>,
    receipts: Vec<ethereum::ReceiptV3>,
}

impl View for BlockExecution {
    type V = ExecutionView;

    closed spec fn view(&self) -> ExecutionView {
        ExecutionView {
            fixed: Fixed {
                context: self.context,
                token_code: self.token.bytes@,
                token_hash: self.token.hash,
                items: items_view(self.items@),
            },
            progress: Progress {
                phase: self.phase,
                state: self.backend@,
                cursor: self.cursor as nat,
                total_gas_used: self.total_gas_used as nat,
                total_gas_fees: self.total_gas_fees@,
                failed: self.failed@,
                logs_bloom: self.logs_bloom@,
                transactions: envelopes(self.transactions@),
                receipts: self.receipts@,
            },
        }
    }
}

impl BlockExecution {
    /// The invariant of an execution: its state is well formed, its cursor
    /// is within the queue, it holds one receipt for each transaction of the
    /// block, it awaits an outcome only for a signed transaction, and it is
    /// sealed only at the end of the queue and with fees that agree.
    pub closed spec fn wf(&self) -> bool {
        &&& self.backend.wf()
        &&& self.cursor <= self.items@.len()
        &&& self.receipts@.len() == self.transactions@.len()
        &&& self.phase == Phase::Awaiting ==> awaits(self@.fixed, self@.progress)
        &&& self.phase == Phase::Sealed ==> self.cursor == self.items@.len() && fees_agree(
            self@.fixed,
            self@.progress,
        )
    }

    /// An execution holds one receipt for each transaction of its block.
    pub proof fn lemma_one_receipt_each(&self)
        requires
            self.wf(),
        ensures
            self@.progress.receipts.len() == self@.progress.transactions.len(),
    {
    }

    /// A sealed execution is at the end of its queue, and its fees agree.
    pub proof fn lemma_sealed(&self)
        requires
            self.wf(),
            self@.progress.phase == Phase::Sealed,
        ensures
            self@.progress.cursor == self@.fixed.items.len(),
            fees_agree(self@.fixed, self@.progress),
    {
    }

    /// The execution of a queue at its start: nothing is done yet, and the
    /// state is the one given.
    pub(crate) fn begin(
        context: BlockContext,
        token: Code,
        items: Vec<QueueTxItem>,
        backend: Backend,
    ) -> (r: BlockExecution)
        requires
            backend.wf(),
        ensures
            r.wf(),
            r@ == (ExecutionView {
                fixed: Fixed {
                    context,
                    token_code: token.bytes@,
                    token_hash: token.hash,
                    items: items_view(items@),
                },
                progress: started(backend@),
            }),
    {
        let execution = BlockExecution {
            context,
            token,
            items,
            phase: Phase::Ready,
            backend,
            cursor: 0,
            total_gas_used: 0,
            total_gas_fees: U256::zero(),
            failed: Vec::new(),
            logs_bloom: Bloom::zero(),
            transactions: Vec::new(),
            receipts: Vec::new(),
        };
        proof {
            assert(envelopes(execution.transactions@) =~= Seq::<Seq<u8>>::empty());
        }
        execution
    }

    /// Takes the execution apart into what a block is made of.
    pub(crate) fn into_parts(self) -> (r: ExecutionParts)
        requires
            self.wf(),
        ensures
            r.backend.wf(),
            r.context == self@.fixed.context,
            r.phase == self@.progress.phase,
            r.backend@ == self@.progress.state,
            r.total_gas_used == self@.progress.total_gas_used,
            r.total_gas_fees@ == self@.progress.total_gas_fees,
            r.failed@ == self@.progress.failed,
            r.logs_bloom@ == self@.progress.logs_bloom,
            envelopes(r.transactions@) == self@.progress.transactions,
            r.phase == Phase::Sealed ==> fees_agree(self@.fixed, self@.progress),
    {
        ExecutionParts {
            context: self.context,
            phase: self.phase,
            backend: self.backend,
            total_gas_used: self.total_gas_used,
            total_gas_fees: self.total_gas_fees,
            failed: self.failed,
            logs_bloom: self.logs_bloom,
            transactions: self.transactions,
        }
    }

    /// What was fixed when the execution began.
    pub fn context(&self) -> (r: BlockContext)
        ensures
            r == self@.fixed.context,
    {
        self.context
    }

    /// How far the execution has come.
    pub fn phase(&self) -> (r: Phase)
        ensures
            r == self@.progress.phase,
    {
        self.phase
    }

    /// The account state after the entries that are done: the state on which
    /// a transaction that was handed out is to be executed.
    pub fn backend(&self) -> (r: &Backend)
        requires
            self.wf(),
        ensures
            r.wf(),
            r@ == self@.progress.state,
    {
        &self.backend
    }

    /// The entries of the queue when the execution began.
    pub fn items(&self) -> (r: &Vec<QueueTxItem>)
        ensures
            items_view(r@) == self@.fixed.items,
    {
        &self.items
    }

    /// The envelopes of the signed transactions that were executed so far:
    /// the transactions of the block, in their order.
    pub fn transactions(&self) -> (r: &Vec<Vec<u8>>)
        ensures
            envelopes(r@) == self@.progress.transactions,
    {
        &self.transactions
    }

    /// The receipts of the signed transactions that were executed so far, in
    /// the order of the transactions.
    pub fn receipts(&self) -> (r: &Vec<ethereum::ReceiptV3>)
        ensures
            r@ == self@.progress.receipts,
    {
        &self.receipts
    }

    /// The hashes of the entries that failed so far, in their order.
    pub fn failed(&self) -> (r: &Vec<[u8; 32]>)
        ensures
            r@ == self@.progress.failed,
    {
        &self.failed
    }

    /// The fees that the signed transactions cost together so far.
    pub fn total_gas_fees(&self) -> (r: U256)
        ensures
            r@ == self@.progress.total_gas_fees,
    {
        self.total_gas_fees
    }

    /// The gas that the signed transactions used together so far.
    pub fn total_gas_used(&self) -> (r: u64)
        ensures
            r == self@.progress.total_gas_used,
    {
        self.total_gas_used
    }

    /// The filter over the logs of the signed transactions so far.
    pub fn logs_bloom(&self) -> (r: Bloom)
        ensures
            r@ == self@.progress.logs_bloom,
    {
        self.logs_bloom
    }

    /// Ends the execution in an error.
    fn fail(&mut self, e: EVMError) -> (r: Result<Action, EVMError>)
        requires
            old(self).wf(),
        ensures
            final(self).wf(),
            final(self)@.fixed == old(self)@.fixed,
            final(self)@.progress == failed(old(self)@.progress),
            r == Err::<Action, EVMError>(e),
    {
        self.phase = Phase::Failed;
        Err(e)
    }

    /// Tells whether the fees agree at the end of the queue, and seals the
    /// block where they do.
    fn seal_check(&mut self) -> (r: Result<Action, EVMError>)
        requires
            old(self).wf(),
            old(self).cursor == old(self).items@.len(),
        ensures
            final(self).wf(),
            final(self)@.fixed == old(self)@.fixed,
            (final(self)@.progress, r) == seal_check(old(self)@.fixed, old(self)@.progress),
    {
        let burnt = match U256::from_u64(self.total_gas_used).checked_mul(self.context.base_fee) {
            Some(burnt) => burnt,
            None => {
                return self.fail(EVMError::FeeOverflow);
            },
        };
        let priority = match self.total_gas_fees.checked_sub(burnt) {
            Some(priority) => priority,
            None => {
                return self.fail(EVMError::FeeOverflow);
            },
        };
        if !self.total_gas_fees.eq(&self.context.recorded_fees) {
            proof {
                burnt.lemma_of();
                priority.lemma_of();
            }
            return self.fail(
                EVMError::FeeMismatch {
                    burnt_fees: burnt,
                    priority_fees: priority,
                    total_fees: self.context.recorded_fees,
                },
            );
        }
        self.phase = Phase::Sealed;
        Ok(Action::Seal)
    }

    /// Runs on from a point at which no outcome is awaited.
    fn advance(&mut self) -> (r: Result<Action, EVMError>)
        requires
            old(self).wf(),
            old(self).phase == Phase::Ready,
        ensures
            final(self).wf(),
            final(self)@.fixed == old(self)@.fixed,
            (final(self)@.progress, r) == advance(old(self)@.fixed, old(self)@.progress),
    {
        let ghost f = self@.fixed;
        let ghost start = self@.progress;
        loop
            invariant
                self.wf(),
                self.phase == Phase::Ready,
                self@.fixed == f,
                f == old(self)@.fixed,
                start == old(self)@.progress,
                advance(f, self@.progress) == advance(f, start),
            decreases self.items@.len() - self.cursor,
        {
            if self.cursor >= self.items.len() {
                return self.seal_check();
            }
            let tx_hash = self.items[self.cursor].tx_hash;
            match &self.items[self.cursor].queue_tx {
                QueueTx::SystemTx(tx) => {
                    let tx = *tx;
                    match apply_system(&mut self.backend, &tx, &self.token) {
                        Ok(()) => {},
                        Err(_) => {
                            self.failed.push(tx_hash);
                        },
                    }
                    self.cursor = self.cursor + 1;
                },
                QueueTx::SignedTx(tx) => {
                    let nonce = self.backend.get_nonce(&tx.sender);
                    if nonce != tx.nonce {
                        let e = EVMError::InvalidNonce {
                            address: tx.sender,
                            account_nonce: nonce,
                            tx_nonce: tx.nonce,
                        };
                        return self.fail(e);
                    }
                    let prepay = match calculate_prepay_gas_fee(tx) {
                        Ok(prepay) => prepay,
                        Err(_) => {
                            return self.fail(EVMError::FeeOverflow);
                        },
                    };
                    proof {
                        prepay.lemma_of();
                    }
                    self.phase = Phase::Awaiting;
                    return Ok(Action::Execute { index: self.cursor, prepay });
                },
            }
        }
    }

    /// Takes in the outcome of the signed transaction that was handed out.
    fn record(&mut self, response: TxResponse) -> (r: Result<(), EVMError>)
        requires
            old(self).wf(),
            old(self).phase == Phase::Awaiting,
        ensures
            final(self).wf(),
            final(self)@.fixed == old(self)@.fixed,
            (final(self)@.progress, r) == after_signed(
                old(self)@.fixed,
                old(self)@.progress,
                old(self)@.fixed.items[old(self)@.progress.cursor as int].queue_tx->SignedTx_0,
                old(self)@.fixed.items[old(self)@.progress.cursor as int].tx_hash,
                response,
            ),
            r is Ok ==> final(self).phase == Phase::Ready,
    {
        let count = self.items.len();
        assert(self.cursor < count);
        let next = self.cursor + 1;
        let tx_hash = self.items[self.cursor].tx_hash;
        let (fee, raw) = match &self.items[self.cursor].queue_tx {
            QueueTx::SignedTx(tx) => {
                let fee = calculate_gas_fee(
                    tx,
                    U256::from_u64(response.used_gas),
                    self.context.base_fee,
                );
                (fee, copy_bytes(&tx.raw))
            },
            QueueTx::SystemTx(_) => {
                self.phase = Phase::Failed;
                return Err(EVMError::UnexpectedStep);
            },
        };
        let fee = match fee {
            Ok(fee) => fee,
            Err(_) => {
                self.phase = Phase::Failed;
                return Err(EVMError::FeeOverflow);
            },
        };
        let gas = match self.total_gas_used.checked_add(response.used_gas) {
            Some(gas) => gas,
            None => {
                self.phase = Phase::Failed;
                return Err(EVMError::GasOverflow);
            },
        };
        let fees = match self.total_gas_fees.checked_add(fee) {
            Some(fees) => fees,
            None => {
                self.phase = Phase::Failed;
                return Err(EVMError::FeeOverflow);
            },
        };
        if !response.succeeded {
            self.failed.push(tx_hash);
        }
        self.backend.apply_all(&response.changes);
        logs_bloom(&response.logs, &mut self.logs_bloom);
        proof {
            assert(envelopes(self.transactions@.push(raw)) =~= envelopes(self.transactions@).push(
                raw@,
            ));
        }
        self.transactions.push(raw);
        self.receipts.push(response.receipt);
        self.total_gas_used = gas;
        self.total_gas_fees = fees;
        self.cursor = next;
        self.phase = Phase::Ready;
        Ok(())
    }

    /// Takes one step. The first step, and every step after a system
    /// transaction, is taken without an outcome; a step after
    /// `Action::Execute` takes the outcome of that execution. After an error
    /// the execution is lost.
    pub fn step(&mut self, outcome: Option<TxResponse>) -> (r: Result<Action, EVMError>)
        requires
            old(self).wf(),
        ensures
            final(self).wf(),
            final(self)@.fixed == old(self)@.fixed,
            (final(self)@.progress, r) == step_spec(
                old(self)@.fixed,
                old(self)@.progress,
                outcome,
            ),
    {
        match outcome {
            None => {
                match self.phase {
                    Phase::Ready => self.advance(),
                    _ => self.fail(EVMError::UnexpectedStep),
                }
            },
            Some(response) => {
                match self.phase {
                    Phase::Awaiting => {
                        match self.record(response) {
                            Ok(()) => self.advance(),
                            Err(e) => Err(e),
                        }
                    },
                    _ => self.fail(EVMError::UnexpectedStep),
                }
            },
        }
    }
}

} // verus!
