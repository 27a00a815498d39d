//! The transaction queues of the block candidates.
//!
//! Each candidate block has one queue, found by its id. A queue only grows:
//! entries are kept in the order of their admission, together with the fee
//! recorded for each and the running total of those fees.

use crate::error::EVMError;
use crate::fee::{calculate_gas_fee, checked_gas_fee};
use crate::transaction::{QueueTx, QueueTxView};
use crate::uint::{max_u256, U256};
use std::collections::HashMap;
use vstd::prelude::*;

verus! {

broadcast use vstd::std_specs::hash::group_hash_axioms;

/// One admitted entry of a queue.
#[derive(Debug)]
pub struct QueueTxItem {
    /// The transaction.
    pub queue_tx: QueueTx,
    /// The hash under which the entry is reported.
    pub tx_hash: [u8; 32],
    /// The fee recorded for the entry when it was admitted.
    pub tx_fee: U256,
    /// The gas that the entry was estimated to use.
    pub gas_used: u64,
}

/// An admitted entry as a plain value.
pub ghost struct QueueTxItemView {
    pub queue_tx: QueueTxView,
    pub tx_hash: [u8; 32],
    pub tx_fee: nat,
    pub gas_used: u64,
}

impl View for QueueTxItem {
    type V = QueueTxItemView;

    open spec fn view(&self) -> QueueTxItemView {
        QueueTxItemView {
            queue_tx: self.queue_tx@,
            tx_hash: self.tx_hash,
            tx_fee: self.tx_fee@,
            gas_used: self.gas_used,
        }
    }
}

impl Clone for QueueTxItem {
    fn clone(&self) -> (r: QueueTxItem)
        ensures
            r@ == self@,
    {
        QueueTxItem {
            queue_tx: self.queue_tx.clone(),
            tx_hash: self.tx_hash,
            tx_fee: self.tx_fee,
            gas_used: self.gas_used,
        }
    }
}

/// The entries of a vector as plain values, in order.
pub open spec fn items_view(items: Seq<QueueTxItem>) -> Seq<QueueTxItemView> {
    items.map_values(|item: QueueTxItem| item@)
}

/// The sum of the fees recorded for the entries.
pub open spec fn sum_fees(items: Seq<QueueTxItemView>) -> nat
    decreases items.len(),
{
    if items.len() == 0 {
        0
    } else {
        sum_fees(items.drop_last()) + items.last().tx_fee
    }
}

/// The fee that admission records for an entry: for a signed transaction the
/// fee of the estimated gas at the given base fee, for a system transaction
/// nothing. `None` where the fee does not fit in 256 bits.
pub open spec fn admission_fee(tx: QueueTxView, gas_used: u64, base_fee: nat) -> Option<nat> {
    match tx {
        QueueTxView::SignedTx(signed_tx) => checked_gas_fee(
            signed_tx.pricing,
            gas_used as nat,
            base_fee,
        ),
        QueueTxView::SystemTx(_) => Some(0nat),
    }
}

/// A queue as a plain value.
pub ghost struct QueueView {
    /// The entries, in the order of their admission.
    pub transactions: Seq<QueueTxItemView>,
    /// The running total of the fees recorded for the entries.
    pub total_fees: nat,
}

/// What a queue is after the admission of one more entry, or `None` where
/// the entry's fee or the new total does not fit in 256 bits.
pub open spec fn queue_after(
    queue: QueueView,
    tx: QueueTxView,
    tx_hash: [u8; 32],
    gas_used: u64,
    base_fee: nat,
) -> Option<QueueView> {
    match admission_fee(tx, gas_used, base_fee) {
        Some(fee) => if queue.total_fees + fee <= max_u256() {
            Some(
                QueueView {
                    transactions: queue.transactions.push(
                        QueueTxItemView { queue_tx: tx, tx_hash, tx_fee: fee, gas_used },
                    ),
                    total_fees: queue.total_fees + fee,
                },
            )
        } else {
            None
        },
        None => None,
    }
}

/// The queue of one block candidate.
#[derive(Debug)]
pub struct TransactionQueue {
    transactions: Vec<QueueTxItem>,
    total_fees: U256,
}

impl View for TransactionQueue {
    type V = QueueView;

    closed spec fn view(&self) -> QueueView {
        QueueView { transactions: items_view(self.transactions@), total_fees: self.total_fees@ }
    }
}

impl TransactionQueue {
    /// The invariant of a queue: the total is the sum of the recorded fees.
    pub closed spec fn wf(&self) -> bool {
        self.total_fees@ == sum_fees(items_view(self.transactions@))
    }

    /// In a well-formed queue the total is the sum of the recorded fees.
    pub proof fn lemma_total_is_sum(&self)
        requires
            self.wf(),
        ensures
            self@.total_fees == sum_fees(self@.transactions),
    {
    }

    /// An empty queue.
    pub fn new() -> (r: TransactionQueue)
        ensures
            r.wf(),
            r@ == (QueueView { transactions: Seq::empty(), total_fees: 0 }),
    {
        let r = TransactionQueue { transactions: Vec::new(), total_fees: U256::zero() };
        assert(items_view(r.transactions@) =~= Seq::empty());
        r
    }

    /// Admits one entry at the end of the queue and adds its fee to the
    /// total. On an error the queue is left as it was.
    pub fn queue_tx(&mut self, tx: QueueTx, tx_hash: [u8; 32], gas_used: u64, base_fee: U256) -> (r:
        Result<(), EVMError>)
        requires
            old(self).wf(),
        ensures
            final(self).wf(),
            match queue_after(old(self)@, tx@, tx_hash, gas_used, base_fee@) {
                Some(after) => r is Ok && final(self)@ == after,
                None => r == Err::<(), EVMError>(EVMError::FeeOverflow) && final(self)@ == old(
                    self,
                )@,
            },
    {
        let fee = match &tx {
            QueueTx::SignedTx(signed_tx) => {
                match calculate_gas_fee(signed_tx, U256::from_u64(gas_used), base_fee) {
                    Ok(fee) => fee,
                    Err(_) => {
                        return Err(EVMError::FeeOverflow);
                    },
                }
            },
            QueueTx::SystemTx(_) => U256::zero(),
        };
        let total = match self.total_fees.checked_add(fee) {
            Some(total) => total,
            None => {
                return Err(EVMError::FeeOverflow);
            },
        };
        let item = QueueTxItem { queue_tx: tx, tx_hash, tx_fee: fee, gas_used };
        proof {
            let before = items_view(self.transactions@);
            let after = items_view(self.transactions@.push(item));
            assert(after =~= before.push(item@));
            assert(after.drop_last() =~= before);
        }
        self.transactions.push(item);
        self.total_fees = total;
        Ok(())
    }

    /// The number of entries.
    pub fn len(&self) -> (n: usize)
        ensures
            n == self@.transactions.len(),
    {
        self.transactions.len()
    }

    /// A copy of the entries, in the order of their admission.
    pub fn get_cloned_vec(&self) -> (items: Vec<QueueTxItem>)
        ensures
            items_view(items@) == self@.transactions,
    {
        let mut items: Vec<QueueTxItem> = Vec::new();
        let mut i: usize = 0;
        while i < self.transactions.len()
            invariant
                i <= self.transactions.len(),
                items@.len() == i,
                forall|j: int| 0 <= j < i ==> items@[j]@ == self.transactions@[j]@,
            decreases self.transactions.len() - i,
        {
            items.push(self.transactions[i].clone());
            i = i + 1;
        }
        assert(items_view(items@) =~= items_view(self.transactions@));
        items
    }

    /// The running total of the recorded fees.
    pub fn get_total_fees(&self) -> (total: U256)
        ensures
            total@ == self@.total_fees,
    {
        self.total_fees
    }
}

/// The queues of all block candidates, each under its id.
#[derive(Debug)]
pub struct TransactionQueueMap {
    queues: HashMap<u64, TransactionQueue>,
}

impl View for TransactionQueueMap {
    type V = Map<u64, QueueView>;

    closed spec fn view(&self) -> Map<u64, QueueView> {
        Map::new(|id: u64| self.queues@.contains_key(id), |id: u64| self.queues@[id]@)
    }
}

impl TransactionQueueMap {
    /// The invariant of the map: every queue in it is well formed.
    pub closed spec fn wf(&self) -> bool {
        forall|id: u64| #[trigger] self.queues@.contains_key(id) ==> self.queues@[id].wf()
    }

    /// In a well-formed map the total of every queue is the sum of the fees
    /// recorded for its entries.
    pub proof fn lemma_totals_are_sums(&self, queue_id: u64)
        requires
            self.wf(),
            self@.contains_key(queue_id),
        ensures
            self@[queue_id].total_fees == sum_fees(self@[queue_id].transactions),
    {
        assert(self.queues@.contains_key(queue_id));
        self.queues@[queue_id].lemma_total_is_sum();
    }

    /// The total of every queue fits in 256 bits.
    pub proof fn lemma_totals_in_range(&self, queue_id: u64)
        requires
            self@.contains_key(queue_id),
        ensures
            self@[queue_id].total_fees <= max_u256(),
    {
        crate::uint::lemma_view_injective(
            self.queues@[queue_id].total_fees,
            self.queues@[queue_id].total_fees,
        );
    }

    /// A map without queues.
    pub fn new() -> (r: TransactionQueueMap)
        ensures
            r.wf(),
            r@ == Map::<u64, QueueView>::empty(),
    {
        let r = TransactionQueueMap { queues: HashMap::new() };
        assert(r@ =~= Map::<u64, QueueView>::empty());
        r
    }

    /// Opens an empty queue under an id that is not in use.
    pub fn create(&mut self, queue_id: u64) -> (r: Result<(), EVMError>)
        requires
            old(self).wf(),
        ensures
            final(self).wf(),
            old(self)@.contains_key(queue_id) ==> r == Err::<(), EVMError>(EVMError::QueueExists)
                && final(self)@ == old(self)@,
            !old(self)@.contains_key(queue_id) ==> r is Ok && final(self)@ == old(self)@.insert(
                queue_id,
                QueueView { transactions: Seq::empty(), total_fees: 0 },
            ),
    {
        if self.queues.contains_key(&queue_id) {
            return Err(EVMError::QueueExists);
        }
        self.queues.insert(queue_id, TransactionQueue::new());
        assert(final(self)@ =~= old(self)@.insert(
            queue_id,
            QueueView { transactions: Seq::empty(), total_fees: 0 },
        ));
        Ok(())
    }

    /// Admits one entry at the end of the queue with the given id and adds
    /// its fee to that queue's total. On an error nothing changes.
    pub fn queue_tx(
        &mut self,
        queue_id: u64,
        tx: QueueTx,
        tx_hash: [u8; 32],
        gas_used: u64,
        base_fee: U256,
    ) -> (r: Result<(), EVMError>)
        requires
            old(self).wf(),
        ensures
            final(self).wf(),
            !old(self)@.contains_key(queue_id) ==> r == Err::<(), EVMError>(EVMError::NoSuchQueue)
                && final(self)@ == old(self)@,
            old(self)@.contains_key(queue_id) ==> match queue_after(
                old(self)@[queue_id],
                tx@,
                tx_hash,
                gas_used,
                base_fee@,
            ) {
                Some(after) => r is Ok && final(self)@ == old(self)@.insert(queue_id, after),
                None => r == Err::<(), EVMError>(EVMError::FeeOverflow) && final(self)@ == old(
                    self,
                )@,
            },
    {
        match self.queues.remove(&queue_id) {
            None => {
                assert(final(self)@ =~= old(self)@);
                Err(EVMError::NoSuchQueue)
            },
            Some(queue) => {
                let mut queue = queue;
                let r = queue.queue_tx(tx, tx_hash, gas_used, base_fee);
                self.queues.insert(queue_id, queue);
                assert(final(self)@ =~= old(self)@.insert(queue_id, queue@));
                r
            },
        }
    }

    /// The number of entries in the queue with the given id; 0 where there
    /// is no such queue.
    pub fn len(&self, queue_id: u64) -> (n: usize)
        ensures
            self@.contains_key(queue_id) ==> n == self@[queue_id].transactions.len(),
            !self@.contains_key(queue_id) ==> n == 0,
    {
        match self.queues.get(&queue_id) {
            Some(queue) => queue.len(),
            None => 0,
        }
    }

    /// A copy of the entries of the queue with the given id, in the order of
    /// their admission; empty where there is no such queue.
    pub fn get_cloned_vec(&self, queue_id: u64) -> (items: Vec<QueueTxItem>)
        ensures
            self@.contains_key(queue_id) ==> items_view(items@) == self@[queue_id].transactions,
            !self@.contains_key(queue_id) ==> items@.len() == 0,
    {
        match self.queues.get(&queue_id) {
            Some(queue) => queue.get_cloned_vec(),
            None => Vec::new(),
        }
    }

    /// The total of the fees recorded in the queue with the given id, or
    /// `None` where there is no such queue.
    pub fn get_total_fees(&self, queue_id: u64) -> (total: Option<U256>)
        ensures
            self@.contains_key(queue_id) ==> total is Some && total.unwrap()@
                == self@[queue_id].total_fees,
            !self@.contains_key(queue_id) ==> total is None,
    {
        match self.queues.get(&queue_id) {
            Some(queue) => Some(queue.get_total_fees()),
            None => None,
        }
    }

    /// Whether a queue is open under the given id.
    pub fn contains(&self, queue_id: u64) -> (r: bool)
        ensures
            r == self@.contains_key(queue_id),
    {
        self.queues.contains_key(&queue_id)
    }

    /// Disposes of the queue with the given id and hands it out; `None`
    /// where there is no such queue.
    pub fn remove(&mut self, queue_id: u64) -> (r: Option<TransactionQueue>)
        requires
            old(self).wf(),
        ensures
            final(self).wf(),
            final(self)@ == old(self)@.remove(queue_id),
            old(self)@.contains_key(queue_id) ==> r is Some && r.unwrap()@ == old(self)@[queue_id]
                && r.unwrap().wf(),
            !old(self)@.contains_key(queue_id) ==> r is None,
    {
        let r = self.queues.remove(&queue_id);
        assert(final(self)@ =~= old(self)@.remove(queue_id));
        r
    }
}

} // verus!
