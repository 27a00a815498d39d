//! The services of the execution layer: the queues of the block candidates,
//! the latest block with the account state after it, and the two ends of the
//! pipeline that turns a queue into the next block.
//!
//! Executing a signed transaction, computing the root hashes of the state and
//! of the receipts, and storing a finished block are the work of others. The
//! pipeline is therefore driven from outside: `begin_block` opens a
//! `BlockExecution`, whose steps say which transaction is to be executed
//! next and take the outcome back, and `finalize_block` takes the root
//! hashes, assembles the block and commits or discards it.

use crate::backend::{
    account_at, deployed, lemma_write_one, storage_at, storage_updated, Backend, Code, Slot,
    StateView,
};
use crate::block::{Header, LatestBlock};
use crate::encoding::{decode, hex_bytes, hex_encode, hex_text, is_hex};
use crate::error::EVMError;
use crate::execution::{
    burnt_fees, priority_fees, run_steps, started, BlockContext, BlockExecution, ExecutionParts,
    ExecutionView, Fixed, Phase,
};
use crate::executor::{bridged_balance, token_slots, TxResponse};
use crate::fee::{get_tx_max_gas_price, max_gas_price};
use crate::hash::{zero_hash, Bloom, H160, H256};
use crate::seal::{envelope_hash, hash_envelope, seal, sealed_hash};
use crate::transaction::{copy_bytes, QueueTx, QueueTxView, SignedTx};
use crate::txqueue::{queue_after, sum_fees, QueueView, TransactionQueueMap};
use crate::uint::{max_u256, U256};
use vstd::prelude::*;
use vstd::string::StringSliceAdditionalSpecFns;

verus! {

/// What the contract registry knows of the built-in contracts.
#[derive(Debug)]
pub struct Contracts {
    /// Where the counter contract lives.
    pub counter_address: H160,
    /// The code of the counter contract.
    pub counter_code: Code,
    /// The code of the token template.
    pub token_code: Code,
}

/// The outcome of a finalized block.
#[derive(Debug)]
pub struct FinalizedBlockInfo {
    pub block_hash: [u8; 32],
    /// The hashes, as hexadecimal text, of the queue entries that failed, in
    /// the order of the queue.
    pub failed_transactions: Vec<String>,
    /// The fees that the block burns: the gas it used at the base fee.
    pub total_burnt_fees: U256,
    /// The fees that the beneficiary receives: what the transactions paid
    /// above the burnt fees.
    pub total_priority_fees: U256,
}

/// What is to be deployed for a contract.
#[derive(Debug)]
pub struct DeployContractInfo {
    pub address: H160,
    pub storage: Vec<Slot>,
    pub bytecode: Code,
}

/// What is to be written for a bridge operation.
#[derive(Debug)]
pub struct DST20BridgeInfo {
    pub address: H160,
    pub storage: Vec<Slot>,
}

/// The storage key of the counter contract's counter.
pub open spec fn counter_slot() -> H256 {
    H256::of_word(1)
}

/// The counter that the counter contract holds in a state.
pub open spec fn counter_of(state: StateView, counter_address: H160) -> nat {
    storage_at(state, counter_address, counter_slot())
}

/// The state of the execution layer between blocks.
pub struct EVMServices {
    tx_queues: TransactionQueueMap,
    latest: Option<LatestBlock>,
    state: Backend,
    contracts: Contracts,
    gas_limit: U256,
}

/// The services as a plain value.
pub ghost struct ServicesView {
    /// The queues of the block candidates, by their ids.
    pub queues: Map<u64, QueueView>,
    /// The latest block, if there is one.
    pub latest: Option<LatestBlock>,
    /// The account state after the latest block.
    pub state: StateView,
}

/// The outcome of a finalized block as a plain value.
pub ghost struct FinalizedBlockInfoView {
    pub block_hash: [u8; 32],
    pub failed_transactions: Seq<Seq<char>>,
    pub total_burnt_fees: nat,
    pub total_priority_fees: nat,
}

impl View for FinalizedBlockInfo {
    type V = FinalizedBlockInfoView;

    open spec fn view(&self) -> FinalizedBlockInfoView {
        FinalizedBlockInfoView {
            block_hash: self.block_hash,
            failed_transactions: self.failed_transactions@.map_values(|s: String| s@),
            total_burnt_fees: self.total_burnt_fees@,
            total_priority_fees: self.total_priority_fees@,
        }
    }
}

/// The hash that the next block has for its parent: that of the latest
/// block, or zero where there is none.
pub open spec fn parent_of_next(latest: Option<LatestBlock>) -> H256 {
    match latest {
        Some(block) => H256(block.hash),
        None => zero_hash(),
    }
}

/// The number of the next block: the parent's number plus one, or 0 where
/// there is no parent.
pub open spec fn number_of_next(latest: Option<LatestBlock>) -> nat {
    match latest {
        Some(block) => block.header.number@ + 1,
        None => 0,
    }
}

/// The header of the block that a sealed execution has made, given the root
/// hashes of its state and of its receipts.
pub open spec fn header_of(e: ExecutionView, state_root: H256, receipts_root: H256) -> Header {
    Header {
        parent_hash: e.fixed.context.parent_hash,
        beneficiary: e.fixed.context.beneficiary,
        state_root,
        receipts_root,
        logs_bloom: Bloom::of(e.progress.logs_bloom),
        difficulty: U256::of(e.fixed.context.difficulty as nat),
        number: e.fixed.context.number,
        gas_limit: e.fixed.context.gas_limit,
        gas_used: U256::of(e.progress.total_gas_used),
        timestamp: e.fixed.context.timestamp,
        base_fee: e.fixed.context.base_fee,
    }
}

/// The hexadecimal texts of a list of hashes, in order.
pub open spec fn hex_texts(hashes: Seq<[u8; 32]>) -> Seq<Seq<char>> {
    hashes.map_values(|h: [u8; 32]| hex_text(h@))
}

/// What finalizing an execution gives: the services afterwards and the
/// outcome of the block. An execution that is not sealed, or that began on
/// another parent than the latest block, is refused; so is one with an
/// envelope that does not decode. A block that is to update the state
/// becomes the latest block, its state the latest state, and its queue is
/// disposed of; any other block leaves the services as they are.
pub open spec fn finalized(
    s: ServicesView,
    e: ExecutionView,
    state_root: H256,
    receipts_root: H256,
) -> Result<(ServicesView, FinalizedBlockInfoView), EVMError> {
    let context = e.fixed.context;
    if e.progress.phase != Phase::Sealed {
        Err(EVMError::UnexpectedStep)
    } else if context.parent_hash != parent_of_next(s.latest) || context.number@
        != number_of_next(s.latest) {
        Err(EVMError::UnexpectedStep)
    } else {
        let header = header_of(e, state_root, receipts_root);
        match sealed_hash(header, e.progress.transactions) {
            None => Err(EVMError::InvalidEnvelope),
            Some(hash) => Ok(
                (
                    if context.update_state {
                        ServicesView {
                            queues: s.queues.remove(context.queue_id),
                            latest: Some(LatestBlock { header, hash }),
                            state: e.progress.state,
                        }
                    } else {
                        s
                    },
                    FinalizedBlockInfoView {
                        block_hash: hash,
                        failed_transactions: hex_texts(e.progress.failed),
                        total_burnt_fees: burnt_fees(e.fixed, e.progress),
                        total_priority_fees: priority_fees(e.fixed, e.progress),
                    },
                ),
            ),
        }
    }
}

/// What admitting an entry gives: the queues afterwards, and the hash under
/// which a signed transaction is announced as pending. A system transaction
/// is not announced. A signed transaction whose envelope does not decode is
/// refused, and so is an entry for a queue that is not open or with a fee
/// that does not fit.
pub open spec fn queued(
    queues: Map<u64, QueueView>,
    queue_id: u64,
    tx: QueueTxView,
    tx_hash: [u8; 32],
    gas_used: u64,
    base_fee: nat,
) -> Result<(Map<u64, QueueView>, Option<H256>), EVMError> {
    let announced = match tx {
        QueueTxView::SignedTx(signed_tx) => envelope_hash(signed_tx.raw),
        QueueTxView::SystemTx(_) => None,
    };
    if tx is SignedTx && announced is None {
        Err(EVMError::InvalidEnvelope)
    } else if !queues.contains_key(queue_id) {
        Err(EVMError::NoSuchQueue)
    } else {
        match queue_after(queues[queue_id], tx, tx_hash, gas_used, base_fee) {
            Some(after) => Ok((queues.insert(queue_id, after), announced)),
            None => Err(EVMError::FeeOverflow),
        }
    }
}

impl View for EVMServices {
    type V = ServicesView;

    closed spec fn view(&self) -> ServicesView {
        ServicesView { queues: self.tx_queues@, latest: self.latest, state: self.state@ }
    }
}

impl EVMServices {
    /// The invariant of the services: the queues and the account state are
    /// well formed.
    pub closed spec fn wf(&self) -> bool {
        &&& self.tx_queues.wf()
        &&& self.state.wf()
    }

    /// Where the counter contract lives.
    pub closed spec fn counter_address(&self) -> H160 {
        self.contracts.counter_address
    }

    /// The code of the counter contract.
    pub closed spec fn counter_code(&self) -> Seq<u8> {
        self.contracts.counter_code.bytes@
    }

    /// The hash of the code of the counter contract.
    pub closed spec fn counter_code_hash(&self) -> H256 {
        self.contracts.counter_code.hash
    }

    /// The code of the token template.
    pub closed spec fn token_code(&self) -> Seq<u8> {
        self.contracts.token_code.bytes@
    }

    /// The hash of the code of the token template.
    pub closed spec fn token_code_hash(&self) -> H256 {
        self.contracts.token_code.hash
    }

    /// The gas limit of every block.
    pub closed spec fn gas_limit(&self) -> U256 {
        self.gas_limit
    }

    /// The services at the start of a chain: no queues, no block, and the
    /// given genesis state or, without one, the empty state. A genesis state
    /// is accepted on the test network `regtest` only.
    pub fn new(
        contracts: Contracts,
        gas_limit: U256,
        genesis: Option<Backend>,
        network: &str,
    ) -> (r: Result<EVMServices, EVMError>)
        requires
            genesis is Some ==> genesis.unwrap().wf(),
        ensures
            genesis is Some && network@ != "regtest"@ ==> r == Err::<EVMServices, EVMError>(
                EVMError::GenesisRestricted,
            ),
            genesis is None || network@ == "regtest"@ ==> r is Ok && {
                let services = r.unwrap();
                &&& services.wf()
                &&& services.has_contracts(contracts, gas_limit)
                &&& services@ == ServicesView {
                    queues: Map::empty(),
                    latest: None,
                    state: match genesis {
                        Some(state) => state@,
                        None => Map::empty(),
                    },
                }
            },
    {
        let state = match genesis {
            Some(state) => {
                if network.to_owned() != "regtest".to_owned() {
                    return Err(EVMError::GenesisRestricted);
                }
                state
            },
            None => Backend::new(),
        };
        Ok(
            EVMServices {
                tx_queues: TransactionQueueMap::new(),
                latest: None,
                state,
                contracts,
                gas_limit,
            },
        )
    }

    /// The services as they were saved: no queues, and the given latest
    /// block and account state.
    pub fn restore(
        contracts: Contracts,
        gas_limit: U256,
        state: Backend,
        latest: Option<LatestBlock>,
    ) -> (services: EVMServices)
        requires
            state.wf(),
        ensures
            services.wf(),
            services.has_contracts(contracts, gas_limit),
            services@ == (ServicesView { queues: Map::empty(), latest, state: state@ }),
    {
        EVMServices { tx_queues: TransactionQueueMap::new(), latest, state, contracts, gas_limit }
    }

    /// Whether the services were made with the given registry and gas limit.
    pub open spec fn has_contracts(&self, contracts: Contracts, gas_limit: U256) -> bool {
        &&& self.counter_address() == contracts.counter_address
        &&& self.counter_code() == contracts.counter_code.bytes@
        &&& self.counter_code_hash() == contracts.counter_code.hash
        &&& self.token_code() == contracts.token_code.bytes@
        &&& self.token_code_hash() == contracts.token_code.hash
        &&& self.gas_limit() == gas_limit
    }

    /// Whether two values of the services have the same registry and gas
    /// limit.
    pub open spec fn same_contracts(&self, other: &EVMServices) -> bool {
        &&& self.counter_address() == other.counter_address()
        &&& self.counter_code() == other.counter_code()
        &&& self.counter_code_hash() == other.counter_code_hash()
        &&& self.token_code() == other.token_code()
        &&& self.token_code_hash() == other.token_code_hash()
        &&& self.gas_limit() == other.gas_limit()
    }

    /// The total of every queue fits in 256 bits.
    pub proof fn lemma_totals_in_range(&self, queue_id: u64)
        requires
            self@.queues.contains_key(queue_id),
        ensures
            self@.queues[queue_id].total_fees <= max_u256(),
    {
        self.tx_queues.lemma_totals_in_range(queue_id);
    }

    /// The total of every queue is the sum of the fees that were recorded for
    /// its entries at their admission.
    pub proof fn lemma_totals_are_sums(&self, queue_id: u64)
        requires
            self.wf(),
            self@.queues.contains_key(queue_id),
        ensures
            self@.queues[queue_id].total_fees == sum_fees(self@.queues[queue_id].transactions),
    {
        self.tx_queues.lemma_totals_are_sums(queue_id);
    }

    /// The queues of the block candidates.
    pub fn tx_queues(&self) -> (r: &TransactionQueueMap)
        requires
            self.wf(),
        ensures
            r.wf(),
            r@ == self@.queues,
    {
        &self.tx_queues
    }

    /// Opens an empty queue for a block candidate, under an id that is not
    /// in use. On an error nothing changes.
    pub fn create_queue(&mut self, queue_id: u64) -> (r: Result<(), EVMError>)
        requires
            old(self).wf(),
        ensures
            final(self).wf(),
            final(self).same_contracts(old(self)),
            final(self)@.latest == old(self)@.latest,
            final(self)@.state == old(self)@.state,
            old(self)@.queues.contains_key(queue_id) ==> r == Err::<(), EVMError>(
                EVMError::QueueExists,
            ) && final(self)@ == old(self)@,
            !old(self)@.queues.contains_key(queue_id) ==> r is Ok && final(self)@.queues == old(
                self,
            )@.queues.insert(queue_id, QueueView { transactions: Seq::empty(), total_fees: 0 }),
    {
        self.tx_queues.create(queue_id)
    }

    /// Disposes of the queue with the given id, if there is one.
    pub fn remove_queue(&mut self, queue_id: u64)
        requires
            old(self).wf(),
        ensures
            final(self).wf(),
            final(self).same_contracts(old(self)),
            final(self)@.latest == old(self)@.latest,
            final(self)@.state == old(self)@.state,
            final(self)@.queues == old(self)@.queues.remove(queue_id),
    {
        self.tx_queues.remove(queue_id);
    }

    /// The latest block, if there is one.
    pub fn latest(&self) -> (r: Option<LatestBlock>)
        ensures
            r == self@.latest,
    {
        self.latest
    }

    /// The account state after the latest block.
    pub fn state(&self) -> (r: &Backend)
        requires
            self.wf(),
        ensures
            r.wf(),
            r@ == self@.state,
    {
        &self.state
    }

    /// Tells whether a transaction offers enough per unit of gas to be
    /// admitted: its highest price must be no less than the base fee of the
    /// current block or, where `use_context` is set, of the next block.
    pub fn verify_tx_fees(
        tx: &SignedTx,
        use_context: bool,
        block_base_fee: U256,
        next_block_base_fee: U256,
    ) -> (r: Result<(), EVMError>)
        ensures
            r is Ok <==> max_gas_price(tx.pricing) >= (if use_context {
                next_block_base_fee@
            } else {
                block_base_fee@
            }),
            r is Err ==> r == Err::<(), EVMError>(EVMError::GasPriceTooLow),
    {
        let block_fee = if use_context {
            next_block_base_fee
        } else {
            block_base_fee
        };
        let tx_gas_price = get_tx_max_gas_price(tx);
        if tx_gas_price.lt(&block_fee) {
            return Err(EVMError::GasPriceTooLow);
        }
        Ok(())
    }

    /// The bytes of a raw transaction that is given as hexadecimal text.
    /// Fails where the text is not hexadecimal, and where the bytes are not
    /// the envelope of a transaction.
    pub fn decode_raw_tx(tx: &str) -> (r: Result<Vec<u8>, EVMError>)
        ensures
            !is_hex(tx.spec_bytes()) ==> r == Err::<Vec<u8>, EVMError>(EVMError::InvalidHex),
            is_hex(tx.spec_bytes()) && envelope_hash(hex_bytes(tx.spec_bytes())) is None ==> r
                == Err::<Vec<u8>, EVMError>(EVMError::InvalidEnvelope),
            is_hex(tx.spec_bytes()) && envelope_hash(hex_bytes(tx.spec_bytes())) is Some ==> r
                is Ok && r.unwrap()@ == hex_bytes(tx.spec_bytes()),
    {
        let bytes = match decode(tx) {
            Ok(bytes) => bytes,
            Err(e) => {
                return Err(e);
            },
        };
        match hash_envelope(&bytes) {
            Some(_) => Ok(bytes),
            None => Err(EVMError::InvalidEnvelope),
        }
    }

    /// Admits an entry to the queue with the given id, with the fee that the
    /// estimated gas costs at the given base fee. On success the hash under
    /// which a signed transaction is to be announced as pending is handed
    /// back; a system transaction has none. On an error nothing changes.
    pub fn queue_tx(
        &mut self,
        queue_id: u64,
        tx: QueueTx,
        hash: [u8; 32],
        gas_used: u64,
        base_fee: U256,
    ) -> (r: Result<Option<H256>, EVMError>)
        requires
            old(self).wf(),
        ensures
            final(self).wf(),
            final(self).same_contracts(old(self)),
            final(self)@.latest == old(self)@.latest,
            final(self)@.state == old(self)@.state,
            match queued(old(self)@.queues, queue_id, tx@, hash, gas_used, base_fee@) {
                Ok((queues, announced)) => r == Ok::<Option<H256>, EVMError>(announced)
                    && final(self)@.queues == queues,
                Err(e) => r == Err::<Option<H256>, EVMError>(e) && final(self)@.queues == old(
                    self,
                )@.queues,
            },
    {
        let announced = match &tx {
            QueueTx::SignedTx(signed_tx) => match hash_envelope(&signed_tx.raw) {
                Some(h) => Some(h),
                None => {
                    return Err(EVMError::InvalidEnvelope);
                },
            },
            QueueTx::SystemTx(_) => None,
        };
        match self.tx_queues.queue_tx(queue_id, tx, hash, gas_used, base_fee) {
            Ok(()) => Ok(announced),
            Err(e) => Err(e),
        }
    }

    /// What the execution of a block begins with: the entries and the total
    /// fees of the queue, the parent and the number of the block, and the
    /// latest state with the counter contract brought forward - deployed
    /// with a counter of one more than the latest state holds where the
    /// block is the first, and its counter raised by one where it is not.
    pub open spec fn begun(
        &self,
        queue_id: u64,
        update_state: bool,
        difficulty: u32,
        beneficiary: H160,
        timestamp: u64,
        base_fee: U256,
    ) -> Result<ExecutionView, EVMError> {
        let s = self@;
        let counter = counter_of(s.state, self.counter_address());
        let slots = seq![Slot { key: counter_slot(), value: H256::of_word(counter + 1) }];
        let booted = if s.latest is None {
            deployed(
                s.state,
                self.counter_address(),
                self.counter_code(),
                self.counter_code_hash(),
                slots,
            )
        } else {
            Ok(storage_updated(s.state, self.counter_address(), slots))
        };
        if !s.queues.contains_key(queue_id) {
            Err(EVMError::NoSuchQueue)
        } else if number_of_next(s.latest) > max_u256() || counter >= max_u256() {
            Err(EVMError::CounterOverflow)
        } else if booted is Err {
            Err(booted->Err_0)
        } else {
            Ok(
                ExecutionView {
                    fixed: Fixed {
                        context: BlockContext {
                            queue_id,
                            update_state,
                            parent_hash: parent_of_next(s.latest),
                            number: U256::of(number_of_next(s.latest)),
                            beneficiary,
                            timestamp,
                            difficulty,
                            base_fee,
                            gas_limit: self.gas_limit(),
                            recorded_fees: U256::of(s.queues[queue_id].total_fees),
                        },
                        token_code: self.token_code(),
                        token_hash: self.token_code_hash(),
                        items: s.queues[queue_id].transactions,
                    },
                    progress: started(booted->Ok_0),
                },
            )
        }
    }

    /// The whole way of a queue to a block: the execution begins, takes a
    /// first step, takes one step for each outcome of a list, and is
    /// finalized with the given root hashes.
    pub open spec fn block_of(
        &self,
        queue_id: u64,
        update_state: bool,
        difficulty: u32,
        beneficiary: H160,
        timestamp: u64,
        base_fee: U256,
        outcomes: Seq<TxResponse>,
        state_root: H256,
        receipts_root: H256,
    ) -> Result<(ServicesView, FinalizedBlockInfoView), EVMError> {
        match self.begun(queue_id, update_state, difficulty, beneficiary, timestamp, base_fee) {
            Err(e) => Err(e),
            Ok(begun) => {
                let ran = run_steps(begun.fixed, begun.progress, outcomes);
                match ran.1 {
                    Err(e) => Err(e),
                    Ok(_) => finalized(
                        self@,
                        ExecutionView { fixed: begun.fixed, progress: ran.0 },
                        state_root,
                        receipts_root,
                    ),
                }
            },
        }
    }

    /// Begins the execution of the queue with the given id as the next
    /// block. The services are not changed: the execution works on copies.
    pub fn begin_block(
        &self,
        queue_id: u64,
        update_state: bool,
        difficulty: u32,
        beneficiary: H160,
        timestamp: u64,
        base_fee: U256,
    ) -> (r: Result<BlockExecution, EVMError>)
        requires
            self.wf(),
        ensures
            match self.begun(queue_id, update_state, difficulty, beneficiary, timestamp, base_fee) {
                Ok(view) => r is Ok && r.unwrap().wf() && r.unwrap()@ == view,
                Err(e) => r == Err::<BlockExecution, EVMError>(e),
            },
            r is Ok ==> r.unwrap()@.fixed.context.recorded_fees@
                == self@.queues[queue_id].total_fees && counter_of(
                r.unwrap()@.progress.state,
                self.counter_address(),
            ) == counter_of(self@.state, self.counter_address()) + 1,
    {
        let recorded_fees = match self.tx_queues.get_total_fees(queue_id) {
            Some(total) => total,
            None => {
                return Err(EVMError::NoSuchQueue);
            },
        };
        let (parent_hash, number) = match self.latest {
            None => (H256::zero(), U256::zero()),
            Some(block) => match block.header.number.checked_add(U256::one()) {
                Some(number) => (H256(block.hash), number),
                None => {
                    return Err(EVMError::CounterOverflow);
                },
            },
        };
        let info = match self.counter_contract() {
            Ok(info) => info,
            Err(e) => {
                return Err(e);
            },
        };
        let mut backend = self.state.copy();
        match self.latest {
            None => {
                match backend.deploy_contract(info.address, info.bytecode, &info.storage) {
                    Ok(()) => {},
                    Err(e) => {
                        return Err(e);
                    },
                }
            },
            Some(_) => {
                backend.update_storage(info.address, &info.storage);
            },
        }
        let items = self.tx_queues.get_cloned_vec(queue_id);
        proof {
            number.lemma_of();
            recorded_fees.lemma_of();
            let counter = counter_of(self@.state, self.counter_address());
            let slot = Slot { key: counter_slot(), value: H256::of_word(counter + 1) };
            H256::lemma_of_word_value(counter + 1);
            lemma_write_one(Map::empty(), slot);
            lemma_write_one(account_at(self@.state, self.counter_address()).storage, slot);
        }
        Ok(
            BlockExecution::begin(
                BlockContext {
                    queue_id,
                    update_state,
                    parent_hash,
                    number,
                    beneficiary,
                    timestamp,
                    difficulty,
                    base_fee,
                    gas_limit: self.gas_limit,
                    recorded_fees,
                },
                Code {
                    bytes: copy_bytes(&self.contracts.token_code.bytes),
                    hash: self.contracts.token_code.hash,
                },
                items,
                backend,
            ),
        )
    }

    /// Finalizes the block of a sealed execution, given the root hashes of
    /// its state and of its receipts. The block's header is assembled and
    /// hashed. A block that is to update the state becomes the latest block
    /// and its queue is disposed of; any other block is discarded, and the
    /// services stay as they are. On an error nothing changes.
    pub fn finalize_block(
        &mut self,
        execution: BlockExecution,
        state_root: H256,
        receipts_root: H256,
    ) -> (r: Result<FinalizedBlockInfo, EVMError>)
        requires
            old(self).wf(),
            execution.wf(),
        ensures
            final(self).wf(),
            final(self).same_contracts(old(self)),
            r is Ok ==> r.unwrap()@.total_burnt_fees + r.unwrap()@.total_priority_fees
                == execution@.fixed.context.recorded_fees@,
            match finalized(old(self)@, execution@, state_root, receipts_root) {
                Ok((services, info)) => r is Ok && r.unwrap()@ == info && final(self)@ == services,
                Err(e) => r == Err::<FinalizedBlockInfo, EVMError>(e) && final(self)@ == old(
                    self,
                )@,
            },
    {
        let ghost view = execution@;
        let ExecutionParts {
            context,
            phase,
            backend,
            total_gas_used,
            total_gas_fees,
            failed,
            logs_bloom,
            transactions,
        } = execution.into_parts();
        match phase {
            Phase::Sealed => {},
            _ => {
                return Err(EVMError::UnexpectedStep);
            },
        }
        let on_parent = match self.latest {
            None => context.parent_hash.eq(&H256::zero()) && context.number.eq(&U256::zero()),
            Some(block) => match block.header.number.checked_add(U256::one()) {
                Some(number) => context.parent_hash.eq(&H256(block.hash)) && context.number.eq(
                    &number,
                ),
                None => false,
            },
        };
        if !on_parent {
            return Err(EVMError::UnexpectedStep);
        }
        let gas_used = U256::from_u64(total_gas_used);
        let total_burnt_fees = match gas_used.checked_mul(context.base_fee) {
            Some(burnt) => burnt,
            None => {
                return Err(EVMError::FeeOverflow);
            },
        };
        let total_priority_fees = match total_gas_fees.checked_sub(total_burnt_fees) {
            Some(priority) => priority,
            None => {
                return Err(EVMError::FeeOverflow);
            },
        };
        let difficulty = U256::from_u64(difficulty_word(context.difficulty));
        let header = Header {
            parent_hash: context.parent_hash,
            beneficiary: context.beneficiary,
            state_root,
            receipts_root,
            logs_bloom,
            difficulty,
            number: context.number,
            gas_limit: context.gas_limit,
            gas_used,
            timestamp: context.timestamp,
            base_fee: context.base_fee,
        };
        proof {
            logs_bloom.lemma_of();
            difficulty.lemma_of();
            gas_used.lemma_of();
            assert(header == header_of(view, state_root, receipts_root));
        }
        let block_hash = match seal(&header, &transactions) {
            Some(hash) => hash,
            None => {
                return Err(EVMError::InvalidEnvelope);
            },
        };
        let failed_transactions = hex_all(&failed);
        if context.update_state {
            self.state = backend;
            self.latest = Some(LatestBlock { header, hash: block_hash });
            self.tx_queues.remove(context.queue_id);
        }
        Ok(
            FinalizedBlockInfo {
                block_hash,
                failed_transactions,
                total_burnt_fees,
                total_priority_fees,
            },
        )
    }

    /// What the counter contract is to hold after the next block: its
    /// address and code, and the counter of the latest state plus one in the
    /// counter's slot. Fails where the counter is at its largest value.
    pub fn counter_contract(&self) -> (r: Result<DeployContractInfo, EVMError>)
        requires
            self.wf(),
        ensures
            counter_of(self@.state, self.counter_address()) < max_u256() ==> r is Ok && {
                let info = r.unwrap();
                &&& info.address == self.counter_address()
                &&& info.bytecode.bytes@ == self.counter_code()
                &&& info.bytecode.hash == self.counter_code_hash()
                &&& info.storage@ == seq![
                    Slot {
                        key: counter_slot(),
                        value: H256::of_word(
                            counter_of(self@.state, self.counter_address()) + 1,
                        ),
                    },
                ]
            },
            counter_of(self@.state, self.counter_address()) >= max_u256() ==> r == Err::<
                DeployContractInfo,
                EVMError,
            >(EVMError::CounterOverflow),
    {
        let slot = H256::from_low_u64_be(1);
        let count = self.state.get_contract_storage(&self.contracts.counter_address, &slot);
        match count.checked_add(U256::one()) {
            None => Err(EVMError::CounterOverflow),
            Some(next) => {
                let mut storage: Vec<Slot> = Vec::new();
                storage.push(Slot { key: slot, value: H256::from_u256(next) });
                assert(storage@ =~= seq![
                    Slot {
                        key: counter_slot(),
                        value: H256::of_word(
                            counter_of(self@.state, self.counter_address()) + 1,
                        ),
                    },
                ]);
                Ok(
                    DeployContractInfo {
                        address: self.contracts.counter_address,
                        storage,
                        bytecode: Code {
                            bytes: copy_bytes(&self.contracts.counter_code.bytes),
                            hash: self.contracts.counter_code.hash,
                        },
                    },
                )
            },
        }
    }

    /// What is to be deployed for a token: the template's code at the given
    /// address, with the name and the symbol in their slots. Fails where the
    /// address already has code.
    pub fn dst20_contract(
        backend: &Backend,
        token: &Code,
        address: H160,
        name: H256,
        symbol: H256,
    ) -> (r: Result<DeployContractInfo, EVMError>)
        requires
            backend.wf(),
        ensures
            account_at(backend@, address).code.len() == 0 ==> r is Ok && {
                let info = r.unwrap();
                &&& info.address == address
                &&& info.bytecode.bytes@ == token.bytes@
                &&& info.bytecode.hash == token.hash
                &&& info.storage@ == token_slots(name, symbol)
            },
            account_at(backend@, address).code.len() > 0 ==> r == Err::<
                DeployContractInfo,
                EVMError,
            >(EVMError::ContractExists),
    {
        match backend.get_account(&address) {
            Some(account) => {
                if account.code.bytes.len() > 0 {
                    return Err(EVMError::ContractExists);
                }
            },
            None => {},
        }
        let mut storage: Vec<Slot> = Vec::new();
        storage.push(Slot { key: H256::from_low_u64_be(3), value: name });
        storage.push(Slot { key: H256::from_low_u64_be(4), value: symbol });
        assert(storage@ =~= token_slots(name, symbol));
        Ok(
            DeployContractInfo {
                address,
                storage,
                bytecode: Code { bytes: copy_bytes(&token.bytes), hash: token.hash },
            },
        )
    }

    /// What is to be written for a bridge operation: the holder's new
    /// balance in its slot of the token contract. Fails where the contract
    /// has no account, where its code is not the token template, and where
    /// the new balance would leave the range of 256 bits.
    pub fn bridge_dst20(
        backend: &Backend,
        token_hash: &H256,
        contract: H160,
        balance_slot: H256,
        amount: U256,
        out: bool,
    ) -> (r: Result<DST20BridgeInfo, EVMError>)
        requires
            backend.wf(),
        ensures
            match bridged_balance(backend@, *token_hash, contract, balance_slot, amount@, out) {
                Ok(balance) => r is Ok && r.unwrap().address == contract && r.unwrap().storage@
                    == seq![Slot { key: balance_slot, value: H256::of_word(balance) }],
                Err(e) => r == Err::<DST20BridgeInfo, EVMError>(e),
            },
    {
        match backend.get_account(&contract) {
            None => {
                return Err(EVMError::NotAContract);
            },
            Some(account) => {
                if !account.code.hash.eq(token_hash) {
                    return Err(EVMError::InvalidTokenCode);
                }
            },
        }
        let balance = backend.get_contract_storage(&contract, &balance_slot);
        let changed = if out {
            balance.checked_sub(amount)
        } else {
            balance.checked_add(amount)
        };
        match changed {
            None => Err(EVMError::BalanceOverflow),
            Some(new_balance) => {
                let mut storage: Vec<Slot> = Vec::new();
                storage.push(Slot { key: balance_slot, value: H256::from_u256(new_balance) });
                assert(storage@ =~= seq![
                    Slot { key: balance_slot, value: H256::of_word(new_balance@) },
                ]);
                Ok(DST20BridgeInfo { address: contract, storage })
            },
        }
    }
}

/// The difficulty of a block as a 64-bit number.
fn difficulty_word(difficulty: u32) -> (r: u64)
    ensures
        r == difficulty,
{
    difficulty as u64
}

/// The hexadecimal texts of a list of hashes, in order.
fn hex_all(hashes: &Vec<[u8; 32]>) -> (texts: Vec<String>)
    ensures
        texts@.map_values(|s: String| s@) == hex_texts(hashes@),
{
    let mut texts: Vec<String> = Vec::new();
    let mut i: usize = 0;
    while i < hashes.len()
        invariant
            i <= hashes.len(),
            texts@.len() == i,
            forall|j: int| 0 <= j < i ==> (#[trigger] texts@[j])@ == hex_text(hashes@[j]@),
        decreases hashes.len() - i,
    {
        texts.push(hex_encode(&hashes[i]));
        i = i + 1;
    }
    assert(texts@.map_values(|s: String| s@) =~= hex_texts(hashes@));
    texts
}

} // verus!
