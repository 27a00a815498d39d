use ain_evm::error::EVMError;
use ain_evm::hash::H160;
use ain_evm::transaction::{BalanceUpdate, GasPricing, QueueTx, SignedTx, SystemTx};
use ain_evm::txqueue::{TransactionQueue, TransactionQueueMap};
use ain_evm::uint::U256;

fn signed(nonce: u64, gas_price: u64) -> QueueTx {
    QueueTx::SignedTx(SignedTx {
        sender: H160([1u8; 20]),
        nonce,
        gas_limit: U256::from_u64(21000),
        pricing: GasPricing::Legacy { gas_price: U256::from_u64(gas_price) },
        raw: vec![nonce as u8],
    })
}

fn deposit(amount: u64) -> QueueTx {
    QueueTx::SystemTx(SystemTx::EvmIn(BalanceUpdate {
        address: H160([2u8; 20]),
        amount: U256::from_u64(amount),
    }))
}

#[test]
fn total_fees_of_an_unknown_queue_is_none() {
    let queues = TransactionQueueMap::new();
    assert_eq!(queues.get_total_fees(1), None);
    assert_eq!(queues.len(1), 0);
    assert!(queues.get_cloned_vec(1).is_empty());
    assert!(!queues.contains(1));
}

#[test]
fn total_fees_of_an_empty_queue_is_zero() {
    let mut queues = TransactionQueueMap::new();
    assert_eq!(queues.create(1), Ok(()));
    assert_eq!(queues.get_total_fees(1), Some(U256::zero()));
    assert_eq!(queues.len(1), 0);
}

#[test]
fn create_refuses_an_id_in_use() {
    let mut queues = TransactionQueueMap::new();
    assert_eq!(queues.create(1), Ok(()));
    assert_eq!(queues.queue_tx(1, signed(0, 10), [1u8; 32], 21000, U256::from_u64(7)), Ok(()));
    assert_eq!(queues.create(1), Err(EVMError::QueueExists));
    assert_eq!(queues.len(1), 1);
}

#[test]
fn queue_tx_to_an_unknown_queue_is_refused() {
    let mut queues = TransactionQueueMap::new();
    assert_eq!(
        queues.queue_tx(3, signed(0, 10), [1u8; 32], 21000, U256::from_u64(7)),
        Err(EVMError::NoSuchQueue)
    );
    assert_eq!(queues.get_total_fees(3), None);
}

#[test]
fn queue_tx_keeps_admission_order_and_sums_fees() {
    let mut queues = TransactionQueueMap::new();
    queues.create(7).unwrap();
    queues.queue_tx(7, signed(0, 10), [1u8; 32], 21000, U256::from_u64(7)).unwrap();
    queues.queue_tx(7, deposit(500), [2u8; 32], 0, U256::from_u64(7)).unwrap();
    queues.queue_tx(7, signed(1, 20), [3u8; 32], 30000, U256::from_u64(7)).unwrap();
    assert_eq!(queues.len(7), 3);
    // 21000 * 10 + 0 + 30000 * 20
    assert_eq!(queues.get_total_fees(7), Some(U256::from_u64(810000)));
    let items = queues.get_cloned_vec(7);
    assert_eq!(items.len(), 3);
    assert_eq!(items[0].tx_hash, [1u8; 32]);
    assert_eq!(items[0].tx_fee, U256::from_u64(210000));
    assert_eq!(items[0].gas_used, 21000);
    assert_eq!(items[1].tx_hash, [2u8; 32]);
    assert_eq!(items[1].tx_fee, U256::zero());
    assert_eq!(items[2].tx_hash, [3u8; 32]);
    assert_eq!(items[2].tx_fee, U256::from_u64(600000));
    assert!(matches!(&items[0].queue_tx, QueueTx::SignedTx(tx) if tx.nonce == 0));
    assert!(matches!(&items[1].queue_tx, QueueTx::SystemTx(SystemTx::EvmIn(_))));
    assert!(matches!(&items[2].queue_tx, QueueTx::SignedTx(tx) if tx.nonce == 1));
}

#[test]
fn queue_tx_uses_the_base_fee_for_a_fee_cap() {
    let mut queues = TransactionQueueMap::new();
    queues.create(7).unwrap();
    let tx = QueueTx::SignedTx(SignedTx {
        sender: H160([1u8; 20]),
        nonce: 0,
        gas_limit: U256::from_u64(21000),
        pricing: GasPricing::EIP1559 {
            max_fee_per_gas: U256::from_u64(30),
            max_priority_fee_per_gas: U256::from_u64(2),
        },
        raw: Vec::new(),
    });
    queues.queue_tx(7, tx, [1u8; 32], 21000, U256::from_u64(7)).unwrap();
    assert_eq!(queues.get_total_fees(7), Some(U256::from_u64(189000)));
}

#[test]
fn queue_tx_with_a_fee_that_does_not_fit_changes_nothing() {
    let mut queues = TransactionQueueMap::new();
    queues.create(7).unwrap();
    queues.queue_tx(7, signed(0, 10), [1u8; 32], 21000, U256::zero()).unwrap();
    let greedy = QueueTx::SignedTx(SignedTx {
        sender: H160([1u8; 20]),
        nonce: 1,
        gas_limit: U256::from_u64(21000),
        pricing: GasPricing::Legacy { gas_price: U256([0, 0, 0, u64::MAX]) },
        raw: Vec::new(),
    });
    assert_eq!(
        queues.queue_tx(7, greedy, [2u8; 32], 21000, U256::zero()),
        Err(EVMError::FeeOverflow)
    );
    assert_eq!(queues.len(7), 1);
    assert_eq!(queues.get_total_fees(7), Some(U256::from_u64(210000)));
}

#[test]
fn queues_with_different_ids_are_independent() {
    let mut queues = TransactionQueueMap::new();
    queues.create(1).unwrap();
    queues.create(2).unwrap();
    queues.queue_tx(1, signed(0, 10), [1u8; 32], 21000, U256::zero()).unwrap();
    assert_eq!(queues.len(1), 1);
    assert_eq!(queues.len(2), 0);
    assert_eq!(queues.get_total_fees(2), Some(U256::zero()));
}

#[test]
fn remove_disposes_of_a_queue() {
    let mut queues = TransactionQueueMap::new();
    queues.create(1).unwrap();
    queues.queue_tx(1, signed(0, 10), [1u8; 32], 21000, U256::zero()).unwrap();
    let removed = queues.remove(1);
    assert!(removed.is_some());
    assert_eq!(removed.unwrap().len(), 1);
    assert_eq!(queues.get_total_fees(1), None);
    assert!(queues.remove(1).is_none());
}

#[test]
fn a_single_queue_sums_its_fees() {
    let mut queue = TransactionQueue::new();
    assert_eq!(queue.len(), 0);
    assert_eq!(queue.get_total_fees(), U256::zero());
    queue.queue_tx(signed(0, 10), [1u8; 32], 21000, U256::zero()).unwrap();
    queue.queue_tx(signed(1, 1), [2u8; 32], 5, U256::zero()).unwrap();
    assert_eq!(queue.get_total_fees(), U256::from_u64(210005));
    assert_eq!(queue.get_cloned_vec().len(), 2);
}
