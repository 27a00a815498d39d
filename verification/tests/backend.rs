use ain_evm::backend::{Apply, Backend, Code, Slot, Storage};
use ain_evm::error::EVMError;
use ain_evm::hash::{H160, H256};
use ain_evm::uint::U256;

fn address(b: u8) -> H160 {
    H160([b; 20])
}

fn key(n: u64) -> H256 {
    H256::from_low_u64_be(n)
}

fn code(b: u8) -> Code {
    Code { bytes: vec![b, b, b], hash: H256([b; 32]) }
}

#[test]
fn storage_reads_what_was_written_last() {
    let mut storage = Storage::new();
    assert_eq!(storage.get(&key(1)), None);
    storage.set(key(1), key(10));
    storage.set(key(2), key(20));
    storage.set(key(1), key(11));
    assert_eq!(storage.get(&key(1)), Some(key(11)));
    assert_eq!(storage.get(&key(2)), Some(key(20)));
    assert_eq!(storage.get(&key(3)), None);
    let copy = storage.copy();
    assert_eq!(copy.get(&key(1)), Some(key(11)));
}

#[test]
fn an_address_without_an_account_reads_as_empty() {
    let backend = Backend::new();
    assert!(backend.get_account(&address(1)).is_none());
    assert_eq!(backend.get_nonce(&address(1)), 0);
    assert_eq!(backend.get_contract_storage(&address(1), &key(1)), U256::zero());
}

#[test]
fn add_balance_creates_the_account_and_adds() {
    let mut backend = Backend::new();
    assert_eq!(backend.add_balance(address(1), U256::from_u64(5)), Ok(()));
    assert_eq!(backend.add_balance(address(1), U256::from_u64(7)), Ok(()));
    let account = backend.get_account(&address(1)).unwrap();
    assert_eq!(account.balance, U256::from_u64(12));
    assert_eq!(account.nonce, 0);
    assert!(account.code.bytes.is_empty());
}

#[test]
fn add_balance_overflow_is_an_error_and_changes_nothing() {
    let mut backend = Backend::new();
    let max = U256([u64::MAX, u64::MAX, u64::MAX, u64::MAX]);
    backend.add_balance(address(1), max).unwrap();
    assert_eq!(backend.add_balance(address(1), U256::one()), Err(EVMError::BalanceOverflow));
    assert_eq!(backend.get_account(&address(1)).unwrap().balance, max);
}

#[test]
fn sub_balance_takes_from_the_balance() {
    let mut backend = Backend::new();
    backend.add_balance(address(1), U256::from_u64(12)).unwrap();
    assert_eq!(backend.sub_balance(address(1), U256::from_u64(12)), Ok(()));
    assert_eq!(backend.get_account(&address(1)).unwrap().balance, U256::zero());
}

#[test]
fn sub_balance_beyond_the_balance_is_an_error_and_changes_nothing() {
    let mut backend = Backend::new();
    backend.add_balance(address(1), U256::from_u64(12)).unwrap();
    assert_eq!(
        backend.sub_balance(address(1), U256::from_u64(13)),
        Err(EVMError::InsufficientBalance)
    );
    assert_eq!(backend.get_account(&address(1)).unwrap().balance, U256::from_u64(12));
    assert_eq!(backend.sub_balance(address(2), U256::from_u64(1)), Err(EVMError::NoSuchAccount));
    assert!(backend.get_account(&address(2)).is_none());
}

#[test]
fn deploy_contract_writes_code_and_storage() {
    let mut backend = Backend::new();
    backend.add_balance(address(1), U256::from_u64(9)).unwrap();
    let slots = vec![Slot { key: key(3), value: key(33) }, Slot { key: key(4), value: key(44) }];
    assert_eq!(backend.deploy_contract(address(1), code(7), &slots), Ok(()));
    let account = backend.get_account(&address(1)).unwrap();
    assert_eq!(account.code.bytes, vec![7, 7, 7]);
    assert_eq!(account.code.hash, H256([7; 32]));
    assert_eq!(account.balance, U256::from_u64(9));
    assert_eq!(backend.get_contract_storage(&address(1), &key(3)), U256::from_u64(33));
    assert_eq!(backend.get_contract_storage(&address(1), &key(4)), U256::from_u64(44));
    assert_eq!(backend.get_contract_storage(&address(1), &key(5)), U256::zero());
}

#[test]
fn deploy_contract_over_code_is_an_error_and_changes_nothing() {
    let mut backend = Backend::new();
    let slots = vec![Slot { key: key(3), value: key(33) }];
    backend.deploy_contract(address(1), code(7), &slots).unwrap();
    let other = vec![Slot { key: key(3), value: key(99) }];
    assert_eq!(backend.deploy_contract(address(1), code(8), &other), Err(EVMError::ContractExists));
    assert_eq!(backend.get_account(&address(1)).unwrap().code.bytes, vec![7, 7, 7]);
    assert_eq!(backend.get_contract_storage(&address(1), &key(3)), U256::from_u64(33));
}

#[test]
fn update_storage_writes_slots_and_keeps_the_others() {
    let mut backend = Backend::new();
    let slots = vec![Slot { key: key(1), value: key(10) }, Slot { key: key(2), value: key(20) }];
    backend.deploy_contract(address(1), code(7), &slots).unwrap();
    backend.update_storage(address(1), &vec![Slot { key: key(1), value: key(11) }]);
    assert_eq!(backend.get_contract_storage(&address(1), &key(1)), U256::from_u64(11));
    assert_eq!(backend.get_contract_storage(&address(1), &key(2)), U256::from_u64(20));
    assert_eq!(backend.get_account(&address(1)).unwrap().code.bytes, vec![7, 7, 7]);
}

#[test]
fn apply_modifies_and_deletes_accounts() {
    let mut backend = Backend::new();
    backend.add_balance(address(1), U256::from_u64(100)).unwrap();
    backend.update_storage(address(1), &vec![Slot { key: key(1), value: key(10) }]);
    backend.add_balance(address(2), U256::from_u64(5)).unwrap();
    backend.apply_all(&vec![
        Apply::Modify {
            address: address(1),
            nonce: 1,
            balance: U256::from_u64(60),
            code: None,
            storage: vec![Slot { key: key(2), value: key(20) }],
            reset_storage: false,
        },
        Apply::Modify {
            address: address(3),
            nonce: 0,
            balance: U256::from_u64(40),
            code: Some(code(9)),
            storage: Vec::new(),
            reset_storage: true,
        },
        Apply::Delete { address: address(2) },
    ]);
    assert_eq!(backend.get_nonce(&address(1)), 1);
    assert_eq!(backend.get_account(&address(1)).unwrap().balance, U256::from_u64(60));
    assert_eq!(backend.get_contract_storage(&address(1), &key(1)), U256::from_u64(10));
    assert_eq!(backend.get_contract_storage(&address(1), &key(2)), U256::from_u64(20));
    assert_eq!(backend.get_account(&address(3)).unwrap().balance, U256::from_u64(40));
    assert_eq!(backend.get_account(&address(3)).unwrap().code.bytes, vec![9, 9, 9]);
    assert!(backend.get_account(&address(2)).is_none());
}

#[test]
fn apply_with_reset_empties_the_storage_first() {
    let mut backend = Backend::new();
    backend.update_storage(address(1), &vec![Slot { key: key(1), value: key(10) }]);
    backend.apply(&Apply::Modify {
        address: address(1),
        nonce: 0,
        balance: U256::zero(),
        code: None,
        storage: vec![Slot { key: key(2), value: key(20) }],
        reset_storage: true,
    });
    assert_eq!(backend.get_contract_storage(&address(1), &key(1)), U256::zero());
    assert_eq!(backend.get_contract_storage(&address(1), &key(2)), U256::from_u64(20));
}

#[test]
fn a_copy_is_independent_of_its_source() {
    let mut backend = Backend::new();
    backend.add_balance(address(1), U256::from_u64(5)).unwrap();
    let mut copy = backend.copy();
    copy.add_balance(address(1), U256::from_u64(1)).unwrap();
    assert_eq!(backend.get_account(&address(1)).unwrap().balance, U256::from_u64(5));
    assert_eq!(copy.get_account(&address(1)).unwrap().balance, U256::from_u64(6));
}
