//! The account state that a block works on.
//!
//! The state maps addresses to accounts; an account has a nonce, a balance,
//! code with its hash, and storage that maps 256-bit keys to 256-bit words.
//! A key that was never written reads as the zero word, and an address
//! without an account reads as nonce 0.

use crate::error::EVMError;
use crate::hash::{zero_hash, H160, H256};
use crate::transaction::copy_bytes;
use crate::uint::{max_u256, U256};
use vstd::prelude::*;

verus! {

/// One written slot of an account's storage.
#[derive(Clone, Copy, Debug, PartialEq, Eq)]
pub struct Slot {
    pub key: H256,
    pub value: H256,
}

/// The keys of a list of slots, in order.
pub open spec fn slot_keys(slots: Seq<Slot>) -> Seq<H256> {
    slots.map_values(|s: Slot| s.key)
}

/// Whether no value occurs twice in a sequence.
pub open spec fn distinct<K>(keys: Seq<K>) -> bool {
    forall|i: int, j: int|
        0 <= i < keys.len() && 0 <= j < keys.len() && i != j ==> keys[i] != keys[j]
}

/// What a storage is after the slots of a list were written to it, first
/// slot first.
pub open spec fn write_slots(storage: Map<H256, H256>, slots: Seq<Slot>) -> Map<H256, H256>
    decreases slots.len(),
{
    if slots.len() == 0 {
        storage
    } else {
        write_slots(storage, slots.drop_last()).insert(slots.last().key, slots.last().value)
    }
}

/// Writing a single slot puts its word under its key.
pub proof fn lemma_write_one(storage: Map<H256, H256>, slot: Slot)
    ensures
        write_slots(storage, seq![slot]) == storage.insert(slot.key, slot.value),
{
    let slots = seq![slot];
    assert(slots.drop_last() =~= Seq::<Slot>::empty());
    assert(write_slots(storage, slots.drop_last()) == storage);
}

/// The storage of one account.
#[derive(Debug)]
pub struct Storage {
    slots: Vec<Slot>,
}

impl View for Storage {
    type V = Map<H256, H256>;

    closed spec fn view(&self) -> Map<H256, H256> {
        Map::new(
            |key: H256| slot_keys(self.slots@).contains(key),
            |key: H256| self.slots@[slot_keys(self.slots@).index_of(key)].value,
        )
    }
}

impl Storage {
    /// The invariant of a storage: no key is held twice.
    pub closed spec fn wf(&self) -> bool {
        distinct(slot_keys(self.slots@))
    }

    /// A storage in which nothing was written.
    pub fn new() -> (r: Storage)
        ensures
            r.wf(),
            r@ == Map::<H256, H256>::empty(),
    {
        let r = Storage { slots: Vec::new() };
        assert(r@ =~= Map::<H256, H256>::empty());
        r
    }

    /// Where the slot with the given key is held, if it is.
    fn position(&self, key: &H256) -> (r: Option<usize>)
        ensures
            match r {
                Some(i) => i < self.slots@.len() && self.slots@[i as int].key == *key,
                None => !slot_keys(self.slots@).contains(*key),
            },
    {
        let mut i: usize = 0;
        while i < self.slots.len()
            invariant
                i <= self.slots.len(),
                forall|j: int| 0 <= j < i ==> self.slots@[j].key != *key,
            decreases self.slots.len() - i,
        {
            if self.slots[i].key.eq(key) {
                return Some(i);
            }
            i = i + 1;
        }
        None
    }

    /// The word under a key, if one was written.
    pub fn get(&self, key: &H256) -> (r: Option<H256>)
        requires
            self.wf(),
        ensures
            self@.contains_key(*key) ==> r == Some(self@[*key]),
            !self@.contains_key(*key) ==> r is None,
    {
        match self.position(key) {
            Some(i) => {
                proof {
                    let keys = slot_keys(self.slots@);
                    assert(keys[i as int] == *key);
                    assert(keys.contains(*key));
                    assert(keys.index_of(*key) == i as int);
                }
                Some(self.slots[i].value)
            },
            None => None,
        }
    }

    /// Writes a word under a key.
    pub fn set(&mut self, key: H256, value: H256)
        requires
            old(self).wf(),
        ensures
            final(self).wf(),
            final(self)@ == old(self)@.insert(key, value),
    {
        let ghost before = self.slots@;
        match self.position(&key) {
            Some(i) => {
                self.slots[i] = Slot { key, value };
                proof {
                    lemma_keys_after_update(before, i as int, Slot { key, value });
                    assert(slot_keys(before)[i as int] == key);
                    assert(self.slots@ == before.update(i as int, Slot { key, value }));
                }
            },
            None => {
                self.slots.push(Slot { key, value });
                proof {
                    lemma_keys_after_push(before, Slot { key, value });
                    assert(self.slots@ == before.push(Slot { key, value }));
                }
            },
        }
        proof {
            let after = self.slots@;
            assert forall|k: H256| #[trigger]
                final(self)@.contains_key(k) == old(self)@.insert(key, value).contains_key(
                    k,
                ) by {
                lemma_contains_after(before, after, key, k);
            }
            assert forall|k: H256| #[trigger]
                final(self)@.contains_key(k) implies final(self)@[k] == old(self)@.insert(
                key,
                value,
            )[k] by {
                lemma_value_after(before, after, Slot { key, value }, k);
            }
            assert(final(self)@ =~= old(self)@.insert(key, value));
        }
    }

    /// Writes the slots of a list, first slot first.
    pub fn write(&mut self, slots: &Vec<Slot>)
        requires
            old(self).wf(),
        ensures
            final(self).wf(),
            final(self)@ == write_slots(old(self)@, slots@),
    {
        let mut i: usize = 0;
        assert(slots@.subrange(0, 0) =~= Seq::<Slot>::empty());
        while i < slots.len()
            invariant
                i <= slots.len(),
                self.wf(),
                self@ == write_slots(old(self)@, slots@.subrange(0, i as int)),
            decreases slots.len() - i,
        {
            self.set(slots[i].key, slots[i].value);
            proof {
                assert(slots@.subrange(0, i + 1).drop_last() =~= slots@.subrange(0, i as int));
            }
            i = i + 1;
        }
        assert(slots@.subrange(0, i as int) =~= slots@);
    }

    /// A copy of the storage.
    pub fn copy(&self) -> (r: Storage)
        requires
            self.wf(),
        ensures
            r.wf(),
            r@ == self@,
    {
        let mut slots: Vec<Slot> = Vec::new();
        let mut i: usize = 0;
        while i < self.slots.len()
            invariant
                i <= self.slots.len(),
                slots@ == self.slots@.subrange(0, i as int),
            decreases self.slots.len() - i,
        {
            slots.push(self.slots[i]);
            i = i + 1;
            assert(slots@ =~= self.slots@.subrange(0, i as int));
        }
        assert(slots@ =~= self.slots@);
        Storage { slots }
    }
}

/// Replacing a slot by one with the same key keeps the keys as they are.
proof fn lemma_keys_after_update(before: Seq<Slot>, i: int, slot: Slot)
    requires
        0 <= i < before.len(),
        before[i].key == slot.key,
    ensures
        slot_keys(before.update(i, slot)) == slot_keys(before),
{
    assert(slot_keys(before.update(i, slot)) =~= slot_keys(before));
}

/// Appending a slot appends its key.
proof fn lemma_keys_after_push(before: Seq<Slot>, slot: Slot)
    ensures
        slot_keys(before.push(slot)) == slot_keys(before).push(slot.key),
{
    assert(slot_keys(before.push(slot)) =~= slot_keys(before).push(slot.key));
}

/// After a write under `key`, the keys held are those held before and `key`.
proof fn lemma_contains_after(before: Seq<Slot>, after: Seq<Slot>, key: H256, k: H256)
    requires
        slot_keys(after) == slot_keys(before) && slot_keys(before).contains(key) || slot_keys(after)
            == slot_keys(before).push(key),
    ensures
        slot_keys(after).contains(k) == (k == key || slot_keys(before).contains(k)),
{
    let kb = slot_keys(before);
    let ka = slot_keys(after);
    if ka == kb.push(key) {
        if ka.contains(k) {
            let i = ka.index_of(k);
            if i < kb.len() {
                assert(kb[i] == k);
            }
        }
        if kb.contains(k) {
            let i = kb.index_of(k);
            assert(ka[i] == k);
        }
        assert(ka[kb.len() as int] == key);
    }
}

/// After a write under the key of `slot`, that key reads as the slot's word
/// and every other key as before.
proof fn lemma_value_after(before: Seq<Slot>, after: Seq<Slot>, slot: Slot, k: H256)
    requires
        distinct(slot_keys(before)),
        distinct(slot_keys(after)),
        slot_keys(after).contains(k),
        (exists|i: int|
            0 <= i < before.len() && before[i].key == slot.key && after == before.update(i, slot))
            || (!slot_keys(before).contains(slot.key) && after == before.push(slot)),
    ensures
        k == slot.key ==> after[slot_keys(after).index_of(k)].value == slot.value,
        k != slot.key ==> slot_keys(before).contains(k) && after[slot_keys(after).index_of(k)].value
            == before[slot_keys(before).index_of(k)].value,
{
    let kb = slot_keys(before);
    let ka = slot_keys(after);
    let ia = ka.index_of(k);
    assert(ka[ia] == k);
    assert(after[ia].key == k);
    if !kb.contains(slot.key) && after == before.push(slot) {
        if k != slot.key {
            assert(ia < before.len());
            assert(kb[ia] == k);
            assert(kb.contains(k));
            let ib = kb.index_of(k);
            assert(ka[ib] == k);
        } else {
            assert(ka[before.len() as int] == k);
        }
    } else {
        let i = choose|i: int|
            0 <= i < before.len() && before[i].key == slot.key && after == before.update(i, slot);
        assert(ka =~= kb);
        if k == slot.key {
            assert(ka[i] == k);
        } else {
            assert(kb[ia] == k);
            let ib = kb.index_of(k);
            assert(ka[ib] == k);
        }
    }
}

/// In a sequence without repetition every position is found again by its
/// value.
pub proof fn lemma_index_of_distinct<K>(keys: Seq<K>, i: int)
    requires
        distinct(keys),
        0 <= i < keys.len(),
    ensures
        keys.contains(keys[i]),
        keys.index_of(keys[i]) == i,
{
    assert(keys.contains(keys[i]));
    let j = keys.index_of(keys[i]);
    assert(keys[j] == keys[i]);
}

/// The code of an account, with the hash that identifies it.
#[derive(Debug)]
pub struct Code {
    pub bytes: Vec<u8>,
    pub hash: H256,
}

/// One account of the state.
#[derive(Debug)]
pub struct Account {
    pub address: H160,
    pub nonce: u64,
    pub balance: U256,
    pub code: Code,
    pub storage: Storage,
}

/// An account as a plain value.
pub ghost struct AccountView {
    pub nonce: u64,
    pub balance: nat,
    pub code: Seq<u8>,
    pub code_hash: H256,
    pub storage: Map<H256, H256>,
}

impl View for Account {
    type V = AccountView;

    open spec fn view(&self) -> AccountView {
        AccountView {
            nonce: self.nonce,
            balance: self.balance@,
            code: self.code.bytes@,
            code_hash: self.code.hash,
            storage: self.storage@,
        }
    }
}

/// The state as a plain value: the accounts by their addresses.
pub type StateView = Map<H160, AccountView>;

/// The hash that stands for "no code": 32 zero bytes.
pub open spec fn no_code_hash() -> H256 {
    zero_hash()
}

/// The account that an address without an account reads as.
pub open spec fn empty_account() -> AccountView {
    AccountView {
        nonce: 0,
        balance: 0,
        code: Seq::empty(),
        code_hash: no_code_hash(),
        storage: Map::empty(),
    }
}

/// The account at an address, or the empty account where there is none.
pub open spec fn account_at(state: StateView, address: H160) -> AccountView {
    if state.contains_key(address) {
        state[address]
    } else {
        empty_account()
    }
}

/// The number held under a storage key of an account; 0 where the account or
/// the key is missing.
pub open spec fn storage_at(state: StateView, address: H160, key: H256) -> nat {
    if account_at(state, address).storage.contains_key(key) {
        account_at(state, address).storage[key].word()
    } else {
        0
    }
}

/// The state after `amount` was added to the balance of `address`. An
/// address without an account gets one. An error where the balance would
/// leave the range of 256 bits.
pub open spec fn credited(state: StateView, address: H160, amount: nat) -> Result<
    StateView,
    EVMError,
> {
    let account = account_at(state, address);
    if account.balance + amount > max_u256() {
        Err(EVMError::BalanceOverflow)
    } else {
        Ok(
            state.insert(
                address,
                AccountView { balance: account.balance + amount, ..account },
            ),
        )
    }
}

/// The state after `amount` was taken from the balance of `address`. An
/// error where there is no such account or the balance is too small.
pub open spec fn debited(state: StateView, address: H160, amount: nat) -> Result<
    StateView,
    EVMError,
> {
    if !state.contains_key(address) {
        Err(EVMError::NoSuchAccount)
    } else if state[address].balance < amount {
        Err(EVMError::InsufficientBalance)
    } else {
        Ok(
            state.insert(
                address,
                AccountView {
                    balance: (state[address].balance - amount) as nat,
                    ..state[address]
                },
            ),
        )
    }
}

/// The state after code was deployed at `address` with the given slots as
/// its whole storage. A nonce and a balance that the address had are kept.
/// An error where the address already has code.
pub open spec fn deployed(
    state: StateView,
    address: H160,
    code: Seq<u8>,
    code_hash: H256,
    slots: Seq<Slot>,
) -> Result<StateView, EVMError> {
    let account = account_at(state, address);
    if account.code.len() > 0 {
        Err(EVMError::ContractExists)
    } else {
        Ok(
            state.insert(
                address,
                AccountView {
                    code,
                    code_hash,
                    storage: write_slots(Map::empty(), slots),
                    ..account
                },
            ),
        )
    }
}

/// The state after the given slots were written to the storage of
/// `address`. An address without an account gets one.
pub open spec fn storage_updated(state: StateView, address: H160, slots: Seq<Slot>) -> StateView {
    let account = account_at(state, address);
    state.insert(address, AccountView { storage: write_slots(account.storage, slots), ..account })
}

/// One change that the execution of a transaction makes to the state.
#[derive(Debug)]
pub enum Apply {
    /// The account at `address` gets the given nonce and balance; new code
    /// where `code` holds some; and the given slots written to its storage,
    /// which is emptied first where `reset_storage` is set.
    Modify {
        address: H160,
        nonce: u64,
        balance: U256,
        code: Option<Code>,
        storage: Vec<Slot>,
        reset_storage: bool,
    },
    /// The account at `address` is removed.
    Delete { address: H160 },
}

/// The state after one change.
pub open spec fn applied(state: StateView, change: Apply) -> StateView {
    match change {
        Apply::Modify { address, nonce, balance, code, storage, reset_storage } => {
            let account = account_at(state, address);
            state.insert(
                address,
                AccountView {
                    nonce,
                    balance: balance@,
                    code: match code {
                        Some(c) => c.bytes@,
                        None => account.code,
                    },
                    code_hash: match code {
                        Some(c) => c.hash,
                        None => account.code_hash,
                    },
                    storage: write_slots(
                        if reset_storage {
                            Map::empty()
                        } else {
                            account.storage
                        },
                        storage@,
                    ),
                },
            )
        },
        Apply::Delete { address } => state.remove(address),
    }
}

/// The state after the changes of a list, first change first.
pub open spec fn applied_all(state: StateView, changes: Seq<Apply>) -> StateView
    decreases changes.len(),
{
    if changes.len() == 0 {
        state
    } else {
        applied(applied_all(state, changes.drop_last()), changes.last())
    }
}

/// The addresses of a list of accounts, in order.
pub open spec fn addresses(accounts: Seq<Account>) -> Seq<H160> {
    accounts.map_values(|a: Account| a.address)
}

/// The accounts of a list by their addresses.
pub open spec fn accounts_view(accounts: Seq<Account>) -> StateView {
    Map::new(
        |address: H160| addresses(accounts).contains(address),
        |address: H160| accounts[addresses(accounts).index_of(address)]@,
    )
}

/// Replacing one account of a list by an account with the same address
/// replaces it in the view and leaves every other address as it was.
proof fn lemma_replaced(before: Seq<Account>, after: Seq<Account>, i: int)
    requires
        distinct(addresses(before)),
        0 <= i < before.len(),
        after.len() == before.len(),
        after[i].address == before[i].address,
        forall|j: int| 0 <= j < before.len() && j != i ==> after[j] == before[j],
    ensures
        distinct(addresses(after)),
        addresses(after) == addresses(before),
        accounts_view(before).contains_key(before[i].address),
        accounts_view(before)[before[i].address] == before[i]@,
        accounts_view(after) == accounts_view(before).insert(before[i].address, after[i]@),
{
    let kb = addresses(before);
    let ka = addresses(after);
    assert(ka =~= kb);
    lemma_index_of_distinct(kb, i);
    assert forall|a: H160| #[trigger] accounts_view(after).contains_key(a) implies accounts_view(
        after,
    )[a] == accounts_view(before).insert(before[i].address, after[i]@)[a] by {
        let j = ka.index_of(a);
        assert(kb[j] == a);
        if j == i {
        } else {
            assert(kb[j] != kb[i]);
        }
    }
    assert(accounts_view(after) =~= accounts_view(before).insert(before[i].address, after[i]@));
}

/// Appending an account with a new address adds it to the view.
proof fn lemma_pushed(before: Seq<Account>, account: Account)
    requires
        distinct(addresses(before)),
        !addresses(before).contains(account.address),
    ensures
        distinct(addresses(before.push(account))),
        !accounts_view(before).contains_key(account.address),
        accounts_view(before.push(account)) == accounts_view(before).insert(
            account.address,
            account@,
        ),
{
    let after = before.push(account);
    let kb = addresses(before);
    let ka = addresses(after);
    assert(ka =~= kb.push(account.address));
    assert forall|i: int, j: int| 0 <= i < ka.len() && 0 <= j < ka.len() && i != j implies ka[i]
        != ka[j] by {
        if i < kb.len() {
            assert(kb[i] == ka[i]);
            assert(kb.contains(kb[i]));
        }
        if j < kb.len() {
            assert(kb[j] == ka[j]);
            assert(kb.contains(kb[j]));
        }
    }
    let target = accounts_view(before).insert(account.address, account@);
    assert forall|a: H160| #[trigger] accounts_view(after).contains_key(a) == target.contains_key(
        a,
    ) by {
        if ka.contains(a) {
            let j = ka.index_of(a);
            if j < kb.len() {
                assert(kb[j] == a);
            }
        }
        if kb.contains(a) {
            let j = kb.index_of(a);
            assert(ka[j] == a);
        }
        assert(ka[kb.len() as int] == account.address);
    }
    assert forall|a: H160| #[trigger] accounts_view(after).contains_key(a) implies accounts_view(
        after,
    )[a] == target[a] by {
        let j = ka.index_of(a);
        assert(ka[j] == a);
        if j < kb.len() {
            assert(kb[j] == a);
            assert(kb.contains(a));
            lemma_index_of_distinct(kb, j);
        } else {
            assert(j == kb.len());
        }
    }
    assert(accounts_view(after) =~= target);
}

/// Taking one account out of a list takes its address out of the view.
proof fn lemma_removed(before: Seq<Account>, i: int)
    requires
        distinct(addresses(before)),
        0 <= i < before.len(),
    ensures
        distinct(addresses(before.remove(i))),
        accounts_view(before.remove(i)) == accounts_view(before).remove(before[i].address),
{
    let after = before.remove(i);
    let kb = addresses(before);
    let ka = addresses(after);
    assert(ka =~= kb.remove(i));
    let target = accounts_view(before).remove(before[i].address);
    assert forall|a: H160| #[trigger] accounts_view(after).contains_key(a) == target.contains_key(
        a,
    ) by {
        if ka.contains(a) {
            let j = ka.index_of(a);
            assert(ka[j] == a);
            let k = if j < i {
                j
            } else {
                j + 1
            };
            assert(kb[k] == a);
            assert(kb[k] != kb[i]);
            assert(kb.contains(a));
        }
        if kb.contains(a) && a != before[i].address {
            let j = kb.index_of(a);
            assert(kb[j] == a);
            assert(j != i);
            let k = if j < i {
                j
            } else {
                j - 1
            };
            assert(ka[k] == a);
            assert(ka.contains(a));
        }
    }
    assert forall|a: H160| #[trigger] accounts_view(after).contains_key(a) implies accounts_view(
        after,
    )[a] == target[a] by {
        let j = ka.index_of(a);
        assert(ka[j] == a);
        if j < i {
            lemma_index_of_distinct(kb, j);
        } else {
            lemma_index_of_distinct(kb, j + 1);
        }
    }
    assert(accounts_view(after) =~= target);
}

/// The account state.
#[derive(Debug)]
pub struct Backend {
    accounts: Vec<Account>,
}

impl View for Backend {
    type V = StateView;

    closed spec fn view(&self) -> StateView {
        accounts_view(self.accounts@)
    }
}

impl Backend {
    /// The invariant of a state: no address is held twice, and the storage
    /// of every account is well formed.
    pub closed spec fn wf(&self) -> bool {
        &&& distinct(addresses(self.accounts@))
        &&& forall|i: int|
            0 <= i < self.accounts@.len() ==> (#[trigger] self.accounts@[i]).storage.wf()
    }

    /// The state without accounts.
    pub fn new() -> (r: Backend)
        ensures
            r.wf(),
            r@ == Map::<H160, AccountView>::empty(),
    {
        let r = Backend { accounts: Vec::new() };
        assert(r@ =~= Map::<H160, AccountView>::empty());
        r
    }

    /// Where the account with the given address is held, if there is one.
    fn position(&self, address: &H160) -> (r: Option<usize>)
        requires
            self.wf(),
        ensures
            match r {
                Some(i) => i < self.accounts@.len() && self.accounts@[i as int].address == *address
                    && self@.contains_key(*address) && self@[*address] == self.accounts@[i as int]@,
                None => !self@.contains_key(*address) && !addresses(self.accounts@).contains(
                    *address,
                ),
            },
    {
        let mut i: usize = 0;
        while i < self.accounts.len()
            invariant
                self.wf(),
                i <= self.accounts.len(),
                forall|j: int| 0 <= j < i ==> self.accounts@[j].address != *address,
            decreases self.accounts.len() - i,
        {
            if self.accounts[i].address.eq(address) {
                proof {
                    lemma_index_of_distinct(addresses(self.accounts@), i as int);
                }
                return Some(i);
            }
            i = i + 1;
        }
        None
    }

    /// Where the account with the given address is held; an address without
    /// an account gets an empty one first.
    fn position_or_new(&mut self, address: H160) -> (i: usize)
        requires
            old(self).wf(),
        ensures
            final(self).wf(),
            i < final(self).accounts@.len(),
            final(self).accounts@[i as int].address == address,
            final(self).accounts@[i as int]@ == account_at(old(self)@, address),
            final(self)@ == old(self)@.insert(address, account_at(old(self)@, address)),
    {
        match self.position(&address) {
            Some(i) => {
                assert(final(self)@ =~= old(self)@.insert(
                    address,
                    account_at(old(self)@, address),
                ));
                i
            },
            None => {
                let account = Account {
                    address,
                    nonce: 0,
                    balance: U256::zero(),
                    code: Code { bytes: Vec::new(), hash: H256([0u8; 32]) },
                    storage: Storage::new(),
                };
                proof {
                    lemma_pushed(self.accounts@, account);
                    assert(account.code.bytes@ =~= Seq::<u8>::empty());
                }
                self.accounts.push(account);
                self.accounts.len() - 1
            },
        }
    }

    /// The account at an address, if there is one.
    pub fn get_account(&self, address: &H160) -> (r: Option<&Account>)
        requires
            self.wf(),
        ensures
            self@.contains_key(*address) ==> r is Some && r.unwrap()@ == self@[*address]
                && r.unwrap().address == *address && r.unwrap().storage.wf(),
            !self@.contains_key(*address) ==> r is None,
    {
        match self.position(address) {
            Some(i) => Some(&self.accounts[i]),
            None => None,
        }
    }

    /// The nonce of an address; 0 where it has no account.
    pub fn get_nonce(&self, address: &H160) -> (nonce: u64)
        requires
            self.wf(),
        ensures
            nonce == account_at(self@, *address).nonce,
    {
        match self.position(address) {
            Some(i) => self.accounts[i].nonce,
            None => 0,
        }
    }

    /// The number held under a storage key of a contract; 0 where the
    /// contract or the key is missing.
    pub fn get_contract_storage(&self, contract: &H160, key: &H256) -> (word: U256)
        requires
            self.wf(),
        ensures
            word@ == storage_at(self@, *contract, *key),
    {
        match self.position(contract) {
            Some(i) => match self.accounts[i].storage.get(key) {
                Some(value) => value.to_u256(),
                None => U256::zero(),
            },
            None => U256::zero(),
        }
    }

    /// Adds `amount` to the balance of `address`. On an error the state is
    /// left as it was.
    pub fn add_balance(&mut self, address: H160, amount: U256) -> (r: Result<(), EVMError>)
        requires
            old(self).wf(),
        ensures
            final(self).wf(),
            match credited(old(self)@, address, amount@) {
                Ok(state) => r is Ok && final(self)@ == state,
                Err(e) => r == Err::<(), EVMError>(e) && final(self)@ == old(self)@,
            },
    {
        let balance = match self.position(&address) {
            Some(i) => self.accounts[i].balance,
            None => U256::zero(),
        };
        match balance.checked_add(amount) {
            None => Err(EVMError::BalanceOverflow),
            Some(sum) => {
                let i = self.position_or_new(address);
                let ghost before = self.accounts@;
                self.accounts[i].balance = sum;
                proof {
                    lemma_replaced(before, self.accounts@, i as int);
                    assert(final(self)@ =~= credited(old(self)@, address, amount@).unwrap());
                }
                Ok(())
            },
        }
    }

    /// Takes `amount` from the balance of `address`. On an error the state
    /// is left as it was.
    pub fn sub_balance(&mut self, address: H160, amount: U256) -> (r: Result<(), EVMError>)
        requires
            old(self).wf(),
        ensures
            final(self).wf(),
            match debited(old(self)@, address, amount@) {
                Ok(state) => r is Ok && final(self)@ == state,
                Err(e) => r == Err::<(), EVMError>(e) && final(self)@ == old(self)@,
            },
    {
        match self.position(&address) {
            None => Err(EVMError::NoSuchAccount),
            Some(i) => match self.accounts[i].balance.checked_sub(amount) {
                None => Err(EVMError::InsufficientBalance),
                Some(rest) => {
                    let ghost before = self.accounts@;
                    self.accounts[i].balance = rest;
                    proof {
                        lemma_replaced(before, self.accounts@, i as int);
                    }
                    Ok(())
                },
            },
        }
    }

    /// Deploys code at `address`, with the given slots as its whole storage.
    /// On an error the state is left as it was.
    pub fn deploy_contract(&mut self, address: H160, code: Code, storage: &Vec<Slot>) -> (r: Result<
        (),
        EVMError,
    >)
        requires
            old(self).wf(),
        ensures
            final(self).wf(),
            match deployed(old(self)@, address, code.bytes@, code.hash, storage@) {
                Ok(state) => r is Ok && final(self)@ == state,
                Err(e) => r == Err::<(), EVMError>(e) && final(self)@ == old(self)@,
            },
    {
        match self.position(&address) {
            Some(i) => {
                if self.accounts[i].code.bytes.len() > 0 {
                    return Err(EVMError::ContractExists);
                }
            },
            None => {},
        }
        let mut fresh = Storage::new();
        fresh.write(storage);
        let i = self.position_or_new(address);
        let ghost before = self.accounts@;
        self.accounts[i].code = code;
        self.accounts[i].storage = fresh;
        proof {
            lemma_replaced(before, self.accounts@, i as int);
            assert(final(self)@ =~= deployed(
                old(self)@,
                address,
                code.bytes@,
                code.hash,
                storage@,
            ).unwrap());
        }
        Ok(())
    }

    /// Writes the given slots to the storage of `address`.
    pub fn update_storage(&mut self, address: H160, storage: &Vec<Slot>)
        requires
            old(self).wf(),
        ensures
            final(self).wf(),
            final(self)@ == storage_updated(old(self)@, address, storage@),
    {
        let i = self.position_or_new(address);
        let ghost before = self.accounts@;
        self.accounts[i].storage.write(storage);
        proof {
            lemma_replaced(before, self.accounts@, i as int);
            assert(final(self)@ =~= storage_updated(old(self)@, address, storage@));
        }
    }

    /// Makes one change to the state.
    pub fn apply(&mut self, change: &Apply)
        requires
            old(self).wf(),
        ensures
            final(self).wf(),
            final(self)@ == applied(old(self)@, *change),
    {
        match change {
            Apply::Modify { address, nonce, balance, code, storage, reset_storage } => {
                let i = self.position_or_new(*address);
                let ghost before = self.accounts@;
                self.accounts[i].nonce = *nonce;
                self.accounts[i].balance = *balance;
                match code {
                    Some(c) => {
                        self.accounts[i].code = Code { bytes: copy_bytes(&c.bytes), hash: c.hash };
                    },
                    None => {},
                }
                if *reset_storage {
                    self.accounts[i].storage = Storage::new();
                }
                self.accounts[i].storage.write(storage);
                proof {
                    lemma_replaced(before, self.accounts@, i as int);
                    assert(final(self)@ =~= applied(old(self)@, *change));
                }
            },
            Apply::Delete { address } => {
                match self.position(address) {
                    Some(i) => {
                        proof {
                            lemma_removed(self.accounts@, i as int);
                        }
                        self.accounts.remove(i);
                    },
                    None => {
                        assert(final(self)@ =~= old(self)@.remove(*address));
                    },
                }
            },
        }
    }

    /// Makes the changes of a list, first change first.
    pub fn apply_all(&mut self, changes: &Vec<Apply>)
        requires
            old(self).wf(),
        ensures
            final(self).wf(),
            final(self)@ == applied_all(old(self)@, changes@),
    {
        let mut i: usize = 0;
        assert(changes@.subrange(0, 0) =~= Seq::<Apply>::empty());
        while i < changes.len()
            invariant
                i <= changes.len(),
                self.wf(),
                self@ == applied_all(old(self)@, changes@.subrange(0, i as int)),
            decreases changes.len() - i,
        {
            self.apply(&changes[i]);
            proof {
                assert(changes@.subrange(0, i + 1).drop_last() =~= changes@.subrange(0, i as int));
            }
            i = i + 1;
        }
        assert(changes@.subrange(0, i as int) =~= changes@);
    }

    /// A copy of the state.
    pub fn copy(&self) -> (r: Backend)
        requires
            self.wf(),
        ensures
            r.wf(),
            r@ == self@,
    {
        let mut accounts: Vec<Account> = Vec::new();
        let mut i: usize = 0;
        while i < self.accounts.len()
            invariant
                self.wf(),
                i <= self.accounts.len(),
                accounts@.len() == i,
                forall|j: int|
                    0 <= j < i ==> (#[trigger] accounts@[j]).address == self.accounts@[j].address
                        && accounts@[j]@ == self.accounts@[j]@ && accounts@[j].storage.wf(),
            decreases self.accounts.len() - i,
        {
            let a = &self.accounts[i];
            accounts.push(
                Account {
                    address: a.address,
                    nonce: a.nonce,
                    balance: a.balance,
                    code: Code { bytes: copy_bytes(&a.code.bytes), hash: a.code.hash },
                    storage: a.storage.copy(),
                },
            );
            i = i + 1;
        }
        let r = Backend { accounts };
        proof {
            assert(addresses(r.accounts@) =~= addresses(self.accounts@));
            assert forall|a: H160| #[trigger] r@.contains_key(a) implies r@[a] == self@[a] by {
                let j = addresses(r.accounts@).index_of(a);
                assert(r.accounts@[j].address == a);
            }
            assert(r@ =~= self@);
        }
        r
    }
}

} // verus!
