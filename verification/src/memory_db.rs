//! The world state held in memory.  Each table is a vector of key-value
//! pairs in which no key occurs twice.

use vstd::prelude::*;
use crate::word::{Word, Address, lemma_word_of_view, lemma_address_of_view};
use crate::error::EVMError;
use crate::primitives::{keccak256_word, address_create};
use crate::assoc::{
    assoc_map, no_dup_keys, has_key, lemma_assoc_dom, lemma_assoc_get, lemma_assoc_push,
    lemma_no_dup_push, lemma_assoc_update,
};
use crate::state::{AccountModel, LogModel, StateModel, StateDB, StateObject};

verus! {

/// The view of a stored account.
pub open spec fn account_view(o: StateObject) -> AccountModel {
    o@
}

/// A table from storage keys to words.
pub struct SlotTable {
    entries: Vec<((Address, Word), Word)>,
}

impl View for SlotTable {
    type V = Map<(Address, Word), Word>;

    closed spec fn view(&self) -> Map<(Address, Word), Word> {
        assoc_map(self.entries@)
    }
}

impl SlotTable {
    /// No key occurs twice.
    pub closed spec fn wf(&self) -> bool {
        no_dup_keys(self.entries@)
    }

    pub fn new() -> (r: SlotTable)
        ensures
            r.wf(),
            r@ == Map::<(Address, Word), Word>::empty(),
    {
        SlotTable { entries: Vec::new() }
    }

    /// The place of a key in the table.
    fn find(&self, address: Address, slot: Word) -> (r: Option<usize>)
        ensures
            r matches Some(i) ==> i < self.entries@.len() && self.entries@[i as int].0 == (address, slot),
            r is None ==> !has_key(self.entries@, (address, slot)),
    {
        let mut i: usize = 0;
        while i < self.entries.len()
            invariant
                i <= self.entries@.len(),
                forall|j: int| 0 <= j < i ==> self.entries@[j].0 != (address, slot),
            decreases self.entries@.len() - i,
        {
            let e = &self.entries[i];
            if e.0.0 == address && e.0.1 == slot {
                return Some(i);
            }
            i = i + 1;
        }
        None
    }

    /// The word stored under a key, if any.
    pub fn get(&self, address: Address, slot: Word) -> (r: Option<Word>)
        requires
            self.wf(),
        ensures
            r is Some <==> self@.dom().contains((address, slot)),
            r matches Some(v) ==> v == self@[(address, slot)],
    {
        proof {
            lemma_assoc_dom(self.entries@, (address, slot));
        }
        match self.find(address, slot) {
            Some(i) => {
                proof {
                    lemma_assoc_get(self.entries@, i as int);
                }
                Some(self.entries[i].1)
            },
            None => None,
        }
    }

    /// Stores a word under a key.
    pub fn insert(&mut self, address: Address, slot: Word, value: Word)
        requires
            old(self).wf(),
        ensures
            final(self).wf(),
            final(self)@ == old(self)@.insert((address, slot), value),
    {
        match self.find(address, slot) {
            Some(i) => {
                proof {
                    lemma_assoc_update(self.entries@, i as int, value);
                }
                self.entries[i] = ((address, slot), value);
            },
            None => {
                proof {
                    lemma_assoc_push(self.entries@, (address, slot), value);
                    lemma_no_dup_push(self.entries@, (address, slot), value);
                }
                self.entries.push(((address, slot), value));
            },
        }
    }

    /// Empties the table.
    pub fn clear(&mut self)
        ensures
            final(self).wf(),
            final(self)@ == Map::<(Address, Word), Word>::empty(),
    {
        self.entries.clear();
    }

    /// Stores every pair of `other` in this table.
    pub fn absorb(&mut self, other: &SlotTable)
        requires
            old(self).wf(),
        ensures
            final(self).wf(),
            final(self)@ == old(self)@.union_prefer_right(other@),
    {
        let n: usize = other.entries.len();
        let mut i: usize = 0;
        assert(self@ =~= old(self)@.union_prefer_right(assoc_map(other.entries@.take(0))));
        while i < n
            invariant
                i <= n,
                n == other.entries@.len(),
                self.wf(),
                self@ == old(self)@.union_prefer_right(assoc_map(other.entries@.take(i as int))),
            decreases n - i,
        {
            let e = other.entries[i];
            proof {
                let prefix = other.entries@.take(i as int);
                assert(other.entries@.take(i + 1) =~= prefix.push(e));
                lemma_assoc_push(prefix, e.0, e.1);
            }
            self.insert(e.0.0, e.0.1, e.1);
            assert(self@ =~= old(self)@.union_prefer_right(
                assoc_map(other.entries@.take(i + 1)),
            ));
            i = i + 1;
        }
        assert(other.entries@.take(n as int) =~= other.entries@);
    }
}

/// A table from addresses to accounts.
pub struct ObjectTable {
    entries: Vec<(Address, StateObject)>,
}

impl View for ObjectTable {
    type V = Map<Address, AccountModel>;

    closed spec fn view(&self) -> Map<Address, AccountModel> {
        assoc_map(self.entries@).map_values(|o: StateObject| account_view(o))
    }
}

impl ObjectTable {
    /// No address occurs twice.
    pub closed spec fn wf(&self) -> bool {
        no_dup_keys(self.entries@)
    }

    pub fn new() -> (r: ObjectTable)
        ensures
            r.wf(),
            r@ == Map::<Address, AccountModel>::empty(),
    {
        let r = ObjectTable { entries: Vec::new() };
        assert(r@ =~= Map::<Address, AccountModel>::empty());
        r
    }

    /// The place of an address in the table.
    fn find(&self, address: Address) -> (r: Option<usize>)
        requires
            self.wf(),
        ensures
            r matches Some(i) ==> i < self.entries@.len() && self.entries@[i as int].0 == address
                && self@.dom().contains(address) && self@[address] == self.entries@[i as int].1@,
            r is None ==> !has_key(self.entries@, address) && !self@.dom().contains(address),
    {
        proof {
            lemma_assoc_dom(self.entries@, address);
        }
        let mut i: usize = 0;
        while i < self.entries.len()
            invariant
                self.wf(),
                i <= self.entries@.len(),
                forall|j: int| 0 <= j < i ==> self.entries@[j].0 != address,
            decreases self.entries@.len() - i,
        {
            if self.entries[i].0 == address {
                proof {
                    lemma_assoc_get(self.entries@, i as int);
                }
                return Some(i);
            }
            i = i + 1;
        }
        None
    }

    /// Whether the table holds an account at `address`.
    pub fn contains(&self, address: Address) -> (r: bool)
        requires
            self.wf(),
        ensures
            r == self@.dom().contains(address),
    {
        self.find(address).is_some()
    }

    /// The account at `address`, if any.
    pub fn get(&self, address: Address) -> (r: Option<&StateObject>)
        requires
            self.wf(),
        ensures
            r is Some <==> self@.dom().contains(address),
            r matches Some(o) ==> o@ == self@[address],
    {
        match self.find(address) {
            Some(i) => Some(&self.entries[i].1),
            None => None,
        }
    }

    /// Puts an account at `address`, in place of the one that was there.
    pub fn insert(&mut self, address: Address, object: StateObject)
        requires
            old(self).wf(),
        ensures
            final(self).wf(),
            final(self)@ == old(self)@.insert(address, object@),
    {
        match self.find(address) {
            Some(i) => {
                proof {
                    lemma_assoc_update(self.entries@, i as int, object);
                }
                self.entries[i] = (address, object);
            },
            None => {
                proof {
                    lemma_assoc_push(self.entries@, address, object);
                    lemma_no_dup_push(self.entries@, address, object);
                }
                self.entries.push((address, object));
            },
        }
        assert(self@ =~= old(self)@.insert(address, object@));
    }

    /// Sets the balance of the account at `address`.
    pub fn set_balance(&mut self, address: Address, balance: Word)
        requires
            old(self).wf(),
            old(self)@.dom().contains(address),
        ensures
            final(self).wf(),
            final(self)@ == old(self)@.insert(
                address,
                AccountModel { balance, ..old(self)@[address] },
            ),
    {
        match self.find(address) {
            Some(i) => {
                let ghost before = self.entries@;
                self.entries[i].1.balance = balance;
                proof {
                    lemma_assoc_update(before, i as int, self.entries@[i as int].1);
                    assert(self.entries@ =~= before.update(
                        i as int,
                        (address, self.entries@[i as int].1),
                    ));
                }
                assert(self@ =~= old(self)@.insert(
                    address,
                    AccountModel { balance, ..old(self)@[address] },
                ));
            },
            None => {},
        }
    }

    /// Sets the nonce of the account at `address`.
    pub fn set_nonce(&mut self, address: Address, nonce: u64)
        requires
            old(self).wf(),
            old(self)@.dom().contains(address),
        ensures
            final(self).wf(),
            final(self)@ == old(self)@.insert(address, AccountModel { nonce, ..old(self)@[address] }),
    {
        match self.find(address) {
            Some(i) => {
                let ghost before = self.entries@;
                self.entries[i].1.nonce = nonce;
                proof {
                    lemma_assoc_update(before, i as int, self.entries@[i as int].1);
                    assert(self.entries@ =~= before.update(
                        i as int,
                        (address, self.entries@[i as int].1),
                    ));
                }
                assert(self@ =~= old(self)@.insert(
                    address,
                    AccountModel { nonce, ..old(self)@[address] },
                ));
            },
            None => {},
        }
    }

    /// Sets the code and the code digest of the account at `address`.
    pub fn set_code(&mut self, address: Address, code: Vec<u8>, code_hash: Word)
        requires
            old(self).wf(),
            old(self)@.dom().contains(address),
        ensures
            final(self).wf(),
            final(self)@ == old(self)@.insert(
                address,
                AccountModel { code: code@, code_hash, ..old(self)@[address] },
            ),
    {
        match self.find(address) {
            Some(i) => {
                let ghost before = self.entries@;
                self.entries[i].1.code = code;
                self.entries[i].1.code_hash = code_hash;
                proof {
                    lemma_assoc_update(before, i as int, self.entries@[i as int].1);
                    assert(self.entries@ =~= before.update(
                        i as int,
                        (address, self.entries@[i as int].1),
                    ));
                }
                assert(self@ =~= old(self)@.insert(
                    address,
                    AccountModel { code: code@, code_hash, ..old(self)@[address] },
                ));
            },
            None => {},
        }
    }

    /// Empties the table.
    pub fn clear(&mut self)
        ensures
            final(self).wf(),
            final(self)@ == Map::<Address, AccountModel>::empty(),
    {
        self.entries.clear();
        assert(self@ =~= Map::<Address, AccountModel>::empty());
    }

    /// Puts a copy of every account of `other` into this table.
    pub fn absorb(&mut self, other: &ObjectTable)
        requires
            old(self).wf(),
        ensures
            final(self).wf(),
            final(self)@ == old(self)@.union_prefer_right(other@),
    {
        let n: usize = other.entries.len();
        let mut i: usize = 0;
        let ghost shown = |k: int|
            assoc_map(other.entries@.take(k)).map_values(|o: StateObject| account_view(o));
        assert(self@ =~= old(self)@.union_prefer_right(shown(0)));
        while i < n
            invariant
                i <= n,
                n == other.entries@.len(),
                self.wf(),
                shown == |k: int|
                    assoc_map(other.entries@.take(k)).map_values(|o: StateObject| account_view(o)),
                self@ == old(self)@.union_prefer_right(shown(i as int)),
            decreases n - i,
        {
            let address = other.entries[i].0;
            let object = other.entries[i].1.duplicate();
            proof {
                let prefix = other.entries@.take(i as int);
                let e = other.entries@[i as int];
                assert(other.entries@.take(i + 1) =~= prefix.push(e));
                lemma_assoc_push(prefix, e.0, e.1);
                assert(shown(i + 1) =~= shown(i as int).insert(e.0, e.1@));
            }
            self.insert(address, object);
            assert(self@ =~= old(self)@.union_prefer_right(shown(i + 1)));
            i = i + 1;
        }
        assert(other.entries@.take(n as int) =~= other.entries@);
    }
}

/// A log entry as it is stored.
pub struct LogEntry {
    pub address: Address,
    pub topics: Vec<Word>,
    pub data: Vec<u8>,
}

impl View for LogEntry {
    type V = LogModel;

    open spec fn view(&self) -> LogModel {
        LogModel { address: self.address, topics: self.topics@, data: self.data@ }
    }
}

/// The view of a stored log entry.
pub open spec fn log_view(l: LogEntry) -> LogModel {
    l@
}

/// The world state in memory.
pub struct InMemoryStateDB {
    objects: ObjectTable,
    storage: SlotTable,
    dirty_storage: SlotTable,
    dirty_objects: ObjectTable,
    transition_storage: SlotTable,
    logs: Vec<LogEntry>,
}

impl InMemoryStateDB {
    /// A state with no accounts, no storage and no logs.
    pub fn new() -> (r: InMemoryStateDB)
        ensures
            r.wf(),
            r.model() == StateModel::empty(),
    {
        let r = InMemoryStateDB {
            objects: ObjectTable::new(),
            storage: SlotTable::new(),
            dirty_storage: SlotTable::new(),
            dirty_objects: ObjectTable::new(),
            transition_storage: SlotTable::new(),
            logs: Vec::new(),
        };
        assert(r.logs@.map_values(|l: LogEntry| log_view(l)) =~= Seq::<LogModel>::empty());
        r
    }

    /// The number of log entries.
    pub fn log_count(&self) -> (r: usize)
        ensures
            r == self.model().logs.len(),
    {
        self.logs.len()
    }

    /// The log entry at `index`, oldest first.
    pub fn log(&self, index: usize) -> (r: &LogEntry)
        requires
            index < self.model().logs.len(),
        ensures
            r@ == self.model().logs[index as int],
    {
        &self.logs[index]
    }

    /// Puts an account into the dirty layer.
    fn set_account(&mut self, address: Address, account: StateObject)
        requires
            old(self).wf(),
        ensures
            final(self).wf(),
            final(self).model() == old(self).model().put_dirty(address, account@),
    {
        self.dirty_objects.insert(address, account);
    }

    /// Makes sure that the dirty layer holds the account at `address`: a
    /// copy of the committed account, or a fresh account where there is
    /// none.  Every change of an account is made on that copy.
    fn make_dirty(&mut self, address: Address)
        requires
            old(self).wf(),
        ensures
            final(self).wf(),
            final(self).dirty_objects@.dom().contains(address),
            final(self).model() == old(self).model().put_dirty(
                address,
                old(self).model().object_or_fresh(address),
            ),
    {
        if !self.dirty_objects.contains(address) {
            let copy = match self.objects.get(address) {
                Some(o) => o.duplicate(),
                None => StateObject::new_with_address(address),
            };
            self.set_account(address, copy);
        } else {
            assert(self.model().dirty_objects =~= self.model().put_dirty(
                address,
                self.model().object_or_fresh(address),
            ).dirty_objects);
        }
    }
}

impl StateDB for InMemoryStateDB {
    closed spec fn model(&self) -> StateModel {
        StateModel {
            objects: self.objects@,
            storage: self.storage@,
            dirty_objects: self.dirty_objects@,
            dirty_storage: self.dirty_storage@,
            transient_storage: self.transition_storage@,
            logs: self.logs@.map_values(|l: LogEntry| log_view(l)),
        }
    }

    closed spec fn wf(&self) -> bool {
        &&& self.objects.wf()
        &&& self.storage.wf()
        &&& self.dirty_objects.wf()
        &&& self.dirty_storage.wf()
        &&& self.transition_storage.wf()
    }

    fn create_object(&mut self, address: Address) {
        self.set_account(address, StateObject::new_with_address(address));
    }

    fn create_contract(&mut self, caller: Address, code: Vec<u8>) -> (r: Address) {
        let nonce: u64 = self.get_nonce(caller);
        let contract_address = address_create(caller, nonce);
        proof {
            lemma_address_of_view(contract_address);
        }
        let mut contract = StateObject::new();
        contract.address = contract_address;
        contract.code = code;
        self.set_account(contract_address, contract);
        contract_address
    }

    fn set_code(&mut self, address: Address, code: Vec<u8>) {
        let code_hash = keccak256_word(code.as_slice());
        proof {
            lemma_word_of_view(code_hash);
        }
        self.make_dirty(address);
        self.dirty_objects.set_code(address, code, code_hash);
        proof {
            let want = old(self).model().set_code(address, code@);
            assert(self.model().dirty_objects =~= want.dirty_objects);
        }
    }

    fn transfer(&mut self, from: Address, to: Address, value: Word) -> (r: Result<(), EVMError>) {
        match self.sub_balance(from, value) {
            Ok(_) => {
                self.add_balance(to, value);
                Ok(())
            },
            Err(e) => Err(e),
        }
    }

    fn sub_balance(&mut self, address: Address, value: Word) -> (r: Result<Word, EVMError>) {
        if self.dirty_objects.contains(address) || self.objects.contains(address) {
            let balance = self.get_balance(address);
            if balance.lt(&value) {
                return Err(EVMError::InsufficientBalance);
            }
            self.make_dirty(address);
            self.dirty_objects.set_balance(address, balance.wrapping_sub(value));
            proof {
                let want = old(self).model().sub_balance(address, value);
                assert(self.model().dirty_objects =~= want.dirty_objects);
            }
            Ok(balance)
        } else if value.is_zero() {
            Ok(Word::zero())
        } else {
            Err(EVMError::InsufficientBalance)
        }
    }

    fn add_balance(&mut self, address: Address, value: Word) -> (r: Word) {
        let balance = self.get_balance(address);
        self.make_dirty(address);
        self.dirty_objects.set_balance(address, balance.wrapping_add(value));
        proof {
            let want = old(self).model().add_balance(address, value);
            assert(self.model().dirty_objects =~= want.dirty_objects);
        }
        balance
    }

    fn get_balance(&self, address: Address) -> (r: Word) {
        match self.dirty_objects.get(address) {
            Some(o) => o.balance,
            None => match self.objects.get(address) {
                Some(o) => o.balance,
                None => Word::zero(),
            },
        }
    }

    fn get_nonce(&self, address: Address) -> (r: u64) {
        match self.dirty_objects.get(address) {
            Some(o) => o.nonce,
            None => match self.objects.get(address) {
                Some(o) => o.nonce,
                None => 0,
            },
        }
    }

    fn set_nonce(&mut self, address: Address, nonce: u64) {
        self.make_dirty(address);
        self.dirty_objects.set_nonce(address, nonce);
        proof {
            let want = old(self).model().set_nonce(address, nonce);
            assert(self.model().dirty_objects =~= want.dirty_objects);
        }
    }

    fn get_code(&self, address: Address) -> (r: Vec<u8>) {
        match self.dirty_objects.get(address) {
            Some(o) => vstd::slice::slice_to_vec(o.code.as_slice()),
            None => match self.objects.get(address) {
                Some(o) => vstd::slice::slice_to_vec(o.code.as_slice()),
                None => Vec::new(),
            },
        }
    }

    fn get_code_hash(&self, address: Address) -> (r: Word) {
        match self.dirty_objects.get(address) {
            Some(o) => o.code_hash,
            None => match self.objects.get(address) {
                Some(o) => o.code_hash,
                None => Word::zero(),
            },
        }
    }

    fn get_code_size(&self, address: Address) -> (r: usize) {
        match self.dirty_objects.get(address) {
            Some(o) => o.code.len(),
            None => match self.objects.get(address) {
                Some(o) => o.code.len(),
                None => 0,
            },
        }
    }

    fn account_exists(&self, address: Address) -> (r: bool) {
        self.dirty_objects.contains(address) || self.objects.contains(address)
    }

    fn get_state(&self, address: Address, slot: Word) -> (r: Word) {
        match self.dirty_storage.get(address, slot) {
            Some(v) => v,
            None => match self.storage.get(address, slot) {
                Some(v) => v,
                None => Word::zero(),
            },
        }
    }

    fn set_state(&mut self, address: Address, slot: Word, value: Word) {
        self.dirty_storage.insert(address, slot, value);
    }

    fn get_transition_state(&self, address: Address, slot: Word) -> (r: Word) {
        match self.transition_storage.get(address, slot) {
            Some(v) => v,
            None => Word::zero(),
        }
    }

    fn set_transition_state(&mut self, address: Address, slot: Word, value: Word) {
        self.transition_storage.insert(address, slot, value);
    }

    fn prepare(&mut self) {
        self.dirty_storage.clear();
        self.dirty_objects.clear();
        self.transition_storage.clear();
    }

    fn commit(&mut self) {
        self.storage.absorb(&self.dirty_storage);
        self.dirty_storage.clear();
        self.objects.absorb(&self.dirty_objects);
        self.dirty_objects.clear();
        self.transition_storage.clear();
    }

    fn add_log(&mut self, address: Address, topics: Vec<Word>, data: Vec<u8>) {
        let entry = LogEntry { address, topics, data };
        self.logs.push(entry);
        assert(self.logs@.map_values(|l: LogEntry| log_view(l)) =~= old(self).logs@.map_values(
            |l: LogEntry| log_view(l),
        ).push(entry@));
    }
}

} // verus!
