//! The world state: accounts, persistent storage, transient storage and
//! logs, with a dirty layer over the committed layer.
//!
//! Every change of an account or of a storage slot is written to the dirty
//! layer; `commit` folds the dirty layer into the committed layer and
//! `prepare` drops it, so that `prepare` undoes whatever was done since the
//! last commit.
//!
//! [`StateModel`] says what each operation does, as functions on maps.
//! [`StateDB`] is the interface that the interpreter works against, with
//! every method tied to the model.  [`InMemoryStateDB`] implements it.

use vstd::prelude::*;
use crate::word::{Word, Address, word_of, address_of, lemma_word_of_view};
use crate::arith::{spec_add, spec_sub};
use crate::error::EVMError;
use crate::primitives::{keccak256_of, create_address_of, keccak256_word};

verus! {

/// What an account holds.
pub struct AccountModel {
    pub balance: Word,
    pub nonce: u64,
    pub code: Seq<u8>,
    pub code_hash: Word,
    pub address: Address,
}

/// One log entry: the emitting account, the topics and the data.
pub struct LogModel {
    pub address: Address,
    pub topics: Seq<Word>,
    pub data: Seq<u8>,
}

/// The world state as maps.
pub struct StateModel {
    /// The committed accounts.
    pub objects: Map<Address, AccountModel>,
    /// The committed storage slots.
    pub storage: Map<(Address, Word), Word>,
    /// The accounts written since the last `prepare` or `commit`.
    pub dirty_objects: Map<Address, AccountModel>,
    /// The storage slots written since the last `prepare` or `commit`.
    pub dirty_storage: Map<(Address, Word), Word>,
    /// The transient storage slots.
    pub transient_storage: Map<(Address, Word), Word>,
    /// The log entries, oldest first.
    pub logs: Seq<LogModel>,
}

/// An account with no balance, nonce 0 and no code.
pub open spec fn fresh_account(address: Address) -> AccountModel {
    AccountModel { balance: word_of(0), nonce: 0, code: Seq::empty(), code_hash: word_of(0), address }
}

/// The digest of a piece of code, as a word.
pub open spec fn code_hash_of(code: Seq<u8>) -> Word {
    word_of(keccak256_of(code))
}

/// The address of the contract that `caller` creates at nonce `nonce`.
pub open spec fn spec_create_address(caller: Address, nonce: u64) -> Address {
    address_of(create_address_of(caller@, nonce))
}

impl StateModel {
    /// The state with no accounts, no storage and no logs.
    pub open spec fn empty() -> StateModel {
        StateModel {
            objects: Map::empty(),
            storage: Map::empty(),
            dirty_objects: Map::empty(),
            dirty_storage: Map::empty(),
            transient_storage: Map::empty(),
            logs: Seq::empty(),
        }
    }

    /// The account at an address: the dirty one if there is one, else the
    /// committed one.
    pub open spec fn object(self, address: Address) -> Option<AccountModel> {
        if self.dirty_objects.dom().contains(address) {
            Some(self.dirty_objects[address])
        } else if self.objects.dom().contains(address) {
            Some(self.objects[address])
        } else {
            None
        }
    }

    /// The account at an address, or a fresh one where there is none.
    pub open spec fn object_or_fresh(self, address: Address) -> AccountModel {
        match self.object(address) {
            Some(o) => o,
            None => fresh_account(address),
        }
    }

    /// The state with `account` put into the dirty layer.  Every change of
    /// an account is made this way: the committed layer is written by
    /// `commit` alone, so that `prepare` undoes every change since the last
    /// commit.
    pub open spec fn put_dirty(self, address: Address, account: AccountModel) -> StateModel {
        StateModel { dirty_objects: self.dirty_objects.insert(address, account), ..self }
    }

    /// A fresh account at `address` in the dirty layer, in place of any
    /// account that was there.
    pub open spec fn create_object(self, address: Address) -> StateModel {
        self.put_dirty(address, fresh_account(address))
    }

    /// The nonce at `address`, 0 where there is no account.
    pub open spec fn get_nonce(self, address: Address) -> u64 {
        match self.object(address) {
            Some(o) => o.nonce,
            None => 0,
        }
    }

    /// The balance at `address`, 0 where there is no account.
    pub open spec fn get_balance(self, address: Address) -> Word {
        match self.object(address) {
            Some(o) => o.balance,
            None => word_of(0),
        }
    }

    /// The code at `address`, none where there is no account.
    pub open spec fn get_code(self, address: Address) -> Seq<u8> {
        match self.object(address) {
            Some(o) => o.code,
            None => Seq::empty(),
        }
    }

    /// The code digest at `address`, 0 where there is no account.
    pub open spec fn get_code_hash(self, address: Address) -> Word {
        match self.object(address) {
            Some(o) => o.code_hash,
            None => word_of(0),
        }
    }

    /// Whether there is an account at the address, dirty or committed.
    pub open spec fn has_object(self, address: Address) -> bool {
        self.object(address) is Some
    }

    /// The address that `create_contract` gives to a contract of `caller`.
    pub open spec fn contract_address(self, caller: Address) -> Address {
        spec_create_address(caller, self.get_nonce(caller))
    }

    /// A new account with `code` and no code digest, in the dirty layer at
    /// the address derived from `caller` and its nonce.
    pub open spec fn create_contract(self, caller: Address, code: Seq<u8>) -> StateModel {
        let address = self.contract_address(caller);
        self.put_dirty(
            address,
            AccountModel { balance: word_of(0), nonce: 0, code, code_hash: word_of(0), address },
        )
    }

    /// The account at `address`, or a fresh one, with `code` and its digest,
    /// in the dirty layer.
    pub open spec fn set_code(self, address: Address, code: Seq<u8>) -> StateModel {
        let o = self.object_or_fresh(address);
        self.put_dirty(address, AccountModel { code, code_hash: code_hash_of(code), ..o })
    }

    /// Whether `sub_balance` succeeds.
    pub open spec fn can_debit(self, address: Address, value: Word) -> bool {
        match self.object(address) {
            Some(o) => o.balance@ >= value@,
            None => value@ == 0,
        }
    }

    /// The account at `address` with `value` less, in the dirty layer, if
    /// there is an account that holds as much; else the state as it is.
    pub open spec fn sub_balance(self, address: Address, value: Word) -> StateModel {
        match self.object(address) {
            Some(o) => if o.balance@ >= value@ {
                self.put_dirty(address, AccountModel { balance: spec_sub(o.balance, value), ..o })
            } else {
                self
            },
            None => self,
        }
    }

    /// The account at `address`, or a fresh one, with `value` more, in the
    /// dirty layer.
    pub open spec fn add_balance(self, address: Address, value: Word) -> StateModel {
        let o = self.object_or_fresh(address);
        self.put_dirty(address, AccountModel { balance: spec_add(o.balance, value), ..o })
    }

    /// The debit of `from` followed by the credit of `to`, if the debit can
    /// be paid; else the state as it is.
    pub open spec fn transfer(self, from: Address, to: Address, value: Word) -> StateModel {
        if self.can_debit(from, value) {
            self.sub_balance(from, value).add_balance(to, value)
        } else {
            self
        }
    }

    /// The account at `address`, or a fresh one, with the nonce `nonce`, in
    /// the dirty layer.
    pub open spec fn set_nonce(self, address: Address, nonce: u64) -> StateModel {
        let o = self.object_or_fresh(address);
        self.put_dirty(address, AccountModel { nonce, ..o })
    }

    /// The storage slot: the dirty one if there is one, else the committed
    /// one, else 0.
    pub open spec fn get_state(self, address: Address, slot: Word) -> Word {
        if self.dirty_storage.dom().contains((address, slot)) {
            self.dirty_storage[(address, slot)]
        } else if self.storage.dom().contains((address, slot)) {
            self.storage[(address, slot)]
        } else {
            word_of(0)
        }
    }

    /// The slot written in the dirty layer.
    pub open spec fn set_state(self, address: Address, slot: Word, value: Word) -> StateModel {
        StateModel { dirty_storage: self.dirty_storage.insert((address, slot), value), ..self }
    }

    /// The transient storage slot, 0 where nothing was written.
    pub open spec fn get_transition_state(self, address: Address, slot: Word) -> Word {
        if self.transient_storage.dom().contains((address, slot)) {
            self.transient_storage[(address, slot)]
        } else {
            word_of(0)
        }
    }

    /// The transient storage slot written.
    pub open spec fn set_transition_state(self, address: Address, slot: Word, value: Word) -> StateModel {
        StateModel {
            transient_storage: self.transient_storage.insert((address, slot), value),
            ..self
        }
    }

    /// Drops the dirty layer and the transient storage.
    pub open spec fn prepare(self) -> StateModel {
        StateModel {
            dirty_objects: Map::empty(),
            dirty_storage: Map::empty(),
            transient_storage: Map::empty(),
            ..self
        }
    }

    /// Folds the dirty layer into the committed layer, then drops the dirty
    /// layer and the transient storage.
    pub open spec fn commit(self) -> StateModel {
        StateModel {
            objects: self.objects.union_prefer_right(self.dirty_objects),
            storage: self.storage.union_prefer_right(self.dirty_storage),
            dirty_objects: Map::empty(),
            dirty_storage: Map::empty(),
            transient_storage: Map::empty(),
            logs: self.logs,
        }
    }

    /// One more log entry.
    pub open spec fn add_log(self, address: Address, topics: Seq<Word>, data: Seq<u8>) -> StateModel {
        StateModel { logs: self.logs.push(LogModel { address, topics, data }), ..self }
    }
}

/// A slot that was written reads back as written, as long as the dirty
/// layer is not dropped.
pub proof fn lemma_set_state_get_state(s: StateModel, address: Address, slot: Word, value: Word)
    ensures
        s.set_state(address, slot, value).get_state(address, slot) == value,
{
}

/// A write that is dropped by `prepare` before it was committed is gone:
/// the slot reads as it was last committed, or as zero.
pub proof fn lemma_prepare_discards_write(s: StateModel, address: Address, slot: Word, value: Word)
    ensures
        s.set_state(address, slot, value).prepare().get_state(address, slot) == (if s.storage.dom().contains(
            (address, slot),
        ) {
            s.storage[(address, slot)]
        } else {
            word_of(0)
        }),
{
}

/// A write that is committed reads back after the commit, and after any
/// later `prepare`.
pub proof fn lemma_commit_keeps_write(s: StateModel, address: Address, slot: Word, value: Word)
    ensures
        s.set_state(address, slot, value).commit().get_state(address, slot) == value,
        s.set_state(address, slot, value).commit().prepare().get_state(address, slot) == value,
{
}

/// `prepare` undoes every change of an account, of a storage slot and of a
/// transient slot that was made since the last commit: the state after the
/// change and `prepare` is the state after `prepare` alone.
pub proof fn lemma_prepare_discards_changes(
    s: StateModel,
    a: Address,
    b: Address,
    k: Word,
    v: Word,
    n: u64,
    code: Seq<u8>,
)
    ensures
        s.create_object(a).prepare() == s.prepare(),
        s.create_contract(a, code).prepare() == s.prepare(),
        s.set_code(a, code).prepare() == s.prepare(),
        s.sub_balance(a, v).prepare() == s.prepare(),
        s.add_balance(a, v).prepare() == s.prepare(),
        s.transfer(a, b, v).prepare() == s.prepare(),
        s.set_nonce(a, n).prepare() == s.prepare(),
        s.set_state(a, k, v).prepare() == s.prepare(),
        s.set_transition_state(a, k, v).prepare() == s.prepare(),
{
    let t = s.sub_balance(a, v);
    assert(t.prepare() == s.prepare());
    assert(t.add_balance(b, v).prepare() == t.prepare());
}

/// After `prepare`, every account and every slot reads as it was last
/// committed; the transient storage is empty.
pub proof fn lemma_prepare_restores_committed(s: StateModel, a: Address, k: Word)
    ensures
        s.prepare().object(a) == (if s.objects.dom().contains(a) {
            Some(s.objects[a])
        } else {
            None
        }),
        s.commit().prepare() == s.commit(),
        s.prepare().get_state(a, k) == (if s.storage.dom().contains((a, k)) {
            s.storage[(a, k)]
        } else {
            word_of(0)
        }),
        s.prepare().get_transition_state(a, k) == word_of(0),
{
}

/// A balance that was committed comes back when a debit or a credit made
/// after the commit is dropped by `prepare`.
pub proof fn lemma_prepare_restores_balance(s: StateModel, a: Address, v: Word)
    ensures
        s.commit().sub_balance(a, v).prepare().get_balance(a) == s.commit().get_balance(a),
        s.commit().add_balance(a, v).prepare().get_balance(a) == s.commit().get_balance(a),
{
    lemma_prepare_discards_changes(s.commit(), a, a, v, v, 0, Seq::empty());
    lemma_prepare_restores_committed(s, a, v);
}

/// The transient storage is empty after `prepare` and after `commit`.
pub proof fn lemma_transient_cleared(s: StateModel, address: Address, slot: Word)
    ensures
        s.prepare().get_transition_state(address, slot) == word_of(0),
        s.commit().get_transition_state(address, slot) == word_of(0),
{
}

/// A transfer of zero can always be paid.
pub proof fn lemma_transfer_of_zero(s: StateModel, from: Address, to: Address, value: Word)
    requires
        value@ == 0,
    ensures
        s.can_debit(from, value),
{
}

/// A transfer that can be paid takes the value from the balance of the
/// payer and adds it to the balance of the payee, modulo 2^256; every other
/// balance stays as it is.
pub proof fn lemma_transfer_moves_value(s: StateModel, from: Address, to: Address, value: Word, other: Address)
    requires
        s.can_debit(from, value),
        from != to,
        other != from,
        other != to,
    ensures
        s.transfer(from, to, value).get_balance(from) == spec_sub(s.get_balance(from), value),
        s.transfer(from, to, value).get_balance(to) == spec_add(s.get_balance(to), value),
        s.transfer(from, to, value).get_balance(other) == s.get_balance(other),
{
    let t = s.sub_balance(from, value);
    assert(t.get_balance(to) == s.get_balance(to));
    assert(t.get_balance(other) == s.get_balance(other));
    if !s.has_object(from) {
        assert(value@ == 0);
        assert(spec_sub(crate::word::word_of(0), value) == crate::word::word_of(0));
    }
}

/// A transfer that cannot be paid changes nothing.
pub proof fn lemma_failed_transfer_changes_nothing(s: StateModel, from: Address, to: Address, value: Word)
    requires
        !s.can_debit(from, value),
    ensures
        s.transfer(from, to, value) == s,
{
}

/// The interface of the world state.
pub trait StateDB {
    /// The state as maps.
    spec fn model(&self) -> StateModel;

    /// Whether the representation is in order.  Every method needs it and
    /// keeps it.
    spec fn wf(&self) -> bool;

    /// Puts a fresh account at `address` into the dirty layer.
    fn create_object(&mut self, address: Address)
        requires
            old(self).wf(),
        ensures
            final(self).wf(),
            final(self).model() == old(self).model().create_object(address),
    ;

    /// Installs `code` as a new contract account whose address is derived
    /// from `caller` and the nonce of `caller`.  The nonce is left as it is.
    fn create_contract(&mut self, caller: Address, code: Vec<u8>) -> (r: Address)
        requires
            old(self).wf(),
            old(self).model().has_object(caller),
        ensures
            final(self).wf(),
            r == old(self).model().contract_address(caller),
            final(self).model() == old(self).model().create_contract(caller, code@),
    ;

    /// Installs `code` and its digest at `address`.
    fn set_code(&mut self, address: Address, code: Vec<u8>)
        requires
            old(self).wf(),
        ensures
            final(self).wf(),
            final(self).model() == old(self).model().set_code(address, code@),
    ;

    /// Moves `value` from `from` to `to`, or fails and changes nothing.
    fn transfer(&mut self, from: Address, to: Address, value: Word) -> (r: Result<(), EVMError>)
        requires
            old(self).wf(),
        ensures
            final(self).wf(),
            r is Ok <==> old(self).model().can_debit(from, value),
            r is Err ==> r == Err::<(), EVMError>(EVMError::InsufficientBalance),
            final(self).model() == old(self).model().transfer(from, to, value),
    ;

    /// Takes `value` from the balance at `address` and returns the balance
    /// as it was, or fails and changes nothing.
    fn sub_balance(&mut self, address: Address, value: Word) -> (r: Result<Word, EVMError>)
        requires
            old(self).wf(),
        ensures
            final(self).wf(),
            r is Ok <==> old(self).model().can_debit(address, value),
            r is Ok ==> r == Ok::<Word, EVMError>(old(self).model().get_balance(address)),
            r is Err ==> r == Err::<Word, EVMError>(EVMError::InsufficientBalance),
            final(self).model() == old(self).model().sub_balance(address, value),
    ;

    /// Adds `value` to the balance at `address`, creating the account
    /// where there is none, and returns the balance as it was.
    fn add_balance(&mut self, address: Address, value: Word) -> (r: Word)
        requires
            old(self).wf(),
        ensures
            final(self).wf(),
            r == old(self).model().get_balance(address),
            final(self).model() == old(self).model().add_balance(address, value),
    ;

    fn get_balance(&self, address: Address) -> (r: Word)
        requires
            self.wf(),
        ensures
            r == self.model().get_balance(address),
    ;

    fn get_nonce(&self, address: Address) -> (r: u64)
        requires
            self.wf(),
        ensures
            r == self.model().get_nonce(address),
    ;

    /// Sets the nonce at `address`, creating the account where there is
    /// none.
    fn set_nonce(&mut self, address: Address, nonce: u64)
        requires
            old(self).wf(),
        ensures
            final(self).wf(),
            final(self).model() == old(self).model().set_nonce(address, nonce),
    ;

    fn get_code(&self, address: Address) -> (r: Vec<u8>)
        requires
            self.wf(),
        ensures
            r@ == self.model().get_code(address),
    ;

    fn get_code_hash(&self, address: Address) -> (r: Word)
        requires
            self.wf(),
        ensures
            r == self.model().get_code_hash(address),
    ;

    fn get_code_size(&self, address: Address) -> (r: usize)
        requires
            self.wf(),
        ensures
            r == self.model().get_code(address).len(),
    ;

    /// Whether there is an account at `address`, dirty or committed.
    fn account_exists(&self, address: Address) -> (r: bool)
        requires
            self.wf(),
        ensures
            r == self.model().has_object(address),
    ;

    fn get_state(&self, address: Address, slot: Word) -> (r: Word)
        requires
            self.wf(),
        ensures
            r == self.model().get_state(address, slot),
    ;

    fn set_state(&mut self, address: Address, slot: Word, value: Word)
        requires
            old(self).wf(),
        ensures
            final(self).wf(),
            final(self).model() == old(self).model().set_state(address, slot, value),
    ;

    fn get_transition_state(&self, address: Address, slot: Word) -> (r: Word)
        requires
            self.wf(),
        ensures
            r == self.model().get_transition_state(address, slot),
    ;

    fn set_transition_state(&mut self, address: Address, slot: Word, value: Word)
        requires
            old(self).wf(),
        ensures
            final(self).wf(),
            final(self).model() == old(self).model().set_transition_state(address, slot, value),
    ;

    fn prepare(&mut self)
        requires
            old(self).wf(),
        ensures
            final(self).wf(),
            final(self).model() == old(self).model().prepare(),
    ;

    fn commit(&mut self)
        requires
            old(self).wf(),
        ensures
            final(self).wf(),
            final(self).model() == old(self).model().commit(),
    ;

    fn add_log(&mut self, address: Address, topics: Vec<Word>, data: Vec<u8>)
        requires
            old(self).wf(),
        ensures
            final(self).wf(),
            final(self).model() == old(self).model().add_log(address, topics@, data@),
    ;
}

/// An account as it is stored.
pub struct StateObject {
    pub balance: Word,
    pub nonce: u64,
    pub code: Vec<u8>,
    pub code_hash: Word,
    pub address: Address,
}

impl View for StateObject {
    type V = AccountModel;

    open spec fn view(&self) -> AccountModel {
        AccountModel {
            balance: self.balance,
            nonce: self.nonce,
            code: self.code@,
            code_hash: self.code_hash,
            address: self.address,
        }
    }
}

impl StateObject {
    /// A fresh account at address 0.
    pub fn new() -> (r: StateObject)
        ensures
            r@ == fresh_account(address_of(0)),
    {
        StateObject {
            balance: Word::zero(),
            nonce: 0,
            code: Vec::new(),
            code_hash: Word::zero(),
            address: Address::zero(),
        }
    }

    /// A fresh account at `address`.
    pub fn new_with_address(address: Address) -> (r: StateObject)
        ensures
            r@ == fresh_account(address),
    {
        StateObject {
            balance: Word::zero(),
            nonce: 0,
            code: Vec::new(),
            code_hash: Word::zero(),
            address,
        }
    }

    /// An account at `address` that holds `code` and its digest.
    pub fn new_with_code(address: Address, code: Vec<u8>) -> (r: StateObject)
        ensures
            r@ == (AccountModel { code: code@, code_hash: code_hash_of(code@), ..fresh_account(address) }),
    {
        let code_hash = keccak256_word(code.as_slice());
        proof {
            lemma_word_of_view(code_hash);
        }
        StateObject { balance: Word::zero(), nonce: 0, code, code_hash, address }
    }

    /// A copy of the account.
    pub fn duplicate(&self) -> (r: StateObject)
        ensures
            r@ == self@,
    {
        StateObject {
            balance: self.balance,
            nonce: self.nonce,
            code: vstd::slice::slice_to_vec(self.code.as_slice()),
            code_hash: self.code_hash,
            address: self.address,
        }
    }
}

} // verus!
