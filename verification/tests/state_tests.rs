use evm_core::error::EVMError;
use evm_core::memory_db::InMemoryStateDB;
use evm_core::state::{StateDB, StateObject};
use evm_core::word::{Address, Word};

fn addr(n: u64) -> Address {
    Address { l0: n, l1: 0, l2: 0 }
}

fn w(v: u64) -> Word {
    Word::from_u64(v)
}

fn to_alloy(a: Address) -> alloy_primitives::Address {
    let mut bytes = [0u8; 20];
    bytes[0..4].copy_from_slice(&a.l2.to_be_bytes());
    bytes[4..12].copy_from_slice(&a.l1.to_be_bytes());
    bytes[12..20].copy_from_slice(&a.l0.to_be_bytes());
    alloy_primitives::Address::new(bytes)
}

fn from_alloy(a: alloy_primitives::Address) -> Address {
    let bytes = a.into_array();
    Address {
        l2: u32::from_be_bytes(bytes[0..4].try_into().unwrap()),
        l1: u64::from_be_bytes(bytes[4..12].try_into().unwrap()),
        l0: u64::from_be_bytes(bytes[12..20].try_into().unwrap()),
    }
}

#[test]
fn absent_accounts_read_as_empty() {
    let state = InMemoryStateDB::new();
    assert_eq!(state.get_balance(addr(1)), w(0));
    assert_eq!(state.get_nonce(addr(1)), 0);
    assert_eq!(state.get_code(addr(1)), Vec::<u8>::new());
    assert_eq!(state.get_code_hash(addr(1)), w(0));
    assert_eq!(state.get_code_size(addr(1)), 0);
    assert!(!state.account_exists(addr(1)));
    assert_eq!(state.get_state(addr(1), w(0)), w(0));
    assert_eq!(state.get_transition_state(addr(1), w(0)), w(0));
}

#[test]
fn create_object_makes_a_fresh_account() {
    let mut state = InMemoryStateDB::new();
    state.add_balance(addr(1), w(5));
    state.create_object(addr(1));
    assert!(state.account_exists(addr(1)));
    assert_eq!(state.get_balance(addr(1)), w(0));
}

#[test]
fn storage_write_is_dropped_by_prepare() {
    let mut state = InMemoryStateDB::new();
    state.set_state(addr(1), w(2), w(3));
    assert_eq!(state.get_state(addr(1), w(2)), w(3));
    state.prepare();
    assert_eq!(state.get_state(addr(1), w(2)), w(0));
}

#[test]
fn storage_write_survives_commit() {
    let mut state = InMemoryStateDB::new();
    state.set_state(addr(1), w(2), w(3));
    state.commit();
    state.set_state(addr(1), w(2), w(4));
    assert_eq!(state.get_state(addr(1), w(2)), w(4));
    state.prepare();
    assert_eq!(state.get_state(addr(1), w(2)), w(3));
    state.set_state(addr(1), w(2), w(5));
    state.set_state(addr(1), w(7), w(8));
    state.set_state(addr(2), w(2), w(9));
    state.commit();
    state.prepare();
    assert_eq!(state.get_state(addr(1), w(2)), w(5));
    assert_eq!(state.get_state(addr(1), w(7)), w(8));
    assert_eq!(state.get_state(addr(2), w(2)), w(9));
    assert_eq!(state.get_state(addr(2), w(7)), w(0));
}

#[test]
fn transient_storage_is_cleared() {
    let mut state = InMemoryStateDB::new();
    state.set_transition_state(addr(1), w(2), w(3));
    assert_eq!(state.get_transition_state(addr(1), w(2)), w(3));
    assert_eq!(state.get_state(addr(1), w(2)), w(0));
    state.commit();
    assert_eq!(state.get_transition_state(addr(1), w(2)), w(0));
    state.set_transition_state(addr(1), w(2), w(3));
    state.prepare();
    assert_eq!(state.get_transition_state(addr(1), w(2)), w(0));
}

#[test]
fn transfer_moves_value() {
    let mut state = InMemoryStateDB::new();
    state.add_balance(addr(1), w(100));
    assert!(state.transfer(addr(1), addr(2), w(30)).is_ok());
    assert_eq!(state.get_balance(addr(1)), w(70));
    assert_eq!(state.get_balance(addr(2)), w(30));
    assert!(state.account_exists(addr(2)));
}

#[test]
fn transfer_fails_without_funds() {
    let mut state = InMemoryStateDB::new();
    state.add_balance(addr(1), w(10));
    assert!(matches!(state.transfer(addr(1), addr(2), w(11)), Err(EVMError::InsufficientBalance)));
    assert_eq!(state.get_balance(addr(1)), w(10));
    assert!(!state.account_exists(addr(2)));
    assert!(matches!(state.transfer(addr(3), addr(2), w(1)), Err(EVMError::InsufficientBalance)));
}

#[test]
fn transfer_of_zero_always_works() {
    let mut state = InMemoryStateDB::new();
    assert!(state.transfer(addr(1), addr(2), w(0)).is_ok());
    assert!(state.account_exists(addr(2)));
    assert!(!state.account_exists(addr(1)));
}

#[test]
fn sub_balance_returns_the_old_balance() {
    let mut state = InMemoryStateDB::new();
    assert_eq!(state.add_balance(addr(1), w(9)), w(0));
    assert_eq!(state.add_balance(addr(1), w(1)), w(9));
    assert!(matches!(state.sub_balance(addr(1), w(4)), Ok(b) if b == w(10)));
    assert_eq!(state.get_balance(addr(1)), w(6));
    assert!(matches!(state.sub_balance(addr(1), w(7)), Err(EVMError::InsufficientBalance)));
    assert!(matches!(state.sub_balance(addr(5), w(0)), Ok(b) if b == w(0)));
    assert!(!state.account_exists(addr(5)));
}

#[test]
fn prepare_restores_a_committed_balance() {
    let mut state = InMemoryStateDB::new();
    state.add_balance(addr(1), w(9));
    state.commit();
    state.add_balance(addr(1), w(1));
    assert_eq!(state.get_balance(addr(1)), w(10));
    state.prepare();
    assert_eq!(state.get_balance(addr(1)), w(9));
    assert!(matches!(state.sub_balance(addr(1), w(4)), Ok(b) if b == w(9)));
    state.set_transition_state(addr(1), w(2), w(3));
    assert_eq!(state.get_balance(addr(1)), w(5));
    state.prepare();
    assert_eq!(state.get_balance(addr(1)), w(9));
    assert_eq!(state.get_transition_state(addr(1), w(2)), w(0));
    assert!(state.transfer(addr(1), addr(2), w(9)).is_ok());
    assert_eq!(state.get_balance(addr(2)), w(9));
    state.prepare();
    assert_eq!(state.get_balance(addr(1)), w(9));
    assert!(!state.account_exists(addr(2)));
}

#[test]
fn prepare_restores_committed_nonce_and_code() {
    let mut state = InMemoryStateDB::new();
    state.set_nonce(addr(1), 4);
    state.set_code(addr(1), vec![1, 2]);
    state.add_balance(addr(1), w(7));
    state.commit();
    let digest = state.get_code_hash(addr(1));
    state.set_nonce(addr(1), 5);
    state.set_code(addr(1), vec![3]);
    assert_eq!(state.get_nonce(addr(1)), 5);
    assert_eq!(state.get_code(addr(1)), vec![3]);
    assert_eq!(state.get_balance(addr(1)), w(7));
    state.prepare();
    assert_eq!(state.get_nonce(addr(1)), 4);
    assert_eq!(state.get_code(addr(1)), vec![1, 2]);
    assert_eq!(state.get_code_hash(addr(1)), digest);
    assert_eq!(state.get_balance(addr(1)), w(7));
}

#[test]
fn commit_keeps_account_changes() {
    let mut state = InMemoryStateDB::new();
    state.add_balance(addr(1), w(9));
    state.commit();
    assert!(state.transfer(addr(1), addr(2), w(4)).is_ok());
    state.set_nonce(addr(1), 2);
    state.commit();
    state.prepare();
    assert_eq!(state.get_balance(addr(1)), w(5));
    assert_eq!(state.get_balance(addr(2)), w(4));
    assert_eq!(state.get_nonce(addr(1)), 2);
}

#[test]
fn nonce_is_set() {
    let mut state = InMemoryStateDB::new();
    state.set_nonce(addr(1), 7);
    assert_eq!(state.get_nonce(addr(1)), 7);
    assert!(state.account_exists(addr(1)));
}

#[test]
fn set_code_installs_code_and_digest() {
    let mut state = InMemoryStateDB::new();
    state.set_code(addr(1), vec![1, 2, 3]);
    assert_eq!(state.get_code(addr(1)), vec![1, 2, 3]);
    assert_eq!(state.get_code_size(addr(1)), 3);
    let digest = alloy_primitives::keccak256([1u8, 2, 3]);
    assert_eq!(state.get_code_hash(addr(1)), Word::from_be_slice(digest.as_slice()));
    state.add_balance(addr(2), w(4));
    state.set_code(addr(2), vec![9]);
    assert_eq!(state.get_balance(addr(2)), w(4));
    assert_eq!(state.get_code(addr(2)), vec![9]);
    let empty = alloy_primitives::keccak256([0u8; 0]);
    state.set_code(addr(2), vec![]);
    assert_eq!(state.get_code_hash(addr(2)), Word::from_be_slice(empty.as_slice()));
}

#[test]
fn create_contract_derives_the_address() {
    let mut state = InMemoryStateDB::new();
    let caller = Address { l0: 0x1122_3344_5566_7788, l1: 0x99aa_bbcc_ddee_ff00, l2: 0xdead_beef };
    state.create_object(caller);
    state.set_nonce(caller, 3);
    let address = state.create_contract(caller, vec![0x60, 0x00]);
    assert_eq!(address, from_alloy(to_alloy(caller).create(3)));
    assert_eq!(state.get_code(address), vec![0x60, 0x00]);
    assert_eq!(state.get_nonce(caller), 3);
    assert_eq!(state.get_code_hash(address), w(0));
    let zero = from_alloy(alloy_primitives::Address::ZERO.create(0));
    let mut other = InMemoryStateDB::new();
    other.create_object(addr(0));
    assert_eq!(other.create_contract(addr(0), vec![]), zero);
}

#[test]
fn logs_are_kept_in_order() {
    let mut state = InMemoryStateDB::new();
    state.add_log(addr(1), vec![w(1), w(2)], vec![7]);
    state.add_log(addr(2), vec![], vec![]);
    state.prepare();
    state.commit();
    assert_eq!(state.log_count(), 2);
    assert_eq!(state.log(0).address, addr(1));
    assert_eq!(state.log(0).topics, vec![w(1), w(2)]);
    assert_eq!(state.log(0).data, vec![7]);
    assert_eq!(state.log(1).address, addr(2));
}

#[test]
fn state_objects() {
    let fresh = StateObject::new();
    assert_eq!(fresh.balance, w(0));
    assert_eq!(fresh.address, addr(0));
    let at = StateObject::new_with_address(addr(4));
    assert_eq!(at.address, addr(4));
    assert_eq!(at.nonce, 0);
    let with_code = StateObject::new_with_code(addr(4), vec![5]);
    assert_eq!(with_code.code, vec![5]);
    assert_eq!(with_code.code_hash, Word::from_be_slice(alloy_primitives::keccak256([5u8]).as_slice()));
    let copy = with_code.duplicate();
    assert_eq!(copy.code, vec![5]);
    assert_eq!(copy.code_hash, with_code.code_hash);
}
