use evm_core::assembler::Assembler;
use evm_core::context::{BlockContext, Context};
use evm_core::error::EVMError;
use evm_core::memory_db::InMemoryStateDB;
use evm_core::state::StateDB;
use evm_core::vm::Interpreter;
use evm_core::word::{address_to_word, Address, Word};

fn addr(n: u64) -> Address {
    Address { l0: n, l1: 0, l2: 0 }
}

fn w(v: u64) -> Word {
    Word::from_u64(v)
}

fn code(listing: &str) -> Vec<u8> {
    Assembler::new().assemble(listing).unwrap()
}

fn frame(code: Vec<u8>) -> Context {
    let mut ctx = Context::new();
    ctx.code = code;
    ctx
}

fn run_code(code: Vec<u8>) -> (Context, Result<(), EVMError>) {
    let blk = BlockContext::new();
    let mut vm = Interpreter::new(InMemoryStateDB::new(), &blk);
    let mut ctx = frame(code);
    let result = vm.run_with_ctx(&mut ctx);
    (ctx, result)
}

fn run_listing(listing: &str) -> (Context, Result<(), EVMError>) {
    run_code(code(listing))
}

fn top_of(listing: &str) -> Word {
    let (ctx, result) = run_listing(listing);
    assert!(result.is_ok(), "{:?}", result);
    ctx.stack.peek()
}

#[test]
fn add_six_and_seven() {
    assert_eq!(top_of("PUSH1 0x06\nPUSH1 0x07\nADD"), w(0x0d));
}

#[test]
fn sub_wraps() {
    assert_eq!(top_of("PUSH1 0x00\nPUSH1 0x00\nSUB"), w(0));
    assert_eq!(top_of("PUSH1 0x01\nPUSH1 0x00\nSUB"), Word::max_value());
}

#[test]
fn mstore8_then_mload() {
    let top = top_of("PUSH1 0x05\nPUSH1 0x00\nMSTORE8\nPUSH1 0x00\nMLOAD");
    assert_eq!(top, Word::from_limbs(0, 0, 0, 0x0500_0000_0000_0000));
}

#[test]
fn jump_to_a_jumpdest() {
    let mut program = code("PUSH1 0x00\nPUSH1 0x08\nJUMP\nINVALID\nINVALID\nINVALID\nJUMPDEST\nPUSH1 0x2a");
    assert_eq!(program[8], 0x5b);
    let (ctx, result) = run_code(program.clone());
    assert!(result.is_ok());
    assert_eq!(ctx.stack.stack, vec![w(0), w(0x2a)]);
    assert_eq!(ctx.pc, 11);
    program[8] = 0x01;
    let (ctx, result) = run_code(program);
    assert!(matches!(result, Err(EVMError::InvalidJumpDestination)));
    assert_eq!(ctx.pc, 8);
}

#[test]
fn jump_with_the_target_below_the_top() {
    // the target is the top of the stack, here 0, which holds a PUSH1
    let mut program = code("PUSH1 0x08\nPUSH1 0x00\nJUMP\nINVALID\nINVALID\nINVALID\nJUMPDEST");
    program[8] = 0x5b;
    let (_, result) = run_code(program);
    assert!(matches!(result, Err(EVMError::InvalidJumpDestination)));
}

#[test]
fn jump_outside_the_code() {
    let (_, result) = run_listing("PUSH2 0x1000\nJUMP");
    assert!(matches!(result, Err(EVMError::InvalidJumpDestination)));
    let (_, result) = run_listing("PUSH32 0xffffffffffffffffffffffffffffffffffffffffffffffffffffffffffffffff\nJUMP");
    assert!(matches!(result, Err(EVMError::InvalidJumpDestination)));
}

#[test]
fn jumpi_jumps_only_on_a_condition() {
    let listing = "PUSH1 0x01\nPUSH1 0x08\nJUMPI\nPUSH1 0x09\nSTOP\nJUMPDEST\nPUSH1 0x2a";
    let (ctx, result) = run_listing(listing);
    assert!(result.is_ok());
    assert_eq!(ctx.stack.stack, vec![w(0x2a)]);
    let listing = "PUSH1 0x00\nPUSH1 0x08\nJUMPI\nPUSH1 0x09\nSTOP\nJUMPDEST\nPUSH1 0x2a";
    let (ctx, result) = run_listing(listing);
    assert!(result.is_ok());
    assert_eq!(ctx.stack.stack, vec![w(0x09)]);
    let (_, result) = run_listing("PUSH1 0x01\nPUSH1 0x00\nJUMPI");
    assert!(matches!(result, Err(EVMError::InvalidJumpDestination)));
}

#[test]
fn call_returns_data_to_the_caller() {
    let callee = addr(0xc0de);
    let blk = BlockContext::new();
    let mut state = InMemoryStateDB::new();
    state.set_code(callee, code("PUSH1 0x2A\nPUSH1 0x00\nMSTORE\nPUSH1 0x20\nPUSH1 0x00\nRETURN"));
    state.commit();
    let mut vm = Interpreter::new(state, &blk);
    let mut ctx = frame(code(
        "PUSH1 0x20\nPUSH1 0x00\nPUSH1 0x00\nPUSH1 0x00\nPUSH1 0x00\nPUSH2 0xc0de\nPUSH1 0x00\nCALL",
    ));
    let result = vm.run_with_ctx(&mut ctx);
    assert!(result.is_ok());
    assert_eq!(ctx.stack.stack, vec![w(1)]);
    let mut expected = vec![0u8; 32];
    expected[31] = 0x2a;
    assert_eq!(ctx.memory.memory, expected);
    assert_eq!(ctx.return_data, expected);
}

#[test]
fn call_truncates_and_pads_return_data() {
    let callee = addr(0xc0de);
    let blk = BlockContext::new();
    let mut state = InMemoryStateDB::new();
    state.set_code(callee, code("PUSH2 0x0102\nPUSH1 0x00\nMSTORE\nPUSH1 0x02\nPUSH1 0x1e\nRETURN"));
    let mut short = Interpreter::new(state, &blk);
    let mut ctx = frame(code(
        "PUSH1 0x01\nPUSH1 0x02\nPUSH1 0x00\nPUSH1 0x00\nPUSH1 0x00\nPUSH2 0xc0de\nPUSH1 0x00\nCALL",
    ));
    // the code is read before the call drops the dirty layer that holds it
    assert!(short.run_with_ctx(&mut ctx).is_ok());
    assert_eq!(ctx.stack.stack, vec![w(1)]);
    assert_eq!(ctx.memory.memory, vec![0, 0, 1]);
    assert_eq!(short.state.get_code(callee), Vec::<u8>::new());

    let mut state = InMemoryStateDB::new();
    state.set_code(callee, code("PUSH2 0x0102\nPUSH1 0x00\nMSTORE\nPUSH1 0x02\nPUSH1 0x1e\nRETURN"));
    state.commit();
    let mut vm = Interpreter::new(state, &blk);
    let mut ctx = frame(code(
        "PUSH1 0x01\nPUSH1 0x02\nPUSH1 0x00\nPUSH1 0x00\nPUSH1 0x00\nPUSH2 0xc0de\nPUSH1 0x00\nCALL",
    ));
    assert!(vm.run_with_ctx(&mut ctx).is_ok());
    assert_eq!(ctx.memory.memory, vec![0, 0, 1]);
    assert_eq!(ctx.return_data, vec![1, 2]);
    let mut ctx = frame(code(
        "PUSH1 0x04\nPUSH1 0x00\nPUSH1 0x00\nPUSH1 0x00\nPUSH1 0x00\nPUSH2 0xc0de\nPUSH1 0x00\nCALL",
    ));
    assert!(vm.run_with_ctx(&mut ctx).is_ok());
    assert_eq!(ctx.memory.memory, vec![1, 2, 0, 0]);
}

#[test]
fn call_passes_arguments() {
    let callee = addr(0xc0de);
    let blk = BlockContext::new();
    let mut state = InMemoryStateDB::new();
    // returns the first word of its call data plus one
    state.set_code(
        callee,
        code("PUSH1 0x00\nCALLDATALOAD\nPUSH1 0x01\nADD\nPUSH1 0x00\nMSTORE\nPUSH1 0x20\nPUSH1 0x00\nRETURN"),
    );
    state.commit();
    let mut vm = Interpreter::new(state, &blk);
    let mut ctx = frame(code(
        "PUSH1 0x29\nPUSH1 0x00\nMSTORE\nPUSH1 0x20\nPUSH1 0x20\nPUSH1 0x20\nPUSH1 0x00\nPUSH1 0x00\nPUSH2 0xc0de\nPUSH1 0x00\nCALL\nPUSH1 0x20\nMLOAD",
    ));
    assert!(vm.run_with_ctx(&mut ctx).is_ok());
    assert_eq!(ctx.stack.stack, vec![w(1), w(0x2a)]);
}

#[test]
fn call_that_reverts_pushes_zero_and_keeps_the_data() {
    let callee = addr(0xc0de);
    let blk = BlockContext::new();
    let mut state = InMemoryStateDB::new();
    state.set_code(
        callee,
        code("PUSH1 0x07\nPUSH1 0x00\nSSTORE\nPUSH1 0xee\nPUSH1 0x00\nMSTORE8\nPUSH1 0x01\nPUSH1 0x00\nREVERT"),
    );
    state.commit();
    let mut vm = Interpreter::new(state, &blk);
    let listing = "PUSH1 0x01\nPUSH1 0x00\nPUSH1 0x00\nPUSH1 0x00\nPUSH1 0x00\nPUSH2 0xc0de\nPUSH1 0x00\nCALL";
    let mut ctx = frame(code(listing));
    assert!(vm.run_with_ctx(&mut ctx).is_ok());
    assert_eq!(ctx.stack.stack, vec![w(0)]);
    assert_eq!(ctx.return_data, vec![0xee]);
    assert_eq!(ctx.memory.memory, vec![0xee]);
    vm.state.prepare();
    assert_eq!(vm.state.get_state(callee, w(0)), w(0));
}

#[test]
fn call_that_fails_discards_the_data() {
    let callee = addr(0xc0de);
    let blk = BlockContext::new();
    let mut state = InMemoryStateDB::new();
    state.set_code(callee, vec![0x60, 0x07, 0x60, 0x00, 0x55, 0x0c]);
    state.commit();
    let mut vm = Interpreter::new(state, &blk);
    let listing = "PUSH1 0xff\nPUSH1 0x00\nMSTORE8\nPUSH1 0x01\nPUSH1 0x00\nPUSH1 0x00\nPUSH1 0x00\nPUSH1 0x00\nPUSH2 0xc0de\nPUSH1 0x00\nCALL";
    let mut ctx = frame(code(listing));
    assert!(vm.run_with_ctx(&mut ctx).is_ok());
    assert_eq!(ctx.stack.stack, vec![w(0)]);
    assert_eq!(ctx.return_data, Vec::<u8>::new());
    assert_eq!(ctx.memory.memory, vec![0]);
}

#[test]
fn call_commits_what_the_callee_wrote() {
    let callee = addr(0xc0de);
    let blk = BlockContext::new();
    let mut state = InMemoryStateDB::new();
    state.set_code(callee, code("PUSH1 0x07\nPUSH1 0x03\nSSTORE"));
    state.commit();
    let mut vm = Interpreter::new(state, &blk);
    let listing = "PUSH1 0x00\nPUSH1 0x00\nPUSH1 0x00\nPUSH1 0x00\nPUSH1 0x00\nPUSH2 0xc0de\nPUSH1 0x00\nCALL";
    let mut ctx = frame(code(listing));
    assert!(vm.run_with_ctx(&mut ctx).is_ok());
    assert_eq!(ctx.stack.stack, vec![w(1)]);
    vm.state.prepare();
    assert_eq!(vm.state.get_state(callee, w(3)), w(7));
}

#[test]
fn call_with_value_runs_when_the_caller_can_pay() {
    let blk = BlockContext::new();
    let mut state = InMemoryStateDB::new();
    state.add_balance(addr(1), w(100));
    state.set_code(addr(0xc0de), code("CALLVALUE\nPUSH1 0x00\nSSTORE\nSELFBALANCE\nPUSH1 0x01\nSSTORE"));
    state.commit();
    let mut vm = Interpreter::new(state, &blk);
    let listing = "PUSH1 0x00\nPUSH1 0x00\nPUSH1 0x00\nPUSH1 0x00\nPUSH1 0x1e\nPUSH2 0xc0de\nPUSH1 0x00\nCALL";
    let mut ctx = frame(code(listing));
    ctx.caller = addr(1);
    assert!(vm.run_with_ctx(&mut ctx).is_ok());
    assert_eq!(ctx.stack.stack, vec![w(1)]);
    // the child sees the value of the call
    assert_eq!(vm.state.get_state(addr(0xc0de), w(0)), w(0x1e));
    // the payment was made in the dirty layer, which the call dropped before the child ran
    assert_eq!(vm.state.get_state(addr(0xc0de), w(1)), w(0));
    assert_eq!(vm.state.get_balance(addr(1)), w(100));
    assert_eq!(vm.state.get_balance(addr(0xc0de)), w(0));
}

#[test]
fn call_without_funds_pushes_zero() {
    let listing = "PUSH1 0x00\nPUSH1 0x00\nPUSH1 0x00\nPUSH1 0x00\nPUSH1 0x1e\nPUSH2 0xc0de\nPUSH1 0x00\nCALL\nPUSH1 0x05";
    let (ctx, result) = run_listing(listing);
    assert!(result.is_ok());
    assert_eq!(ctx.stack.stack, vec![w(0), w(5)]);
    assert_eq!(ctx.return_data, Vec::<u8>::new());
}

#[test]
fn call_sees_the_origin_as_caller() {
    let callee = addr(0xc0de);
    let blk = BlockContext::new();
    let mut state = InMemoryStateDB::new();
    state.set_code(
        callee,
        code("CALLER\nPUSH1 0x00\nMSTORE\nADDRESS\nPUSH1 0x20\nMSTORE\nCALLVALUE\nPUSH1 0x40\nMSTORE\nPUSH1 0x60\nPUSH1 0x00\nRETURN"),
    );
    state.commit();
    let mut vm = Interpreter::new(state, &blk);
    let listing = "PUSH1 0x60\nPUSH1 0x00\nPUSH1 0x00\nPUSH1 0x00\nPUSH1 0x00\nPUSH2 0xc0de\nPUSH1 0x00\nCALL";
    let mut ctx = frame(code(listing));
    ctx.origin = addr(0x0a);
    ctx.caller = addr(0x0b);
    ctx.contract = addr(0x0c);
    assert!(vm.run_with_ctx(&mut ctx).is_ok());
    assert_eq!(ctx.memory.read32(0), w(0x0a));
    assert_eq!(ctx.memory.read32(32), w(0xc0de));
    assert_eq!(ctx.memory.read32(64), w(0));
}

fn who_am_i() -> Vec<u8> {
    code("CALLER\nPUSH1 0x00\nMSTORE\nADDRESS\nPUSH1 0x20\nMSTORE\nPUSH1 0x07\nPUSH1 0x01\nSSTORE\nPUSH1 0x40\nPUSH1 0x00\nRETURN")
}

fn nested(opcode: &str) -> (Context, InMemoryStateDB) {
    let blk = BlockContext::new();
    let mut state = InMemoryStateDB::new();
    state.set_code(addr(0xc0de), who_am_i());
    state.commit();
    let mut vm = Interpreter::new(state, &blk);
    let listing = format!("PUSH1 0x40\nPUSH1 0x00\nPUSH1 0x00\nPUSH1 0x00\nPUSH2 0xc0de\nPUSH1 0x00\n{}", opcode);
    let mut ctx = frame(code(&listing));
    ctx.origin = addr(0x0a);
    ctx.caller = addr(0x0b);
    ctx.contract = addr(0x0c);
    assert!(vm.run_with_ctx(&mut ctx).is_ok());
    assert_eq!(ctx.stack.stack, vec![w(1)]);
    (ctx, vm.state)
}

#[test]
fn delegate_call_keeps_contract_and_caller() {
    let (mut ctx, mut state) = nested("DELEGATECALL");
    assert_eq!(ctx.memory.read32(0), w(0x0b));
    assert_eq!(ctx.memory.read32(32), w(0x0c));
    state.prepare();
    assert_eq!(state.get_state(addr(0x0c), w(1)), w(7));
}

#[test]
fn call_code_keeps_the_contract() {
    let (mut ctx, mut state) = nested("CALLCODE");
    assert_eq!(ctx.memory.read32(0), w(0xc0de));
    assert_eq!(ctx.memory.read32(32), w(0x0c));
    state.prepare();
    assert_eq!(state.get_state(addr(0x0c), w(1)), w(7));
}

#[test]
fn static_call_does_not_commit() {
    let (mut ctx, mut state) = nested("STATICCALL");
    assert_eq!(ctx.memory.read32(0), w(0x0a));
    assert_eq!(ctx.memory.read32(32), w(0xc0de));
    assert_eq!(state.get_state(addr(0xc0de), w(1)), w(7));
    state.prepare();
    assert_eq!(state.get_state(addr(0xc0de), w(1)), w(0));
}

fn to_alloy(a: Address) -> alloy_primitives::Address {
    let mut bytes = [0u8; 20];
    bytes[0..4].copy_from_slice(&a.l2.to_be_bytes());
    bytes[4..12].copy_from_slice(&a.l1.to_be_bytes());
    bytes[12..20].copy_from_slice(&a.l0.to_be_bytes());
    alloy_primitives::Address::new(bytes)
}

fn word_of_alloy(a: alloy_primitives::Address) -> Word {
    Word::from_be_slice(a.as_slice())
}

// creation code that returns the two bytes 0x60 0x2a
const INIT: &str = "PUSH2 0x602a\nPUSH1 0x00\nMSTORE\nPUSH1 0x02\nPUSH1 0x1e\nRETURN";

#[test]
fn create_installs_the_returned_code() {
    let blk = BlockContext::new();
    let mut state = InMemoryStateDB::new();
    state.set_nonce(addr(0x0b), 5);
    let mut vm = Interpreter::new(state, &blk);
    let init = code(INIT);
    assert_eq!(init.len(), 11);
    // store the creation code at the end of the first word and create from it
    let listing = format!("PUSH11 0x{}\nPUSH1 0x00\nMSTORE\nPUSH1 0x0b\nPUSH1 0x15\nPUSH1 0x00\nCREATE", hex::encode(&init));
    let mut ctx = frame(code(&listing));
    ctx.caller = addr(0x0b);
    ctx.contract = addr(0x0c);
    assert!(vm.run_with_ctx(&mut ctx).is_ok());
    let expected = to_alloy(addr(0x0b)).create(5);
    assert_eq!(ctx.stack.stack, vec![word_of_alloy(expected)]);
    let created = evm_core::word::u256_to_address(ctx.stack.peek());
    assert_eq!(vm.state.get_code(created), vec![0x60, 0x2a]);
    assert_eq!(
        vm.state.get_code_hash(created),
        Word::from_be_slice(alloy_primitives::keccak256([0x60u8, 0x2a]).as_slice())
    );
    assert_eq!(address_to_word(created), ctx.stack.peek());
}

#[test]
fn create2_derives_the_address_from_salt_and_code() {
    let blk = BlockContext::new();
    let mut vm = Interpreter::new(InMemoryStateDB::new(), &blk);
    let init = code(INIT);
    let listing = format!("PUSH11 0x{}\nPUSH1 0x00\nMSTORE\nPUSH1 0x77\nPUSH1 0x0b\nPUSH1 0x15\nPUSH1 0x00\nCREATE2", hex::encode(&init));
    let mut ctx = frame(code(&listing));
    ctx.caller = addr(0x0b);
    assert!(vm.run_with_ctx(&mut ctx).is_ok());
    let mut salt = [0u8; 32];
    salt[31] = 0x77;
    let expected = to_alloy(addr(0x0b)).create2(salt, alloy_primitives::keccak256(&init).0);
    assert_eq!(ctx.stack.stack, vec![word_of_alloy(expected)]);
    let created = evm_core::word::u256_to_address(ctx.stack.peek());
    assert_eq!(vm.state.get_code(created), vec![0x60, 0x2a]);
}

#[test]
fn create_with_value_needs_funds() {
    let init = code(INIT);
    let listing = format!("PUSH11 0x{}\nPUSH1 0x00\nMSTORE\nPUSH1 0x0b\nPUSH1 0x15\nPUSH1 0x01\nCREATE", hex::encode(&init));
    let (ctx, result) = run_listing(&listing);
    assert!(matches!(result, Err(EVMError::InsufficientBalance)));
    assert_eq!(ctx.stack.len(), 0);
}

#[test]
fn create_fails_with_its_creation_code() {
    let listing = "PUSH1 0xfe\nPUSH1 0x00\nMSTORE8\nPUSH1 0x01\nPUSH1 0x00\nPUSH1 0x00\nCREATE";
    let (_, result) = run_listing(listing);
    assert!(matches!(result, Err(EVMError::Revert)));
}

#[test]
fn run_starts_from_the_code_of_the_target() {
    let blk = BlockContext::new();
    let mut state = InMemoryStateDB::new();
    state.set_code(addr(9), code("CALLDATASIZE\nCALLVALUE\nCALLER\nORIGIN\nADDRESS"));
    let mut vm = Interpreter::new(state, &blk);
    let ctx = vm.run(addr(1), addr(2), addr(9), vec![1, 2, 3], w(4)).unwrap();
    assert_eq!(ctx.stack.stack, vec![w(3), w(4), w(2), w(1), w(9)]);
    assert!(matches!(vm.run(addr(1), addr(2), addr(8), vec![], w(0)), Ok(c) if c.stack.len() == 0));
    vm.state.set_code(addr(7), vec![0x0c]);
    assert!(matches!(vm.run(addr(1), addr(2), addr(7), vec![], w(0)), Err(EVMError::InvalidOpcode(0x0c))));
}

#[test]
fn errors_of_the_machine() {
    assert!(matches!(run_listing("ADD").1, Err(EVMError::StackUnderflow)));
    assert!(matches!(run_listing("PUSH1 0x01\nADD").1, Err(EVMError::StackUnderflow)));
    assert!(matches!(run_code(vec![0x0c]).1, Err(EVMError::InvalidOpcode(0x0c))));
    assert!(matches!(run_code(vec![0x61, 0x01]).1, Err(EVMError::CodeOutOfBounds)));
    assert!(matches!(run_listing("INVALID").1, Err(EVMError::Revert)));
    assert!(matches!(run_listing("PUSH4 0xffffffff\nMLOAD").1, Err(EVMError::MemoryLimit)));
    assert!(matches!(run_listing("PUSH1 0x01\nPUSH4 0xffffffff\nRETURN").1, Err(EVMError::MemoryLimit)));
    assert!(run_listing("PUSH1 0x00\nPUSH4 0xffffffff\nRETURN").1.is_ok());
    assert!(run_listing("STOP\nADD").1.is_ok());
    assert!(run_code(vec![]).1.is_ok());
    let (ctx, result) = run_listing("PUSH1 0x01\nPUSH1 0x02\nPUSH1 0x03\nADDMOD\nADD");
    assert!(matches!(result, Err(EVMError::StackUnderflow)));
    assert_eq!(ctx.stack.stack, vec![w(0)]);
    let (ctx, result) = run_listing("PUSH1 0x03\nPUSH1 0x05\nPUSH1 0x06\nADDMOD\nADD");
    assert!(matches!(result, Err(EVMError::StackUnderflow)));
    assert_eq!(ctx.stack.stack, vec![w(2)]);
}

#[test]
fn stack_overflow_is_caught() {
    let mut listing = String::new();
    for _ in 0..1024 {
        listing.push_str("PUSH0\n");
    }
    let (ctx, result) = run_listing(&listing);
    assert!(result.is_ok());
    assert_eq!(ctx.stack.len(), 1024);
    listing.push_str("PC\n");
    let (ctx, result) = run_listing(&listing);
    assert!(matches!(result, Err(EVMError::StackOverflow)));
    assert_eq!(ctx.stack.len(), 1024);
    assert_eq!(ctx.pc, 1024);
}

#[test]
fn step_limit_ends_a_loop() {
    let blk = BlockContext::new();
    let mut vm = Interpreter::new(InMemoryStateDB::new(), &blk);
    vm.set_step_limit(1000);
    let mut ctx = frame(code("JUMPDEST\nPUSH1 0x00\nJUMP"));
    assert!(matches!(vm.run_with_ctx(&mut ctx), Err(EVMError::StepLimit)));
    assert_eq!(vm.steps_left, 0);
    vm.set_step_limit(3);
    let mut ctx = frame(code("PUSH1 0x01\nPUSH1 0x02\nADD"));
    assert!(vm.run_with_ctx(&mut ctx).is_ok());
    assert_eq!(vm.steps_left, 0);
    vm.set_step_limit(2);
    let mut ctx = frame(code("PUSH1 0x01\nPUSH1 0x02\nADD"));
    assert!(matches!(vm.run_with_ctx(&mut ctx), Err(EVMError::StepLimit)));
    assert_eq!(ctx.stack.len(), 2);
}

#[test]
fn call_depth_is_limited() {
    // a contract that calls itself and returns what the inner call pushed
    let blk = BlockContext::new();
    let mut state = InMemoryStateDB::new();
    state.set_code(
        addr(0xc0de),
        code("PUSH1 0x00\nPUSH1 0x00\nPUSH1 0x00\nPUSH1 0x00\nPUSH1 0x00\nPUSH2 0xc0de\nPUSH1 0x00\nCALL"),
    );
    state.commit();
    let mut vm = Interpreter::new(state, &blk);
    let mut ctx = frame(code("PUSH1 0x00\nPUSH1 0x00\nPUSH1 0x00\nPUSH1 0x00\nPUSH1 0x00\nPUSH2 0xc0de\nPUSH1 0x00\nCALL"));
    // the frame at the limit fails, and that ends every frame above it
    ctx.depth = 1020;
    assert!(matches!(vm.run_with_ctx(&mut ctx), Err(EVMError::CallDepth)));
    assert_eq!(ctx.stack.len(), 0);
    let mut ctx = frame(code("PUSH1 0x00\nPUSH1 0x00\nPUSH1 0x00\nPUSH1 0x00\nPUSH1 0x00\nPUSH2 0xc0de\nPUSH1 0x00\nCALL"));
    ctx.depth = 1024;
    assert!(matches!(vm.run_with_ctx(&mut ctx), Err(EVMError::CallDepth)));
    assert_eq!(ctx.stack.len(), 7);
}

#[test]
fn trace_lists_the_instructions() {
    let blk = BlockContext::new();
    let mut state = InMemoryStateDB::new();
    state.set_code(addr(0xc0de), code("PUSH2 0xabcd\nPOP"));
    state.commit();
    let mut vm = Interpreter::new(state, &blk);
    let mut quiet = frame(code("PUSH1 0x06\nPUSH1 0x07\nADD"));
    assert!(vm.run_with_ctx(&mut quiet).is_ok());
    assert_eq!(vm.trace, Vec::<String>::new());
    vm.set_tracing(true);
    let mut ctx = frame(code(
        "PUSH0\nPUSH0\nPUSH0\nPUSH0\nPUSH0\nPUSH2 0xc0de\nPUSH0\nCALL\nSTOP\nADD",
    ));
    assert!(vm.run_with_ctx(&mut ctx).is_ok());
    assert_eq!(
        vm.trace,
        vec![
            "PUSH0", "PUSH0", "PUSH0", "PUSH0", "PUSH0", "PUSH2 0xc0de", "PUSH0", "CALL",
            "    PUSH2 0xabcd", "    POP", "STOP",
        ]
    );
    let mut bad = frame(vec![0x01, 0x0c]);
    bad.depth = 2;
    vm.trace.clear();
    assert!(matches!(vm.run_with_ctx(&mut bad), Err(EVMError::StackUnderflow)));
    assert_eq!(vm.trace, vec!["        ADD"]);
}

#[test]
fn trace_line_of_a_cut_off_push() {
    let mut ctx = frame(vec![0x62, 0x01, 0x0f]);
    ctx.depth = 1;
    assert_eq!(evm_core::vm::trace_line(&ctx, 0x62), Some("    PUSH3 0x010f".to_string()));
    assert_eq!(evm_core::vm::trace_line(&ctx, 0x0c), None);
    ctx.pc = 2;
    assert_eq!(evm_core::vm::trace_line(&ctx, 0x60), Some("    PUSH1 0x".to_string()));
    assert_eq!(evm_core::vm::trace_line(&ctx, 0x5b), Some("    JUMPDEST".to_string()));
}

// a compiled contract with `setNumber(uint256)`, `number()` and `getNumber()`
const COUNTER: &str = "608060405234801561000f575f80fd5b506004361061003f575f3560e01c80633fb5c1cb146100435780638381f58a1461005f578063f2c9ecd81461007d575b5f80fd5b61005d60048036038101906100589190610102565b61009b565b005b6100676100b1565b604051610074919061013c565b60405180910390f35b6100856100b6565b604051610092919061013c565b60405180910390f35b6103e8816100a99190610182565b5f8190555050565b5f5481565b5f6103e85f546100c69190610182565b905090565b5f80fd5b5f819050919050565b6100e1816100cf565b81146100eb575f80fd5b50565b5f813590506100fc816100d8565b92915050565b5f60208284031215610117576101166100cb565b5b5f610124848285016100ee565b91505092915050565b610136816100cf565b82525050565b5f60208201905061014f5f83018461012d565b92915050565b7f4e487b71000000000000000000000000000000000000000000000000000000005f52601160045260245ffd5b5f61018c826100cf565b9150610197836100cf565b92508282019050808211156101af576101ae610155565b5b9291505056fea264697066735822122069e2c9c9514348b945579e77ad83ba17fabb3e7941e621d9e563c526c1ec099f64736f6c63430008150033";

#[test]
fn compiled_contract_runs() {
    let blk = BlockContext::new();
    let mut state = InMemoryStateDB::new();
    let contract = addr(0xc0de);
    state.set_code(contract, hex::decode(COUNTER).unwrap());
    let mut vm = Interpreter::new(state, &blk);
    // no selector: the contract reverts without data
    assert!(matches!(vm.run(addr(1), addr(1), contract, vec![], w(0)), Err(EVMError::Revert)));
    // a call with value reverts as well
    assert!(matches!(
        vm.run(addr(1), addr(1), contract, vec![0x83, 0x81, 0xf5, 0x8a], w(1)),
        Err(EVMError::Revert)
    ));
    let ctx = vm.run(addr(1), addr(1), contract, vec![0x83, 0x81, 0xf5, 0x8a], w(0)).unwrap();
    assert_eq!(ctx.return_data, vec![0u8; 32]);
    let mut set_number = vec![0x3f, 0xb5, 0xc1, 0xcb];
    set_number.extend(w(5).to_be_bytes());
    let ctx = vm.run(addr(1), addr(1), contract, set_number, w(0)).unwrap();
    assert_eq!(ctx.return_data, Vec::<u8>::new());
    assert_eq!(vm.state.get_state(contract, w(0)), w(1005));
    let ctx = vm.run(addr(1), addr(1), contract, vec![0x83, 0x81, 0xf5, 0x8a], w(0)).unwrap();
    assert_eq!(ctx.return_data, w(1005).to_be_bytes());
    let ctx = vm.run(addr(1), addr(1), contract, vec![0xf2, 0xc9, 0xec, 0xd8], w(0)).unwrap();
    assert_eq!(ctx.return_data, w(2005).to_be_bytes());
    // an argument close to 2^256 makes the checked addition revert with a panic code
    let mut overflow = vec![0x3f, 0xb5, 0xc1, 0xcb];
    overflow.extend(Word::max_value().to_be_bytes());
    assert!(matches!(vm.run(addr(1), addr(1), contract, overflow, w(0)), Err(EVMError::Revert)));
    assert_eq!(vm.state.get_state(contract, w(0)), w(1005));
}

#[test]
fn calls_nest_down_to_the_limit() {
    let blk = BlockContext::new();
    let mut state = InMemoryStateDB::new();
    let listing = "PUSH1 0x00\nPUSH1 0x00\nPUSH1 0x00\nPUSH1 0x00\nPUSH1 0x00\nPUSH2 0xc0de\nPUSH1 0x00\nCALL";
    state.set_code(addr(0xc0de), code(listing));
    state.commit();
    let mut vm = Interpreter::new(state, &blk);
    let mut ctx = frame(code(listing));
    assert!(matches!(vm.run_with_ctx(&mut ctx), Err(EVMError::CallDepth)));
    assert_eq!(ctx.stack.len(), 0);
    // 1025 frames took eight steps each
    assert_eq!(vm.steps_left, u64::MAX - 1025 * 8);
}

#[test]
fn faults_of_the_machine_end_every_frame() {
    let blk = BlockContext::new();
    let mut state = InMemoryStateDB::new();
    state.set_code(addr(0xc0de), code("ADD"));
    state.set_code(addr(0xbeef), code("JUMPDEST\nPUSH1 0x00\nJUMP"));
    state.commit();
    let mut vm = Interpreter::new(state, &blk);
    let call = |to: &str| {
        code(&format!("PUSH0\nPUSH0\nPUSH0\nPUSH0\nPUSH0\nPUSH2 0x{}\nPUSH0\nCALL\nPUSH1 0x09", to))
    };
    let mut ctx = frame(call("c0de"));
    assert!(matches!(vm.run_with_ctx(&mut ctx), Err(EVMError::StackUnderflow)));
    assert_eq!(ctx.stack.len(), 0);
    vm.set_step_limit(100);
    let mut ctx = frame(call("beef"));
    assert!(matches!(vm.run_with_ctx(&mut ctx), Err(EVMError::StepLimit)));
    assert_eq!(vm.steps_left, 0);
    assert!(EVMError::StepLimit.is_fatal());
    assert!(EVMError::MemoryLimit.is_fatal());
    assert!(EVMError::CodeOutOfBounds.is_fatal());
    assert!(EVMError::StackOverflow.is_fatal());
    assert!(!EVMError::Revert.is_fatal());
    assert!(!EVMError::InvalidOpcode(1).is_fatal());
    assert!(!EVMError::InvalidAsmToken(String::new()).is_fatal());
}

#[test]
fn call_instruction_on_its_own() {
    let callee = addr(0xc0de);
    let blk = BlockContext::new();
    let mut state = InMemoryStateDB::new();
    state.set_code(callee, vec![0x60, 0x2a, 0x60, 0x00, 0x52, 0x60, 0x20, 0x60, 0x00, 0xf3]);
    state.commit();
    state.set_state(addr(9), w(1), w(2));
    let mut vm = Interpreter::new(state, &blk);
    let mut ctx = Context::new();
    // two further words, then the seven operands, the gas on top
    for v in [11u64, 12, 32, 4, 0, 0, 0, 0xc0de, 0] {
        ctx.stack.push(w(v));
    }
    assert!(vm.call(&mut ctx).is_ok());
    assert_eq!(ctx.stack.stack, vec![w(11), w(12), w(1)]);
    let mut expected = vec![0u8; 36];
    expected[35] = 0x2a;
    assert_eq!(ctx.memory.memory, expected);
    assert_eq!(ctx.return_data, expected[4..].to_vec());
    assert_eq!(vm.steps_left, u64::MAX - 6);
    // the dirty layer was dropped before the child ran
    assert_eq!(vm.state.get_state(addr(9), w(1)), w(0));
}
