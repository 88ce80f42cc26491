use evm_core::context::{BlockContext, Context};
use evm_core::error::EVMError;
use evm_core::instructions;
use evm_core::memory_db::InMemoryStateDB;
use evm_core::opcode_table::execute;
use evm_core::state::StateDB;
use evm_core::word::{Address, Word};

fn addr(n: u64) -> Address {
    Address { l0: n, l1: 0, l2: 0 }
}

fn w(v: u64) -> Word {
    Word::from_u64(v)
}

/// A frame whose stack holds `words`, the last one on top.
fn frame_with(words: &[u64]) -> Context {
    let mut ctx = Context::new();
    for v in words {
        ctx.stack.push(w(*v));
    }
    ctx
}

fn run(op: u8, ctx: &mut Context) -> Result<(), EVMError> {
    let mut state = InMemoryStateDB::new();
    let blk = BlockContext::new();
    execute(op, ctx, &mut state, &blk)
}

fn binary(op: u8, top: u64, below: u64) -> Word {
    let mut ctx = frame_with(&[9, below, top]);
    assert!(run(op, &mut ctx).is_ok());
    assert_eq!(ctx.stack.len(), 2);
    assert_eq!(ctx.stack.stack[0], w(9));
    ctx.stack.peek()
}

#[test]
fn arithmetic_handlers_take_the_top_as_first_operand() {
    assert_eq!(binary(0x01, 6, 7), w(13));
    assert_eq!(binary(0x02, 6, 7), w(42));
    assert_eq!(binary(0x03, 7, 6), w(1));
    assert_eq!(binary(0x03, 6, 7), Word::max_value());
    assert_eq!(binary(0x04, 20, 6), w(3));
    assert_eq!(binary(0x04, 20, 0), w(0));
    assert_eq!(binary(0x05, 20, 6), w(3));
    assert_eq!(binary(0x05, 20, 0), w(0));
    assert_eq!(binary(0x06, 20, 6), w(2));
    assert_eq!(binary(0x06, 20, 0), w(0));
    assert_eq!(binary(0x07, 20, 6), w(2));
    assert_eq!(binary(0x07, 20, 0), w(0));
    assert_eq!(binary(0x0a, 2, 8), w(256));
    assert_eq!(binary(0x0b, 0, 0xff), Word::max_value());
}

#[test]
fn comparison_handlers() {
    assert_eq!(binary(0x10, 1, 2), w(1));
    assert_eq!(binary(0x10, 2, 1), w(0));
    assert_eq!(binary(0x11, 2, 1), w(1));
    assert_eq!(binary(0x11, 1, 1), w(0));
    assert_eq!(binary(0x14, 5, 5), w(1));
    assert_eq!(binary(0x14, 5, 6), w(0));
    let mut ctx = frame_with(&[0]);
    ctx.stack.push(Word::max_value());
    assert!(run(0x12, &mut ctx).is_ok());
    assert_eq!(ctx.stack.stack, vec![w(1)]);
    let mut ctx = frame_with(&[0]);
    ctx.stack.push(Word::max_value());
    assert!(run(0x13, &mut ctx).is_ok());
    assert_eq!(ctx.stack.stack, vec![w(0)]);
    let mut ctx = frame_with(&[0]);
    assert!(run(0x15, &mut ctx).is_ok());
    assert_eq!(ctx.stack.stack, vec![w(1)]);
}

#[test]
fn bitwise_handlers() {
    assert_eq!(binary(0x16, 0b1100, 0b1010), w(0b1000));
    assert_eq!(binary(0x17, 0b1100, 0b1010), w(0b1110));
    assert_eq!(binary(0x18, 0b1100, 0b1010), w(0b0110));
    assert_eq!(binary(0x1a, 31, 0x1234), w(0x34));
    assert_eq!(binary(0x1a, 30, 0x1234), w(0x12));
    assert_eq!(binary(0x1b, 4, 0xff), w(0xff0));
    assert_eq!(binary(0x1c, 4, 0xff), w(0x0f));
    assert_eq!(binary(0x1d, 4, 0xff), w(0x0f));
    let mut ctx = frame_with(&[5]);
    assert!(run(0x19, &mut ctx).is_ok());
    assert!(run(0x19, &mut ctx).is_ok());
    assert_eq!(ctx.stack.stack, vec![w(5)]);
}

#[test]
fn three_operand_handlers() {
    let mut ctx = frame_with(&[8, 10, 10]);
    assert!(run(0x08, &mut ctx).is_ok());
    assert_eq!(ctx.stack.stack, vec![w(4)]);
    let mut ctx = frame_with(&[8, 10, 10]);
    assert!(run(0x09, &mut ctx).is_ok());
    assert_eq!(ctx.stack.stack, vec![w(4)]);
    let mut ctx = frame_with(&[10, 10]);
    assert!(matches!(run(0x08, &mut ctx), Err(EVMError::StackUnderflow)));
    assert_eq!(ctx.stack.len(), 2);
}

#[test]
fn keccak_of_memory() {
    let mut ctx = frame_with(&[3, 1]);
    ctx.memory.write(0, &[9, 1, 2, 3]);
    assert!(run(0x20, &mut ctx).is_ok());
    let digest = alloy_primitives::keccak256([1u8, 2, 3]);
    assert_eq!(ctx.stack.stack, vec![Word::from_be_slice(digest.as_slice())]);
    let mut ctx = frame_with(&[0, 77]);
    assert!(run(0x20, &mut ctx).is_ok());
    assert_eq!(ctx.stack.stack, vec![w(0)]);
    assert_eq!(ctx.memory.len(), 0);
    let mut ctx = frame_with(&[2, 0]);
    assert!(run(0x20, &mut ctx).is_ok());
    let digest = alloy_primitives::keccak256([0u8, 0]);
    assert_eq!(ctx.stack.stack, vec![Word::from_be_slice(digest.as_slice())]);
    assert_eq!(ctx.memory.len(), 2);
}

#[test]
fn environment_handlers() {
    let mut state = InMemoryStateDB::new();
    state.add_balance(addr(0x0c), w(55));
    state.set_code(addr(0x0d), vec![1, 2, 3, 4]);
    let mut blk = BlockContext::new();
    blk.gas_price = w(1);
    blk.block_coinbase = w(2);
    blk.block_timestamp = w(3);
    blk.block_number = w(4);
    blk.block_difficulty = w(5);
    blk.block_gas_limit = w(6);
    blk.chain_id = w(7);
    blk.base_fee = w(8);
    blk.blob_hash = w(9);
    blk.block_hash_fee = w(10);
    let mut ctx = Context::new();
    ctx.contract = addr(0x0c);
    ctx.origin = addr(0x0a);
    ctx.caller = addr(0x0b);
    ctx.value = w(99);
    ctx.call_data = vec![1, 2, 3];
    ctx.code = vec![0; 5];
    ctx.return_data = vec![0; 6];
    ctx.pc = 4;
    ctx.memory.write(0, &[1; 40]);
    let expected: [(u8, u64); 22] = [
        (0x30, 0x0c), (0x32, 0x0a), (0x33, 0x0b), (0x34, 99), (0x36, 3), (0x38, 5), (0x3a, 1),
        (0x3d, 6), (0x41, 2), (0x42, 3), (0x43, 4), (0x44, 5), (0x45, 6), (0x46, 7), (0x47, 55),
        (0x48, 8), (0x49, 9), (0x4a, 10), (0x58, 4), (0x59, 40), (0x5a, 0), (0x5f, 0),
    ];
    for (op, value) in expected {
        assert!(execute(op, &mut ctx, &mut state, &blk).is_ok());
        assert_eq!(ctx.stack.pop(), w(value), "opcode {:#x}", op);
    }
    for (op, operand, value) in [(0x31u8, 0x0cu64, 55u64), (0x3b, 0x0d, 4), (0x40, 7, 0), (0x31, 0x0e, 0)] {
        ctx.stack.push(w(operand));
        assert!(execute(op, &mut ctx, &mut state, &blk).is_ok());
        assert_eq!(ctx.stack.pop(), w(value), "opcode {:#x}", op);
    }
    ctx.stack.push(w(0x0d));
    assert!(instructions::ext_code_hash(&mut ctx, &mut state, &blk).is_ok());
    assert_eq!(ctx.stack.pop(), Word::from_be_slice(alloy_primitives::keccak256([1u8, 2, 3, 4]).as_slice()));
    assert_eq!(ctx.stack.len(), 0);
}

#[test]
fn call_data_load_pads_with_zeros() {
    let mut ctx = frame_with(&[1]);
    ctx.call_data = vec![0xaa, 0xbb, 0xcc];
    assert!(run(0x35, &mut ctx).is_ok());
    assert_eq!(ctx.stack.stack, vec![Word::from_limbs(0, 0, 0, 0xbbcc_0000_0000_0000)]);
    let mut ctx = frame_with(&[3]);
    ctx.call_data = vec![0xaa, 0xbb, 0xcc];
    assert!(run(0x35, &mut ctx).is_ok());
    assert_eq!(ctx.stack.stack, vec![w(0)]);
    let mut ctx = frame_with(&[0]);
    assert!(run(0x35, &mut ctx).is_ok());
    assert_eq!(ctx.stack.stack, vec![w(0)]);
    let mut ctx = frame_with(&[]);
    ctx.stack.push(Word::max_value());
    ctx.call_data = vec![1; 40];
    assert!(run(0x35, &mut ctx).is_ok());
    assert_eq!(ctx.stack.stack, vec![w(0)]);
    let mut ctx = frame_with(&[8]);
    ctx.call_data = (0..40).collect();
    assert!(run(0x35, &mut ctx).is_ok());
    assert_eq!(ctx.stack.peek().to_be_bytes(), (8..40).collect::<Vec<u8>>());
}

#[test]
fn copies_pad_with_zeros() {
    // length 4, source offset 1, destination 2
    let mut ctx = frame_with(&[4, 1, 2]);
    ctx.call_data = vec![0xaa, 0xbb, 0xcc];
    ctx.memory.write(0, &[7; 8]);
    assert!(run(0x37, &mut ctx).is_ok());
    assert_eq!(ctx.memory.memory, vec![7, 7, 0xbb, 0xcc, 0, 0, 7, 7]);
    assert_eq!(ctx.stack.len(), 0);
    let mut ctx = frame_with(&[2, 9, 0]);
    ctx.code = vec![1, 2, 3];
    ctx.memory.write(0, &[7; 3]);
    assert!(run(0x39, &mut ctx).is_ok());
    assert_eq!(ctx.memory.memory, vec![0, 0, 7]);
    let mut ctx = frame_with(&[3, 0, 1]);
    ctx.return_data = vec![1, 2, 3];
    assert!(run(0x3e, &mut ctx).is_ok());
    assert_eq!(ctx.memory.memory, vec![0, 1, 2, 3]);
    let mut state = InMemoryStateDB::new();
    state.set_code(addr(0x0d), vec![1, 2, 3, 4]);
    let blk = BlockContext::new();
    let mut ctx = frame_with(&[3, 2, 0, 0x0d]);
    assert!(execute(0x3c, &mut ctx, &mut state, &blk).is_ok());
    assert_eq!(ctx.memory.memory, vec![3, 4, 0]);
    let mut ctx = frame_with(&[3, 2]);
    assert!(matches!(run(0x37, &mut ctx), Err(EVMError::StackUnderflow)));
    let mut ctx = frame_with(&[1, 0, 0x7fff_ffff]);
    assert!(matches!(run(0x37, &mut ctx), Err(EVMError::MemoryLimit)));
    assert_eq!(ctx.stack.len(), 3);
}

#[test]
fn memory_handlers() {
    let mut ctx = frame_with(&[0x0102, 1]);
    assert!(run(0x52, &mut ctx).is_ok());
    assert_eq!(ctx.memory.len(), 33);
    assert_eq!(ctx.memory.memory[32], 0x02);
    ctx.stack.push(w(2));
    assert!(run(0x51, &mut ctx).is_ok());
    assert_eq!(ctx.stack.stack, vec![w(0x010200)]);
    assert_eq!(ctx.memory.len(), 34);
    let mut ctx = frame_with(&[0x1234, 3]);
    assert!(run(0x53, &mut ctx).is_ok());
    assert_eq!(ctx.memory.memory, vec![0, 0, 0, 0x34]);
    let mut ctx = frame_with(&[2, 0, 1]);
    ctx.memory.write(0, &[1, 2, 3]);
    assert!(run(0x5e, &mut ctx).is_ok());
    assert_eq!(ctx.memory.memory, vec![1, 1, 2]);
    let mut ctx = frame_with(&[1, 2]);
    assert!(run(0x50, &mut ctx).is_ok());
    assert_eq!(ctx.stack.stack, vec![w(1)]);
}

#[test]
fn storage_handlers() {
    let mut state = InMemoryStateDB::new();
    let blk = BlockContext::new();
    let mut ctx = frame_with(&[7, 3]);
    ctx.contract = addr(0x0c);
    assert!(instructions::sstore(&mut ctx, &mut state, &blk).is_ok());
    assert_eq!(state.get_state(addr(0x0c), w(3)), w(7));
    ctx.stack.push(w(3));
    assert!(instructions::sload(&mut ctx, &mut state, &blk).is_ok());
    assert_eq!(ctx.stack.stack, vec![w(7)]);
    ctx.stack.push(w(3));
    assert!(instructions::tstore(&mut ctx, &mut state, &blk).is_ok());
    assert_eq!(state.get_transition_state(addr(0x0c), w(3)), w(7));
    ctx.stack.push(w(3));
    assert!(instructions::tload(&mut ctx, &mut state, &blk).is_ok());
    assert_eq!(ctx.stack.stack, vec![w(7)]);
}

#[test]
fn push_dup_swap_handlers() {
    let mut state = InMemoryStateDB::new();
    let blk = BlockContext::new();
    let mut ctx = Context::new();
    ctx.code = vec![0x61, 0x12, 0x34, 0x00];
    assert!(instructions::push::<2, InMemoryStateDB>(&mut ctx, &mut state, &blk).is_ok());
    assert_eq!(ctx.stack.stack, vec![w(0x1234)]);
    assert!(matches!(
        instructions::push::<4, InMemoryStateDB>(&mut ctx, &mut state, &blk),
        Err(EVMError::CodeOutOfBounds)
    ));
    ctx.stack.push(w(2));
    ctx.stack.push(w(3));
    assert!(instructions::dup::<3, InMemoryStateDB>(&mut ctx, &mut state, &blk).is_ok());
    assert_eq!(ctx.stack.stack, vec![w(0x1234), w(2), w(3), w(0x1234)]);
    assert!(instructions::swap::<2, InMemoryStateDB>(&mut ctx, &mut state, &blk).is_ok());
    assert_eq!(ctx.stack.stack, vec![w(0x1234), w(0x1234), w(3), w(2)]);
    assert!(matches!(
        instructions::swap::<4, InMemoryStateDB>(&mut ctx, &mut state, &blk),
        Err(EVMError::StackUnderflow)
    ));
    assert!(matches!(
        instructions::dup::<5, InMemoryStateDB>(&mut ctx, &mut state, &blk),
        Err(EVMError::StackUnderflow)
    ));
    assert!(run(0x8f, &mut frame_with(&[1; 16])).is_ok());
    assert!(run(0x9f, &mut frame_with(&[1; 17])).is_ok());
    assert!(matches!(run(0x9f, &mut frame_with(&[1; 16])), Err(EVMError::StackUnderflow)));
}

#[test]
fn log_handlers() {
    let mut state = InMemoryStateDB::new();
    let blk = BlockContext::new();
    // topics 5 and 6, size 2, offset 1
    let mut ctx = frame_with(&[9, 6, 5, 2, 1]);
    ctx.contract = addr(0x0c);
    ctx.memory.write(0, &[1, 2, 3]);
    assert!(instructions::log::<2, InMemoryStateDB>(&mut ctx, &mut state, &blk).is_ok());
    assert_eq!(ctx.stack.stack, vec![w(9)]);
    assert_eq!(state.log_count(), 1);
    assert_eq!(state.log(0).address, addr(0x0c));
    assert_eq!(state.log(0).topics, vec![w(5), w(6)]);
    assert_eq!(state.log(0).data, vec![2, 3]);
    let mut ctx = frame_with(&[0, 0]);
    assert!(execute(0xa0, &mut ctx, &mut state, &blk).is_ok());
    assert_eq!(state.log_count(), 2);
    assert_eq!(state.log(1).topics, Vec::<Word>::new());
    let mut ctx = frame_with(&[1, 0, 0]);
    assert!(matches!(execute(0xa2, &mut ctx, &mut state, &blk), Err(EVMError::StackUnderflow)));
    assert_eq!(state.log_count(), 2);
}

#[test]
fn ending_handlers() {
    let mut ctx = frame_with(&[2, 1]);
    ctx.memory.write(0, &[1, 2, 3]);
    assert!(matches!(run(0xf3, &mut ctx), Err(EVMError::Stop)));
    assert_eq!(ctx.return_data, vec![2, 3]);
    assert_eq!(ctx.stack.len(), 0);
    let mut ctx = frame_with(&[2, 2]);
    ctx.memory.write(0, &[1, 2, 3]);
    assert!(matches!(run(0xfd, &mut ctx), Err(EVMError::Revert)));
    assert_eq!(ctx.return_data, vec![3, 0]);
    assert!(matches!(run(0xfe, &mut frame_with(&[])), Err(EVMError::Revert)));
    assert!(matches!(run(0x00, &mut frame_with(&[])), Err(EVMError::Stop)));
    assert!(matches!(run(0x0c, &mut frame_with(&[])), Err(EVMError::InvalidOpcode(0x0c))));
    let mut ctx = frame_with(&[4]);
    for op in [0x5bu8, 0xf0, 0xf1, 0xf2, 0xf4, 0xf5, 0xfa, 0xff] {
        assert!(run(op, &mut ctx).is_ok());
    }
    assert_eq!(ctx.stack.stack, vec![w(4)]);
}

#[test]
fn jump_handlers() {
    let mut ctx = frame_with(&[2]);
    ctx.code = vec![0x00, 0x00, 0x5b];
    assert!(run(0x56, &mut ctx).is_ok());
    assert_eq!(ctx.pc, 2);
    assert_eq!(ctx.stack.len(), 0);
    let mut ctx = frame_with(&[1]);
    ctx.code = vec![0x00, 0x00, 0x5b];
    assert!(matches!(run(0x56, &mut ctx), Err(EVMError::InvalidJumpDestination)));
    assert_eq!(ctx.pc, 1);
    let mut ctx = frame_with(&[0, 1]);
    ctx.code = vec![0x00, 0x00, 0x5b];
    assert!(run(0x57, &mut ctx).is_ok());
    assert_eq!(ctx.pc, 0);
    assert_eq!(ctx.stack.len(), 0);
}
