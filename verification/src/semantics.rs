//! What each instruction does to a frame and to the world state, as a
//! function from the state before to the state after.  The handlers are
//! proved against these functions, and the interpreter is proved to
//! compose them.

use vstd::prelude::*;
use crate::word::{
    Word, word_of, word_of_bool, spec_u256_to_usize, spec_u256_to_address, spec_address_to_word,
};
use crate::arith::{
    spec_add, spec_sub, spec_mul, spec_div, spec_rem, spec_add_mod, spec_mul_mod, spec_exp,
    spec_shl, spec_shr, spec_sar, spec_byte, spec_sign_extend, spec_and, spec_or, spec_xor,
    spec_not,
};
use crate::i256::{spec_sdiv, spec_smod, spec_slt};
use crate::primitives::{be_nat, keccak256_of};
use crate::stack::STACK_LIMIT;
use crate::mem::{MEMORY_LIMIT, grown, spec_write, spec_read, padded, word_bytes, max_of};
use crate::context::{FrameModel, BlockContext};
use crate::state::StateModel;
use crate::error::EVMError;
use crate::opcode::{
    STOP, ADD, MUL, SUB, DIV, SDIV, MOD, SMOD, ADDMOD, MULMOD, EXP, SIGNEXTEND, LT, GT, SLT, SGT,
    EQ, ISZERO, AND, OR, XOR, NOT, BYTE, SHL, SHR, SAR, KECCAK256, ADDRESS, BALANCE, ORIGIN, CALLER,
    CALLVALUE, CALLDATALOAD, CALLDATASIZE, CALLDATACOPY, CODESIZE, CODECOPY, GASPRICE, EXTCODESIZE,
    EXTCODECOPY, RETURNDATASIZE, RETURNDATACOPY, EXTCODEHASH, BLOCKHASH, COINBASE, TIMESTAMP,
    NUMBER, DIFFICULTY, GASLIMIT, CHAINID, SELFBALANCE, BASEFEE, BLOBHASH, BLOBHASHFEE, POP, MLOAD,
    MSTORE, MSTORE8, SLOAD, SSTORE, JUMP, JUMPI, PC, MSIZE, GAS, JUMPDEST, TLOAD, TSTORE, MCOPY,
    PUSH0, PUSH32, DUP1, DUP16, SWAP1, SWAP16, LOG0, LOG4, CREATE, CALL, CALLCODE, RETURN,
    DELEGATECALL, CREATE2, STATICCALL, REVERT, INVALID, SELFDESTRUCT,
};

verus! {

/// The frame and the world state after an instruction, and how it ended.
pub struct Outcome {
    pub frame: FrameModel,
    pub state: StateModel,
    pub result: Result<(), EVMError>,
}

/// The instruction went through.
pub open spec fn done(frame: FrameModel, state: StateModel) -> Outcome {
    Outcome { frame, state, result: Ok(()) }
}

/// The instruction ended with `error`.
pub open spec fn ended(frame: FrameModel, state: StateModel, error: EVMError) -> Outcome {
    Outcome { frame, state, result: Err(error) }
}

/// Pops `n` operands, at least one, and pushes `w`.
pub open spec fn compute(f: FrameModel, s: StateModel, n: int, w: Word) -> Outcome {
    if f.stack.len() < n {
        ended(f, s, EVMError::StackUnderflow)
    } else {
        done(f.replace_top(n, w), s)
    }
}

/// Pushes `w`.
pub open spec fn produce(f: FrameModel, s: StateModel, w: Word) -> Outcome {
    if f.stack.len() >= STACK_LIMIT {
        ended(f, s, EVMError::StackOverflow)
    } else {
        done(f.push(w), s)
    }
}

/// Whether the span of `size` bytes from `offset` on is within the limit of
/// the memory.
pub open spec fn span_ok(offset: nat, size: nat) -> bool {
    offset + size <= MEMORY_LIMIT
}

/// Whether `size` bytes can be read from `offset` on.  Nothing is touched
/// when `size` is 0.
pub open spec fn read_ok(offset: nat, size: nat) -> bool {
    size == 0 || span_ok(offset, size)
}

/// The memory after `size` bytes were read from `offset` on.
pub open spec fn after_read(m: Seq<u8>, offset: nat, size: nat) -> Seq<u8> {
    if size == 0 {
        m
    } else {
        grown(m, (offset + size) as int)
    }
}

/// The bytes of `source` from `start` on; none where `start` is past the
/// end.
pub open spec fn tail(source: Seq<u8>, start: nat) -> Seq<u8> {
    if start >= source.len() {
        Seq::empty()
    } else {
        source.skip(start as int)
    }
}

/// Pops `n` operands and copies `len` bytes of `source`, from `src` on and
/// followed by zeros where the source ends, to the memory at `dst`.
pub open spec fn copy_in(
    f: FrameModel,
    s: StateModel,
    n: int,
    dst: Word,
    src: Word,
    len: Word,
    source: Seq<u8>,
) -> Outcome {
    if f.stack.len() < n {
        ended(f, s, EVMError::StackUnderflow)
    } else if !span_ok(dst@, len@) {
        ended(f, s, EVMError::MemoryLimit)
    } else {
        done(
            f.drop(n).with_memory(spec_write(f.memory, dst@ as int, padded(tail(source, src@), len@))),
            s,
        )
    }
}

/// A jump to `target`: the program counter is set to the target, which
/// must hold a `JUMPDEST`.
pub open spec fn jump_to(f: FrameModel, s: StateModel, target: Word) -> Outcome {
    let pc = spec_u256_to_usize(target);
    let g = FrameModel { pc, ..f };
    if pc < f.code.len() && f.code[pc as int] == JUMPDEST {
        done(g, s)
    } else {
        ended(g, s, EVMError::InvalidJumpDestination)
    }
}

/// Pops offset and size, keeps the bytes of that span as return data, and
/// ends the frame with `status`.
pub open spec fn finish(f: FrameModel, s: StateModel, status: EVMError) -> Outcome {
    let offset = f.operand(0)@;
    let size = f.operand(1)@;
    if f.stack.len() < 2 {
        ended(f, s, EVMError::StackUnderflow)
    } else if !read_ok(offset, size) {
        ended(f, s, EVMError::MemoryLimit)
    } else {
        ended(
            FrameModel {
                memory: after_read(f.memory, offset, size),
                return_data: spec_read(f.memory, offset as int, size as int),
                ..f.drop(2)
            },
            s,
            status,
        )
    }
}

/// The arithmetic instructions, `ADD` to `SIGNEXTEND`.
pub open spec fn spec_arithmetic(op: u8, f: FrameModel, s: StateModel) -> Outcome {
    let a = f.operand(0);
    let b = f.operand(1);
    let c = f.operand(2);
    if op == ADD {
        compute(f, s, 2, spec_add(a, b))
    } else if op == MUL {
        compute(f, s, 2, spec_mul(a, b))
    } else if op == SUB {
        compute(f, s, 2, spec_sub(a, b))
    } else if op == DIV {
        compute(f, s, 2, spec_div(a, b))
    } else if op == SDIV {
        compute(f, s, 2, spec_sdiv(a, b))
    } else if op == MOD {
        compute(f, s, 2, spec_rem(a, b))
    } else if op == SMOD {
        compute(f, s, 2, spec_smod(a, b))
    } else if op == ADDMOD {
        compute(f, s, 3, spec_add_mod(a, b, c))
    } else if op == MULMOD {
        compute(f, s, 3, spec_mul_mod(a, b, c))
    } else if op == EXP {
        compute(f, s, 2, spec_exp(a, b))
    } else {
        compute(f, s, 2, spec_sign_extend(a, b))
    }
}

/// The comparisons and the bitwise instructions, `LT` to `SAR`.
pub open spec fn spec_logic(op: u8, f: FrameModel, s: StateModel) -> Outcome {
    let a = f.operand(0);
    let b = f.operand(1);
    if op == LT {
        compute(f, s, 2, word_of_bool(a@ < b@))
    } else if op == GT {
        compute(f, s, 2, word_of_bool(a@ > b@))
    } else if op == SLT {
        compute(f, s, 2, word_of_bool(spec_slt(a, b)))
    } else if op == SGT {
        compute(f, s, 2, word_of_bool(spec_slt(b, a)))
    } else if op == EQ {
        compute(f, s, 2, word_of_bool(a == b))
    } else if op == ISZERO {
        compute(f, s, 1, word_of_bool(a@ == 0))
    } else if op == AND {
        compute(f, s, 2, spec_and(a, b))
    } else if op == OR {
        compute(f, s, 2, spec_or(a, b))
    } else if op == XOR {
        compute(f, s, 2, spec_xor(a, b))
    } else if op == NOT {
        compute(f, s, 1, spec_not(a))
    } else if op == BYTE {
        compute(f, s, 2, spec_byte(a, b))
    } else if op == SHL {
        compute(f, s, 2, spec_shl(a, b))
    } else if op == SHR {
        compute(f, s, 2, spec_shr(a, b))
    } else {
        compute(f, s, 2, spec_sar(a, b))
    }
}

/// `KECCAK256`: pops offset and size and pushes the digest of that span of
/// the memory, or 0 for an empty span.
pub open spec fn spec_keccak256(f: FrameModel, s: StateModel) -> Outcome {
    let offset = f.operand(0)@;
    let size = f.operand(1)@;
    if f.stack.len() < 2 {
        ended(f, s, EVMError::StackUnderflow)
    } else if size == 0 {
        done(f.replace_top(2, word_of(0)), s)
    } else if !span_ok(offset, size) {
        ended(f, s, EVMError::MemoryLimit)
    } else {
        done(
            f.replace_top(
                2,
                word_of(keccak256_of(spec_read(f.memory, offset as int, size as int))),
            ).with_memory(grown(f.memory, (offset + size) as int)),
            s,
        )
    }
}

/// The instructions that read the frame and the accounts, `ADDRESS` to
/// `EXTCODEHASH`.
pub open spec fn spec_environment(op: u8, f: FrameModel, s: StateModel, b: BlockContext) -> Outcome {
    let a = f.operand(0);
    if op == ADDRESS {
        produce(f, s, spec_address_to_word(f.contract))
    } else if op == BALANCE {
        compute(f, s, 1, s.get_balance(spec_u256_to_address(a)))
    } else if op == ORIGIN {
        produce(f, s, spec_address_to_word(f.origin))
    } else if op == CALLER {
        produce(f, s, spec_address_to_word(f.caller))
    } else if op == CALLVALUE {
        produce(f, s, f.value)
    } else if op == CALLDATALOAD {
        compute(f, s, 1, word_of(be_nat(padded(tail(f.call_data, a@), 32))))
    } else if op == CALLDATASIZE {
        produce(f, s, word_of(f.call_data.len()))
    } else if op == CALLDATACOPY {
        copy_in(f, s, 3, a, f.operand(1), f.operand(2), f.call_data)
    } else if op == CODESIZE {
        produce(f, s, word_of(f.code.len()))
    } else if op == CODECOPY {
        copy_in(f, s, 3, a, f.operand(1), f.operand(2), f.code)
    } else if op == GASPRICE {
        produce(f, s, b.gas_price)
    } else if op == EXTCODESIZE {
        compute(f, s, 1, word_of(s.get_code(spec_u256_to_address(a)).len()))
    } else if op == EXTCODECOPY {
        copy_in(
            f,
            s,
            4,
            f.operand(1),
            f.operand(2),
            f.operand(3),
            s.get_code(spec_u256_to_address(a)),
        )
    } else if op == RETURNDATASIZE {
        produce(f, s, word_of(f.return_data.len()))
    } else if op == RETURNDATACOPY {
        copy_in(f, s, 3, a, f.operand(1), f.operand(2), f.return_data)
    } else {
        compute(f, s, 1, s.get_code_hash(spec_u256_to_address(a)))
    }
}

/// The instructions that read the block, `BLOCKHASH` to `BLOBHASHFEE`.
pub open spec fn spec_block(op: u8, f: FrameModel, s: StateModel, b: BlockContext) -> Outcome {
    if op == BLOCKHASH {
        compute(f, s, 1, word_of(0))
    } else if op == COINBASE {
        produce(f, s, b.block_coinbase)
    } else if op == TIMESTAMP {
        produce(f, s, b.block_timestamp)
    } else if op == NUMBER {
        produce(f, s, b.block_number)
    } else if op == DIFFICULTY {
        produce(f, s, b.block_difficulty)
    } else if op == GASLIMIT {
        produce(f, s, b.block_gas_limit)
    } else if op == CHAINID {
        produce(f, s, b.chain_id)
    } else if op == SELFBALANCE {
        produce(f, s, s.get_balance(f.contract))
    } else if op == BASEFEE {
        produce(f, s, b.base_fee)
    } else if op == BLOBHASH {
        produce(f, s, b.blob_hash)
    } else {
        produce(f, s, b.block_hash_fee)
    }
}

/// The instructions on memory, storage and control flow, `POP` to `PUSH0`.
pub open spec fn spec_memory_flow(op: u8, f: FrameModel, s: StateModel) -> Outcome {
    let a = f.operand(0);
    let b = f.operand(1);
    let c = f.operand(2);
    if op == POP {
        if f.stack.len() < 1 {
            ended(f, s, EVMError::StackUnderflow)
        } else {
            done(f.drop(1), s)
        }
    } else if op == MLOAD {
        if f.stack.len() < 1 {
            ended(f, s, EVMError::StackUnderflow)
        } else if !span_ok(a@, 32) {
            ended(f, s, EVMError::MemoryLimit)
        } else {
            done(
                f.replace_top(1, word_of(be_nat(spec_read(f.memory, a@ as int, 32)))).with_memory(
                    grown(f.memory, (a@ + 32) as int),
                ),
                s,
            )
        }
    } else if op == MSTORE {
        if f.stack.len() < 2 {
            ended(f, s, EVMError::StackUnderflow)
        } else if !span_ok(a@, 32) {
            ended(f, s, EVMError::MemoryLimit)
        } else {
            done(f.drop(2).with_memory(spec_write(f.memory, a@ as int, word_bytes(b))), s)
        }
    } else if op == MSTORE8 {
        if f.stack.len() < 2 {
            ended(f, s, EVMError::StackUnderflow)
        } else if !span_ok(a@, 1) {
            ended(f, s, EVMError::MemoryLimit)
        } else {
            done(f.drop(2).with_memory(spec_write(f.memory, a@ as int, seq![(b@ % 256) as u8])), s)
        }
    } else if op == SLOAD {
        compute(f, s, 1, s.get_state(f.contract, a))
    } else if op == SSTORE {
        if f.stack.len() < 2 {
            ended(f, s, EVMError::StackUnderflow)
        } else {
            done(f.drop(2), s.set_state(f.contract, a, b))
        }
    } else if op == JUMP {
        if f.stack.len() < 1 {
            ended(f, s, EVMError::StackUnderflow)
        } else {
            jump_to(f.drop(1), s, a)
        }
    } else if op == JUMPI {
        if f.stack.len() < 2 {
            ended(f, s, EVMError::StackUnderflow)
        } else if b@ != 0 {
            jump_to(f.drop(2), s, a)
        } else {
            done(f.drop(2), s)
        }
    } else if op == PC {
        produce(f, s, word_of(f.pc as nat))
    } else if op == MSIZE {
        produce(f, s, word_of(f.memory.len()))
    } else if op == GAS {
        produce(f, s, word_of(0))
    } else if op == JUMPDEST {
        done(f, s)
    } else if op == TLOAD {
        compute(f, s, 1, s.get_transition_state(f.contract, a))
    } else if op == TSTORE {
        if f.stack.len() < 2 {
            ended(f, s, EVMError::StackUnderflow)
        } else {
            done(f.drop(2), s.set_transition_state(f.contract, a, b))
        }
    } else if op == MCOPY {
        if f.stack.len() < 3 {
            ended(f, s, EVMError::StackUnderflow)
        } else if !span_ok(a@, c@) || !span_ok(b@, c@) {
            ended(f, s, EVMError::MemoryLimit)
        } else {
            let g = grown(f.memory, max_of(b@ as int, a@ as int) + c@);
            done(
                f.drop(3).with_memory(spec_write(g, a@ as int, spec_read(g, b@ as int, c@ as int))),
                s,
            )
        }
    } else {
        produce(f, s, word_of(0))
    }
}

/// `PUSHk`: pushes the `k` bytes that follow the opcode in the code, read
/// as a number, most significant byte first.
pub open spec fn spec_push(k: int, f: FrameModel, s: StateModel) -> Outcome {
    if f.stack.len() >= STACK_LIMIT {
        ended(f, s, EVMError::StackOverflow)
    } else if f.pc + 1 + k > f.code.len() {
        ended(f, s, EVMError::CodeOutOfBounds)
    } else {
        done(f.push(word_of(be_nat(f.code.subrange(f.pc + 1, f.pc + 1 + k)))), s)
    }
}

/// `DUPn`: pushes a copy of the `n`-th word from the top.
pub open spec fn spec_dup_op(n: int, f: FrameModel, s: StateModel) -> Outcome {
    if f.stack.len() < n {
        ended(f, s, EVMError::StackUnderflow)
    } else if f.stack.len() >= STACK_LIMIT {
        ended(f, s, EVMError::StackOverflow)
    } else {
        done(FrameModel { stack: crate::stack::spec_dup(f.stack, n), ..f }, s)
    }
}

/// `SWAPn`: exchanges the top word with the `(n + 1)`-th word from the top.
pub open spec fn spec_swap_op(n: int, f: FrameModel, s: StateModel) -> Outcome {
    if f.stack.len() < n + 1 {
        ended(f, s, EVMError::StackUnderflow)
    } else {
        done(FrameModel { stack: crate::stack::spec_swap(f.stack, n), ..f }, s)
    }
}

/// `LOGn`: pops offset and size and then `n` topics, and appends a log
/// entry of the frame's contract with those topics and that span of the
/// memory.
pub open spec fn spec_log(n: int, f: FrameModel, s: StateModel) -> Outcome {
    let offset = f.operand(0)@;
    let size = f.operand(1)@;
    if f.stack.len() < 2 + n {
        ended(f, s, EVMError::StackUnderflow)
    } else if !read_ok(offset, size) {
        ended(f, s, EVMError::MemoryLimit)
    } else {
        done(
            f.drop(2 + n).with_memory(after_read(f.memory, offset, size)),
            s.add_log(
                f.contract,
                Seq::new(n as nat, |i: int| f.operand(2 + i)),
                spec_read(f.memory, offset as int, size as int),
            ),
        )
    }
}

/// Whether a byte is an opcode.
pub open spec fn is_opcode(op: u8) -> bool {
    ||| op <= SIGNEXTEND
    ||| LT <= op <= SAR
    ||| op == KECCAK256
    ||| ADDRESS <= op <= BLOBHASHFEE
    ||| POP <= op <= LOG4
    ||| op == CREATE
    ||| op == CALL
    ||| op == CALLCODE
    ||| op == RETURN
    ||| op == DELEGATECALL
    ||| op == CREATE2
    ||| op == STATICCALL
    ||| op == REVERT
    ||| op == INVALID
    ||| op == SELFDESTRUCT
}

/// Whether an opcode starts a nested call or a contract creation.  These
/// are run by the interpreter, not by a handler.
pub open spec fn is_call_opcode(op: u8) -> bool {
    ||| op == CREATE
    ||| op == CALL
    ||| op == CALLCODE
    ||| op == DELEGATECALL
    ||| op == CREATE2
    ||| op == STATICCALL
}

/// What the handler of an opcode does.  The opcodes that start a nested
/// call, and `SELFDESTRUCT`, have a handler that does nothing.
pub open spec fn spec_instruction(op: u8, f: FrameModel, s: StateModel, b: BlockContext) -> Outcome {
    if !is_opcode(op) {
        ended(f, s, EVMError::InvalidOpcode(op))
    } else if op == STOP {
        ended(f, s, EVMError::Stop)
    } else if op <= SIGNEXTEND {
        spec_arithmetic(op, f, s)
    } else if op <= SAR {
        spec_logic(op, f, s)
    } else if op == KECCAK256 {
        spec_keccak256(f, s)
    } else if op <= EXTCODEHASH {
        spec_environment(op, f, s, b)
    } else if op <= BLOBHASHFEE {
        spec_block(op, f, s, b)
    } else if op <= PUSH0 {
        spec_memory_flow(op, f, s)
    } else if op <= PUSH32 {
        spec_push(op - PUSH0, f, s)
    } else if op <= DUP16 {
        spec_dup_op(op - DUP1 + 1, f, s)
    } else if op <= SWAP16 {
        spec_swap_op(op - SWAP1 + 1, f, s)
    } else if op <= LOG4 {
        spec_log(op - LOG0, f, s)
    } else if op == RETURN {
        finish(f, s, EVMError::Stop)
    } else if op == REVERT {
        finish(f, s, EVMError::Revert)
    } else if op == INVALID {
        ended(f, s, EVMError::Revert)
    } else {
        done(f, s)
    }
}

} // verus!
