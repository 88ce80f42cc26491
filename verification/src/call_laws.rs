//! A call worked through: a callee that stores the word 0x2a in its memory
//! and returns it, and what a `CALL` of that callee leaves in the parent.

use vstd::prelude::*;
use vstd::arithmetic::power2::{pow2, lemma2_to64, lemma_pow2_pos, lemma_pow2_strictly_increases};
use vstd::arithmetic::div_mod::lemma_fundamental_div_mod_converse;
use crate::word::{Word, word_of, spec_u256_to_address, lemma_view_word_of};
use crate::primitives::be_nat;
use crate::stack::{STACK_LIMIT, drop_top};
use crate::mem::{spec_read, spec_write, word_bytes, padded, grown, zeros};
use crate::context::{FrameModel, BlockContext};
use crate::error::EVMError;
use crate::semantics::{spec_instruction, span_ok};
use crate::vm::{
    MachineModel, Run, DEPTH_LIMIT, spec_run, spec_step, spec_call, start_step, next_pc,
    child_frame, lemma_call_starts_from_committed,
};
use crate::opcode::{PUSH1, MSTORE, RETURN};

verus! {

/// The code `PUSH1 0x2a, PUSH1 0, MSTORE, PUSH1 0x20, PUSH1 0, RETURN`.
pub open spec fn answer_code() -> Seq<u8> {
    seq![0x60u8, 0x2au8, 0x60u8, 0x00u8, 0x52u8, 0x60u8, 0x20u8, 0x60u8, 0x00u8, 0xf3u8]
}

/// The 32 bytes of the word 0x2a: 31 zero bytes and the byte 0x2a.
pub open spec fn answer_bytes() -> Seq<u8> {
    zeros(31).push(0x2au8)
}

/// The bytes of the word 0x2a are 31 zero bytes and the byte 0x2a.
pub proof fn lemma_answer_bytes()
    ensures
        word_bytes(word_of(0x2a)) == answer_bytes(),
{
    lemma_view_word_of(0x2a);
    lemma2_to64();
    assert forall|i: int| 0 <= i < 32 implies word_bytes(word_of(0x2a))[i] == answer_bytes()[i] by {
        let e = (8 * (31 - i)) as nat;
        if i < 31 {
            lemma_pow2_strictly_increases(8, e + 1);
            if e > 8 {
                lemma_pow2_strictly_increases(8, e);
            }
            lemma_pow2_pos(e);
            lemma_fundamental_div_mod_converse(0x2a, pow2(e) as int, 0, 0x2a);
        } else {
            assert(pow2(0) == 1);
            assert(0x2aint / 1 == 0x2a);
        }
    }
    assert(word_bytes(word_of(0x2a)) =~= answer_bytes());
}

/// A run goes on behind an instruction that went through.
proof fn lemma_run_goes_on(
    f: FrameModel,
    m: MachineModel,
    b: BlockContext,
    op: u8,
    g: FrameModel,
    next: FrameModel,
)
    requires
        f.pc < f.code.len(),
        f.code[f.pc as int] == op,
        op == PUSH1 || op == MSTORE,
        spec_instruction(op, f, m.state, b) == crate::semantics::done(g, m.state),
        next == (FrameModel { pc: next_pc(g.pc, op), ..g }),
        m.steps > 0,
    ensures
        spec_run(f, m, b) == spec_run(next, start_step(f, m, op), b),
{
    let r = spec_step(op, f, start_step(f, m, op), b);
    assert(r.frame == g);
    assert(r.machine == start_step(f, m, op));
    assert(r.result is Ok);
}

/// What the handler of `PUSH1` does.
proof fn lemma_push1(f: FrameModel, m: MachineModel, b: BlockContext)
    requires
        f.pc + 1 < f.code.len(),
        f.stack.len() < STACK_LIMIT,
    ensures
        spec_instruction(PUSH1, f, m.state, b) == crate::semantics::done(
            f.push(word_of(f.code[f.pc + 1] as nat)),
            m.state,
        ),
{
    let imm = f.code.subrange(f.pc + 1, f.pc + 2);
    assert(imm.drop_last() =~= Seq::<u8>::empty());
    assert(be_nat(imm.drop_last()) == 0);
    assert(be_nat(imm) == imm.last());
    assert(crate::semantics::spec_push(1, f, m.state) == crate::semantics::done(
        f.push(word_of(f.code[f.pc + 1] as nat)),
        m.state,
    ));
}

/// What the handler of `MSTORE` does.
proof fn lemma_mstore(f: FrameModel, m: MachineModel, b: BlockContext)
    requires
        f.stack.len() >= 2,
        span_ok(f.operand(0)@, 32),
    ensures
        spec_instruction(MSTORE, f, m.state, b) == crate::semantics::done(
            f.drop(2).with_memory(spec_write(f.memory, f.operand(0)@ as int, word_bytes(f.operand(1)))),
            m.state,
        ),
{
    assert(crate::semantics::spec_memory_flow(MSTORE, f, m.state) == crate::semantics::done(
        f.drop(2).with_memory(spec_write(f.memory, f.operand(0)@ as int, word_bytes(f.operand(1)))),
        m.state,
    ));
}

/// A `RETURN` ends a run normally with the span of the memory as return
/// data.
proof fn lemma_return_step(f: FrameModel, m: MachineModel, b: BlockContext)
    requires
        f.pc < f.code.len(),
        f.code[f.pc as int] == RETURN,
        f.stack.len() >= 2,
        f.operand(1)@ > 0,
        span_ok(f.operand(0)@, f.operand(1)@),
        m.steps > 0,
    ensures
        spec_run(f, m, b) == (Run {
            frame: FrameModel {
                stack: drop_top(f.stack, 2),
                memory: grown(f.memory, (f.operand(0)@ + f.operand(1)@) as int),
                return_data: spec_read(f.memory, f.operand(0)@ as int, f.operand(1)@ as int),
                ..f
            },
            machine: start_step(f, m, RETURN),
            result: Ok(()),
        }),
{
    let o = spec_instruction(RETURN, f, m.state, b);
    assert(o.result == Err::<(), EVMError>(EVMError::Stop));
    let r = spec_step(RETURN, f, start_step(f, m, RETURN), b);
    assert(r.frame == o.frame);
    assert(r.machine == start_step(f, m, RETURN));
}

/// A frame that starts the code with an empty stack and an empty memory
/// ends normally after six steps and returns the 32 bytes of the word
/// 0x2a.  The world state is as it was.
pub proof fn lemma_answer_code_returns(f: FrameModel, m: MachineModel, b: BlockContext)
    requires
        f.code == answer_code(),
        f.pc == 0,
        f.stack.len() == 0,
        f.memory.len() == 0,
        m.steps >= 6,
    ensures
        spec_run(f, m, b).result is Ok,
        spec_run(f, m, b).frame.return_data == answer_bytes(),
        spec_run(f, m, b).machine.state == m.state,
        spec_run(f, m, b).machine.steps == m.steps - 6,
{
    lemma_view_word_of(0);
    lemma_view_word_of(0x20);
    lemma_answer_bytes();
    let w42 = word_of(0x2a);
    let w0 = word_of(0);
    let w32 = word_of(0x20);
    lemma_push1(f, m, b);
    let f1 = FrameModel { stack: f.stack.push(w42), pc: 2, ..f };
    lemma_run_goes_on(f, m, b, PUSH1, f.push(w42), f1);
    let m1 = start_step(f, m, PUSH1);
    lemma_push1(f1, m1, b);
    let f2 = FrameModel { stack: f1.stack.push(w0), pc: 4, ..f1 };
    lemma_run_goes_on(f1, m1, b, PUSH1, f1.push(w0), f2);
    let m2 = start_step(f1, m1, PUSH1);
    assert(f2.operand(0) == w0);
    assert(f2.operand(1) == w42);
    lemma_mstore(f2, m2, b);
    let mem = spec_write(f.memory, 0, word_bytes(w42));
    assert(mem =~= answer_bytes());
    let f3 = FrameModel { stack: drop_top(f2.stack, 2), memory: mem, pc: 5, ..f2 };
    lemma_run_goes_on(f2, m2, b, MSTORE, f2.drop(2).with_memory(mem), f3);
    let m3 = start_step(f2, m2, MSTORE);
    assert(f3.stack =~= Seq::<Word>::empty());
    lemma_push1(f3, m3, b);
    let f4 = FrameModel { stack: f3.stack.push(w32), pc: 7, ..f3 };
    lemma_run_goes_on(f3, m3, b, PUSH1, f3.push(w32), f4);
    let m4 = start_step(f3, m3, PUSH1);
    lemma_push1(f4, m4, b);
    let f5 = FrameModel { stack: f4.stack.push(w0), pc: 9, ..f4 };
    lemma_run_goes_on(f4, m4, b, PUSH1, f4.push(w0), f5);
    let m5 = start_step(f4, m4, PUSH1);
    assert(f5.operand(0) == w0);
    assert(f5.operand(1) == w32);
    lemma_return_step(f5, m5, b);
    assert(spec_read(mem, 0, 32) =~= answer_bytes());
}

/// A `CALL` of an account that holds the code, with value 0, no arguments
/// and 32 bytes for the return data: the seven operands leave the stack and
/// 1 is pushed; the 32 bytes of the word 0x2a, 31 zero bytes and the byte
/// 0x2a, stand in the memory of the parent from the return offset on and
/// are its return data; the dirty layer was dropped before the child ran,
/// and the state was committed after it.
pub proof fn lemma_call_of_answer_code(f: FrameModel, m: MachineModel, b: BlockContext)
    requires
        f.stack.len() >= 7,
        f.operand(2)@ == 0,
        f.operand(4)@ == 0,
        f.operand(6)@ == 32,
        span_ok(f.operand(5)@, 32),
        f.depth < DEPTH_LIMIT,
        m.state.get_code(spec_u256_to_address(f.operand(1))) == answer_code(),
        m.steps >= 6,
    ensures
        spec_call(f, m, b).result is Ok,
        spec_call(f, m, b).frame.stack == drop_top(f.stack, 7).push(word_of(1)),
        spec_call(f, m, b).frame.memory == spec_write(
            f.memory,
            f.operand(5)@ as int,
            answer_bytes(),
        ),
        spec_call(f, m, b).frame.return_data == answer_bytes(),
        spec_call(f, m, b).machine.state == m.state.prepare().commit(),
        spec_call(f, m, b).machine.steps == m.steps - 6,
{
    lemma_call_starts_from_committed(f, m, b);
    let to = spec_u256_to_address(f.operand(1));
    let child = child_frame(
        to,
        f.origin,
        m.state.get_code(to),
        spec_read(f.memory, f.operand(3)@ as int, 0),
        f.operand(2),
        (f.depth + 1) as usize,
    );
    let start = m.with_state(m.state.prepare());
    lemma_answer_code_returns(child, start, b);
    let r = spec_run(child, start, b);
    assert(padded(answer_bytes(), 32) =~= answer_bytes());
}

} // verus!
