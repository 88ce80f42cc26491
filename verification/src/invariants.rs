//! What holds of every run: a frame keeps its identity, the budget of steps
//! never grows, and the committed layer of the world state never loses an
//! entry.

use vstd::prelude::*;
use crate::word::{Word, Address};
use crate::context::{FrameModel, BlockContext};
use crate::state::StateModel;
use crate::error::EVMError;
use crate::semantics::spec_instruction;
use crate::vm::{
    MachineModel, Run, spec_run, spec_step, spec_call, spec_call_without_value, spec_create,
    spec_create_at, start_step, next_pc, finish_call,
};
use crate::opcode::{CALL, CALLCODE, DELEGATECALL, STATICCALL, CREATE, CREATE2};

verus! {

/// The parts of a frame that are bound when the frame is made: the code,
/// the call data, the value, the participants and the depth.
pub open spec fn same_identity(f: FrameModel, g: FrameModel) -> bool {
    &&& g.code == f.code
    &&& g.call_data == f.call_data
    &&& g.value == f.value
    &&& g.caller == f.caller
    &&& g.origin == f.origin
    &&& g.contract == f.contract
    &&& g.depth == f.depth
}

/// Every entry of the committed layer of `s` is an entry of the committed
/// layer of `t`.
pub open spec fn committed_kept(s: StateModel, t: StateModel) -> bool {
    &&& s.objects.dom().subset_of(t.objects.dom())
    &&& s.storage.dom().subset_of(t.storage.dom())
}

/// What a machine keeps through any run: the budget of steps does not
/// grow, tracing stays as it is, and the committed layer loses no entry.
pub open spec fn machine_kept(m: MachineModel, n: MachineModel) -> bool {
    &&& n.steps <= m.steps
    &&& n.tracing == m.tracing
    &&& committed_kept(m.state, n.state)
}

/// No operation of the world state removes an entry from the committed
/// layer.
pub proof fn lemma_state_operations_keep_committed(
    s: StateModel,
    a: Address,
    b: Address,
    k: Word,
    v: Word,
    n: u64,
    code: Seq<u8>,
    topics: Seq<Word>,
)
    ensures
        committed_kept(s, s.create_object(a)),
        committed_kept(s, s.create_contract(a, code)),
        committed_kept(s, s.set_code(a, code)),
        committed_kept(s, s.sub_balance(a, v)),
        committed_kept(s, s.add_balance(a, v)),
        committed_kept(s, s.transfer(a, b, v)),
        committed_kept(s, s.set_nonce(a, n)),
        committed_kept(s, s.set_state(a, k, v)),
        committed_kept(s, s.set_transition_state(a, k, v)),
        committed_kept(s, s.prepare()),
        committed_kept(s, s.commit()),
        committed_kept(s, s.add_log(a, topics, code)),
{
    lemma_transfer_keeps(s, a, b, v);
}

/// A transfer keeps the committed layer.
proof fn lemma_transfer_keeps(s: StateModel, from: Address, to: Address, value: Word)
    ensures
        committed_kept(s, s.transfer(from, to, value)),
{
    let t = s.sub_balance(from, value);
    assert(committed_kept(s, t));
    assert(committed_kept(t, t.add_balance(to, value)));
}

/// A transfer, where it is made, keeps the committed layer.
proof fn lemma_payment_keeps(s: StateModel, from: Address, to: Address, value: Word)
    ensures
        committed_kept(
            s,
            if value@ != 0 {
                s.transfer(from, to, value)
            } else {
                s
            },
        ),
{
    lemma_transfer_keeps(s, from, to, value);
}

/// `prepare` and `commit` keep the committed layer.
proof fn lemma_prepare_commit_keep(s: StateModel)
    ensures
        committed_kept(s, s.prepare()),
        committed_kept(s, s.commit()),
{
}

/// `set_code` keeps the committed layer.
proof fn lemma_set_code_keeps(s: StateModel, a: Address, code: Seq<u8>)
    ensures
        committed_kept(s, s.set_code(a, code)),
{
}

/// Splicing the outcome of a child into its parent keeps the identity of
/// the parent and what the machine of the child keeps.
proof fn lemma_finish_call_keeps(g: FrameModel, child: Run, ret_offset: nat, ret_size: nat, commit: bool)
    ensures
        same_identity(g, finish_call(g, child, ret_offset, ret_size, commit).frame),
        machine_kept(child.machine, finish_call(g, child, ret_offset, ret_size, commit).machine),
{
    lemma_prepare_commit_keep(child.machine.state);
}

/// `machine_kept` chains.
proof fn lemma_machine_kept_chain(m: MachineModel, n: MachineModel, o: MachineModel)
    requires
        machine_kept(m, n),
        machine_kept(n, o),
    ensures
        machine_kept(m, o),
{
}

/// A handler keeps the identity of the frame and the committed layer.
pub proof fn lemma_instruction_keeps(op: u8, f: FrameModel, s: StateModel, b: BlockContext)
    ensures
        same_identity(f, spec_instruction(op, f, s, b).frame),
        committed_kept(s, spec_instruction(op, f, s, b).state),
{
    lemma_state_operations_keep_committed(
        s,
        f.contract,
        f.contract,
        f.operand(0),
        f.operand(1),
        0,
        Seq::empty(),
        Seq::empty(),
    );
}

/// A run keeps the identity of the frame, and the machine keeps what a
/// machine keeps.
pub proof fn lemma_run_keeps(f: FrameModel, m: MachineModel, b: BlockContext)
    ensures
        same_identity(f, spec_run(f, m, b).frame),
        machine_kept(m, spec_run(f, m, b).machine),
    decreases m.steps, 0nat,
{
    if f.pc < f.code.len() && m.steps > 0 {
        let op = f.code[f.pc as int];
        let r = spec_step(op, f, start_step(f, m, op), b);
        lemma_step_keeps(op, f, start_step(f, m, op), b);
        if r.result is Ok && r.machine.steps < m.steps {
            let g = FrameModel { pc: next_pc(r.frame.pc, op), ..r.frame };
            lemma_run_keeps(g, r.machine, b);
        }
    }
}

/// One instruction keeps the identity of the frame, and the machine keeps
/// what a machine keeps.
pub proof fn lemma_step_keeps(op: u8, f: FrameModel, m: MachineModel, b: BlockContext)
    ensures
        same_identity(f, spec_step(op, f, m, b).frame),
        machine_kept(m, spec_step(op, f, m, b).machine),
    decreases m.steps, 3nat,
{
    if op == CALL {
        lemma_call_keeps(f, m, b);
    } else if op == CALLCODE || op == DELEGATECALL || op == STATICCALL {
        lemma_call_without_value_keeps(op, f, m, b);
    } else if op == CREATE || op == CREATE2 {
        lemma_create_keeps(op, f, m, b);
    } else {
        lemma_instruction_keeps(op, f, m.state, b);
    }
}

proof fn lemma_call_keeps(f: FrameModel, m: MachineModel, b: BlockContext)
    ensures
        same_identity(f, spec_call(f, m, b).frame),
        machine_kept(m, spec_call(f, m, b).machine),
    decreases m.steps, 1nat,
{
    let s = m.state;
    let to = crate::word::spec_u256_to_address(f.operand(1));
    let value = f.operand(2);
    let args_offset = f.operand(3)@;
    let args_size = f.operand(4)@;
    let paid = if value@ != 0 {
        s.transfer(f.caller, to, value)
    } else {
        s
    };
    lemma_payment_keeps(s, f.caller, to, value);
    lemma_prepare_commit_keep(paid);
    let start = m.with_state(paid.prepare());
    assert(machine_kept(m, start));
    let g = f.drop(7).with_memory(crate::semantics::after_read(f.memory, args_offset, args_size));
    let data = crate::mem::spec_read(f.memory, args_offset as int, args_size as int);
    let child = crate::vm::child_frame(to, f.origin, s.get_code(to), data, value, (f.depth + 1) as usize);
    lemma_run_keeps(child, start, b);
    let r = spec_run(child, start, b);
    lemma_finish_call_keeps(g, r, f.operand(5)@, f.operand(6)@, true);
    let done = finish_call(g, r, f.operand(5)@, f.operand(6)@, true);
    lemma_machine_kept_chain(m, start, r.machine);
    lemma_machine_kept_chain(m, r.machine, done.machine);
}

proof fn lemma_call_without_value_keeps(op: u8, f: FrameModel, m: MachineModel, b: BlockContext)
    ensures
        same_identity(f, spec_call_without_value(op, f, m, b).frame),
        machine_kept(m, spec_call_without_value(op, f, m, b).machine),
    decreases m.steps, 1nat,
{
    let s = m.state;
    let to = crate::word::spec_u256_to_address(f.operand(1));
    let zero = crate::word::word_of(0);
    let args_offset = f.operand(2)@;
    let args_size = f.operand(3)@;
    lemma_prepare_commit_keep(s);
    let start = m.with_state(s.prepare());
    assert(machine_kept(m, start));
    let g = f.drop(6).with_memory(crate::semantics::after_read(f.memory, args_offset, args_size));
    let data = crate::mem::spec_read(f.memory, args_offset as int, args_size as int);
    let depth = (f.depth + 1) as usize;
    let child = if op == DELEGATECALL {
        crate::vm::child_frame(f.contract, f.caller, s.get_code(to), data, zero, depth)
    } else if op == CALLCODE {
        crate::vm::child_frame(f.contract, to, s.get_code(to), data, zero, depth)
    } else {
        crate::vm::child_frame(to, f.origin, s.get_code(to), data, zero, depth)
    };
    lemma_run_keeps(child, start, b);
    let r = spec_run(child, start, b);
    lemma_finish_call_keeps(g, r, f.operand(4)@, f.operand(5)@, op != STATICCALL);
    let done = finish_call(g, r, f.operand(4)@, f.operand(5)@, op != STATICCALL);
    lemma_machine_kept_chain(m, start, r.machine);
    lemma_machine_kept_chain(m, r.machine, done.machine);
}

proof fn lemma_create_at_keeps(
    g: FrameModel,
    m: MachineModel,
    b: BlockContext,
    address: Address,
    value: Word,
    code: Seq<u8>,
)
    ensures
        same_identity(g, spec_create_at(g, m, b, address, value, code).frame),
        machine_kept(m, spec_create_at(g, m, b, address, value, code).machine),
    decreases m.steps, 1nat,
{
    let s = m.state;
    let paid = if value@ != 0 {
        s.transfer(g.contract, address, value)
    } else {
        s
    };
    lemma_payment_keeps(s, g.contract, address, value);
    let start = m.with_state(paid);
    assert(machine_kept(m, start));
    let child = crate::vm::child_frame(
        address,
        g.caller,
        code,
        Seq::empty(),
        crate::word::word_of(0),
        (g.depth + 1) as usize,
    );
    lemma_run_keeps(child, start, b);
    let r = spec_run(child, start, b);
    lemma_set_code_keeps(r.machine.state, address, r.frame.return_data);
    let installed = r.machine.with_state(r.machine.state.set_code(address, r.frame.return_data));
    assert(machine_kept(r.machine, installed));
    lemma_machine_kept_chain(m, start, r.machine);
    lemma_machine_kept_chain(m, r.machine, installed);
}

proof fn lemma_create_keeps(op: u8, f: FrameModel, m: MachineModel, b: BlockContext)
    ensures
        same_identity(f, spec_create(op, f, m, b).frame),
        machine_kept(m, spec_create(op, f, m, b).machine),
    decreases m.steps, 2nat,
{
    let n: int = if op == CREATE {
        3
    } else {
        4
    };
    let offset = f.operand(1)@;
    let size = f.operand(2)@;
    let g = f.drop(n).with_memory(crate::semantics::after_read(f.memory, offset, size));
    let code = crate::mem::spec_read(f.memory, offset as int, size as int);
    let address = if op == CREATE {
        crate::state::spec_create_address(f.caller, m.state.get_nonce(f.caller))
    } else {
        crate::word::address_of(
            crate::primitives::create2_address_of(
                f.caller@,
                f.operand(3)@,
                crate::primitives::keccak256_of(code),
            ),
        )
    };
    lemma_create_at_keeps(g, m, b, address, f.operand(0), code);
}

/// The machine with `extra` more steps in its budget.
pub open spec fn with_extra(m: MachineModel, extra: nat) -> MachineModel {
    MachineModel { steps: m.steps + extra, ..m }
}

/// The outcome with `extra` more steps left in the budget.
pub open spec fn lifted(r: Run, extra: nat) -> Run {
    Run { machine: with_extra(r.machine, extra), ..r }
}

/// Whether a run or a step ended because the budget of steps was used up.
pub open spec fn out_of_steps(r: Run) -> bool {
    r.result == Err::<(), EVMError>(EVMError::StepLimit)
}

/// The budget of steps decides nothing but whether a run is cut short: a
/// run that does not end with `StepLimit` ends in the same way with any
/// larger budget, and leaves as many more steps as it was given.
pub proof fn lemma_budget_is_neutral(f: FrameModel, m: MachineModel, b: BlockContext, extra: nat)
    requires
        !out_of_steps(spec_run(f, m, b)),
    ensures
        spec_run(f, with_extra(m, extra), b) == lifted(spec_run(f, m, b), extra),
    decreases m.steps, 0nat,
{
    if f.pc < f.code.len() {
        assert(m.steps > 0);
        let op = f.code[f.pc as int];
        let m1 = start_step(f, m, op);
        assert(start_step(f, with_extra(m, extra), op) == with_extra(m1, extra));
        let r = spec_step(op, f, m1, b);
        lemma_step_keeps(op, f, m1, b);
        lemma_step_budget_is_neutral(op, f, m1, b, extra);
        if r.result is Ok {
            let g = FrameModel { pc: next_pc(r.frame.pc, op), ..r.frame };
            lemma_budget_is_neutral(g, r.machine, b, extra);
        }
    }
}

/// One instruction that does not end with `StepLimit` ends in the same way
/// with any larger budget.
pub proof fn lemma_step_budget_is_neutral(
    op: u8,
    f: FrameModel,
    m: MachineModel,
    b: BlockContext,
    extra: nat,
)
    requires
        !out_of_steps(spec_step(op, f, m, b)),
    ensures
        spec_step(op, f, with_extra(m, extra), b) == lifted(spec_step(op, f, m, b), extra),
    decreases m.steps, 3nat,
{
    if op == CALL {
        lemma_call_budget_is_neutral(f, m, b, extra);
    } else if op == CALLCODE || op == DELEGATECALL || op == STATICCALL {
        lemma_call_without_value_budget_is_neutral(op, f, m, b, extra);
    } else if op == CREATE || op == CREATE2 {
        lemma_create_budget_is_neutral(op, f, m, b, extra);
    }
}

proof fn lemma_call_budget_is_neutral(f: FrameModel, m: MachineModel, b: BlockContext, extra: nat)
    requires
        !out_of_steps(spec_call(f, m, b)),
    ensures
        spec_call(f, with_extra(m, extra), b) == lifted(spec_call(f, m, b), extra),
    decreases m.steps, 1nat,
{
    let s = m.state;
    let to = crate::word::spec_u256_to_address(f.operand(1));
    let value = f.operand(2);
    let args_offset = f.operand(3)@;
    let args_size = f.operand(4)@;
    let paid = if value@ != 0 {
        s.transfer(f.caller, to, value)
    } else {
        s
    };
    let start = m.with_state(paid.prepare());
    let data = crate::mem::spec_read(f.memory, args_offset as int, args_size as int);
    let child = crate::vm::child_frame(to, f.origin, s.get_code(to), data, value, (f.depth + 1) as usize);
    assert(with_extra(m, extra).with_state(paid.prepare()) == with_extra(start, extra));
    if f.stack.len() >= 7 && crate::semantics::read_ok(args_offset, args_size)
        && crate::semantics::span_ok(f.operand(5)@, f.operand(6)@) && f.depth < crate::vm::DEPTH_LIMIT
        && !(value@ != 0 && !s.can_debit(f.caller, value)) {
        lemma_budget_is_neutral(child, start, b, extra);
    }
}

proof fn lemma_call_without_value_budget_is_neutral(
    op: u8,
    f: FrameModel,
    m: MachineModel,
    b: BlockContext,
    extra: nat,
)
    requires
        !out_of_steps(spec_call_without_value(op, f, m, b)),
    ensures
        spec_call_without_value(op, f, with_extra(m, extra), b) == lifted(
            spec_call_without_value(op, f, m, b),
            extra,
        ),
    decreases m.steps, 1nat,
{
    let s = m.state;
    let to = crate::word::spec_u256_to_address(f.operand(1));
    let zero = crate::word::word_of(0);
    let args_offset = f.operand(2)@;
    let args_size = f.operand(3)@;
    let start = m.with_state(s.prepare());
    let data = crate::mem::spec_read(f.memory, args_offset as int, args_size as int);
    let depth = (f.depth + 1) as usize;
    let child = if op == DELEGATECALL {
        crate::vm::child_frame(f.contract, f.caller, s.get_code(to), data, zero, depth)
    } else if op == CALLCODE {
        crate::vm::child_frame(f.contract, to, s.get_code(to), data, zero, depth)
    } else {
        crate::vm::child_frame(to, f.origin, s.get_code(to), data, zero, depth)
    };
    assert(with_extra(m, extra).with_state(s.prepare()) == with_extra(start, extra));
    if f.stack.len() >= 6 && crate::semantics::read_ok(args_offset, args_size)
        && crate::semantics::span_ok(f.operand(4)@, f.operand(5)@) && f.depth < crate::vm::DEPTH_LIMIT {
        lemma_budget_is_neutral(child, start, b, extra);
    }
}

proof fn lemma_create_at_budget_is_neutral(
    g: FrameModel,
    m: MachineModel,
    b: BlockContext,
    address: Address,
    value: Word,
    code: Seq<u8>,
    extra: nat,
)
    requires
        !out_of_steps(spec_create_at(g, m, b, address, value, code)),
    ensures
        spec_create_at(g, with_extra(m, extra), b, address, value, code) == lifted(
            spec_create_at(g, m, b, address, value, code),
            extra,
        ),
    decreases m.steps, 1nat,
{
    let s = m.state;
    let paid = if value@ != 0 {
        s.transfer(g.contract, address, value)
    } else {
        s
    };
    let start = m.with_state(paid);
    let child = crate::vm::child_frame(
        address,
        g.caller,
        code,
        Seq::empty(),
        crate::word::word_of(0),
        (g.depth + 1) as usize,
    );
    assert(with_extra(m, extra).with_state(paid) == with_extra(start, extra));
    if !(value@ != 0 && !s.can_debit(g.contract, value)) {
        lemma_budget_is_neutral(child, start, b, extra);
    }
}

proof fn lemma_create_budget_is_neutral(
    op: u8,
    f: FrameModel,
    m: MachineModel,
    b: BlockContext,
    extra: nat,
)
    requires
        !out_of_steps(spec_create(op, f, m, b)),
    ensures
        spec_create(op, f, with_extra(m, extra), b) == lifted(spec_create(op, f, m, b), extra),
    decreases m.steps, 2nat,
{
    let n: int = if op == CREATE {
        3
    } else {
        4
    };
    let offset = f.operand(1)@;
    let size = f.operand(2)@;
    let g = f.drop(n).with_memory(crate::semantics::after_read(f.memory, offset, size));
    let code = crate::mem::spec_read(f.memory, offset as int, size as int);
    let address = if op == CREATE {
        crate::state::spec_create_address(f.caller, m.state.get_nonce(f.caller))
    } else {
        crate::word::address_of(
            crate::primitives::create2_address_of(
                f.caller@,
                f.operand(3)@,
                crate::primitives::keccak256_of(code),
            ),
        )
    };
    if f.stack.len() >= n && crate::semantics::read_ok(offset, size) && f.depth < crate::vm::DEPTH_LIMIT {
        lemma_create_at_budget_is_neutral(g, m, b, address, f.operand(0), code, extra);
    }
}

} // verus!
