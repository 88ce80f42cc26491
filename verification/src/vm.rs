//! The interpreter: the fetch-and-dispatch loop and the instructions that
//! start a nested call or create a contract.
//!
//! [`spec_run`] says what running a frame does, as a function of the frame,
//! the world state and a budget of steps.  Every instruction takes one step
//! from the budget; a nested frame draws on the budget of its parent.

use vstd::prelude::*;
use crate::word::{
    Word, Address, word_of, word_of_bool, address_of, spec_u256_to_address, spec_address_to_word,
    u256_to_address, address_to_word, lemma_address_of_view,
};
use crate::primitives::{
    keccak256_of, create2_address_of, keccak256_word, address_create, address_create2, hex_encode,
    spec_hex_encode,
};
use crate::stack::STACK_LIMIT;
use crate::mem::{MEMORY_LIMIT, spec_read, spec_write, padded};
use crate::context::{Context, FrameModel, BlockContext, empty_frame};
use crate::state::{StateDB, StateModel, spec_create_address};
use crate::error::EVMError;
use crate::semantics::{spec_instruction, is_opcode, span_ok, read_ok, after_read};
use crate::instructions::{span, can_read, read_span};
use crate::opcode_table::{execute, opcode_name, spec_mnemonic};
use crate::invariants::{same_identity, machine_kept, lemma_run_keeps};
use crate::opcode::{
    PUSH1, PUSH32, CREATE, CALL, CALLCODE, DELEGATECALL, CREATE2, STATICCALL, get_opcode_size,
    spec_opcode_size, spec_immediate_size,
};

verus! {

/// The deepest that frames may nest.  The frame that a transaction starts
/// with is at depth 0.
pub const DEPTH_LIMIT: usize = 1024;

/// What an interpreter holds besides the frame that it runs.
pub struct MachineModel {
    /// The world state.
    pub state: StateModel,
    /// What is left of the budget of steps.
    pub steps: nat,
    /// Whether the instructions that run are written to the trace.
    pub tracing: bool,
    /// The trace: one line for each instruction, oldest first.
    pub trace: Seq<Seq<char>>,
}

impl MachineModel {
    /// The machine with another world state.
    pub open spec fn with_state(self, state: StateModel) -> MachineModel {
        MachineModel { state, ..self }
    }
}

/// The frame and the machine after a run or a step, and how it ended.
pub struct Run {
    pub frame: FrameModel,
    pub machine: MachineModel,
    pub result: Result<(), EVMError>,
}

/// `n` spaces.
pub open spec fn spaces(n: nat) -> Seq<char> {
    Seq::new(n, |i: int| ' ')
}

/// The immediate bytes of the instruction at the program counter, as far
/// as the code holds them.
pub open spec fn spec_immediates(f: FrameModel, op: u8) -> Seq<u8> {
    let start = f.pc + 1;
    let end = f.pc + 1 + spec_immediate_size(op);
    if start >= f.code.len() {
        Seq::empty()
    } else if end >= f.code.len() {
        f.code.subrange(start, f.code.len() as int)
    } else {
        f.code.subrange(start, end)
    }
}

/// The line of the trace for the instruction at the program counter: four
/// spaces for each level of depth, the mnemonic and, for a push, the
/// immediate bytes in hexadecimal behind ` 0x`.
pub open spec fn spec_trace_line(f: FrameModel, op: u8) -> Seq<char> {
    if spec_immediate_size(op) > 0 {
        spaces(4 * (f.depth as nat)) + spec_mnemonic(op) + " 0x"@ + spec_hex_encode(
            spec_immediates(f, op),
        )
    } else {
        spaces(4 * (f.depth as nat)) + spec_mnemonic(op)
    }
}

/// The program counter behind the instruction with opcode `op` at `pc`.
pub open spec fn next_pc(pc: usize, op: u8) -> usize {
    if pc + spec_opcode_size(op) > usize::MAX {
        usize::MAX
    } else {
        (pc + spec_opcode_size(op)) as usize
    }
}

/// The frame that a nested call or a creation starts with.
pub open spec fn child_frame(
    contract: Address,
    caller: Address,
    code: Seq<u8>,
    call_data: Seq<u8>,
    value: Word,
    depth: usize,
) -> FrameModel {
    FrameModel { contract, caller, code, call_data, value, depth, ..empty_frame() }
}

/// The step ended with `error` and changed nothing.
pub open spec fn refused(f: FrameModel, m: MachineModel, error: EVMError) -> Run {
    Run { frame: f, machine: m, result: Err(error) }
}

/// The return data that a parent sees of a child that ended with `result`:
/// that of the child after a normal end or a revert, none after any other
/// error.
pub open spec fn seen_return_data(child: FrameModel, result: Result<(), EVMError>) -> Seq<u8> {
    if result is Ok || result == Err::<(), EVMError>(EVMError::Revert) {
        child.return_data
    } else {
        Seq::empty()
    }
}

/// Whether a child ended with a fault of the machine.
pub open spec fn faulted(result: Result<(), EVMError>) -> bool {
    result is Err && result->Err_0.spec_is_fatal()
}

/// What a call instruction leaves behind once the child has run: 1 or 0 on
/// the stack of the parent `g`, the return data of the child in the memory
/// of the parent, cut off or filled up with zeros to `ret_size` bytes, and
/// the state committed if the child ended normally and `commit` is set.
/// A fault of the machine in the child ends the parent with the same
/// error.
pub open spec fn finish_call(
    g: FrameModel,
    child: Run,
    ret_offset: nat,
    ret_size: nat,
    commit: bool,
) -> Run {
    let ok = child.result is Ok;
    let data = seen_return_data(child.frame, child.result);
    if faulted(child.result) {
        Run { frame: g, machine: child.machine, result: child.result }
    } else {
        Run {
            frame: FrameModel {
                stack: g.stack.push(word_of_bool(ok)),
                memory: spec_write(g.memory, ret_offset as int, padded(data, ret_size)),
                return_data: data,
                ..g
            },
            machine: if ok && commit {
                child.machine.with_state(child.machine.state.commit())
            } else {
                child.machine
            },
            result: Ok(()),
        }
    }
}

/// `CALL`: pops gas, target, value, the span of the arguments and the span
/// for the return data.  The value is moved from the caller of the parent
/// to the target; if it cannot be paid, 0 is pushed and nothing is run.
/// Else the dirty layer is dropped, the code of the target runs in a child
/// frame, and the outcome is spliced into the parent.
///
/// The payment is a change of two accounts, so it is made in the dirty
/// layer, and it is dropped with the dirty layer before the child runs:
/// the child starts from the state as it was last committed, and what the
/// call commits is what the child did.  The value decides whether the call
/// runs, and the child sees it as the value of its frame.
pub open spec fn spec_call(f: FrameModel, m: MachineModel, b: BlockContext) -> Run
    decreases m.steps, 1nat,
{
    let to = spec_u256_to_address(f.operand(1));
    let value = f.operand(2);
    let args_offset = f.operand(3)@;
    let args_size = f.operand(4)@;
    if f.stack.len() < 7 {
        refused(f, m, EVMError::StackUnderflow)
    } else if !read_ok(args_offset, args_size) || !span_ok(f.operand(5)@, f.operand(6)@) {
        refused(f, m, EVMError::MemoryLimit)
    } else if f.depth >= DEPTH_LIMIT {
        refused(f, m, EVMError::CallDepth)
    } else {
        let g = f.drop(7).with_memory(after_read(f.memory, args_offset, args_size));
        let data = spec_read(f.memory, args_offset as int, args_size as int);
        let s = m.state;
        let child = child_frame(to, f.origin, s.get_code(to), data, value, (f.depth + 1) as usize);
        if value@ != 0 && !s.can_debit(f.caller, value) {
            Run { frame: g.push(word_of(0)), machine: m, result: Ok(()) }
        } else {
            let paid = if value@ != 0 {
                s.transfer(f.caller, to, value)
            } else {
                s
            };
            finish_call(
                g,
                spec_run(child, m.with_state(paid.prepare()), b),
                f.operand(5)@,
                f.operand(6)@,
                true,
            )
        }
    }
}

/// A `CALL` that passes its checks and can be paid runs its child from the
/// state of the parent with the dirty layer dropped, whatever the value.
pub proof fn lemma_call_starts_from_committed(f: FrameModel, m: MachineModel, b: BlockContext)
    requires
        f.stack.len() >= 7,
        read_ok(f.operand(3)@, f.operand(4)@),
        span_ok(f.operand(5)@, f.operand(6)@),
        f.depth < DEPTH_LIMIT,
        f.operand(2)@ == 0 || m.state.can_debit(f.caller, f.operand(2)),
    ensures
        spec_call(f, m, b) == finish_call(
            f.drop(7).with_memory(after_read(f.memory, f.operand(3)@, f.operand(4)@)),
            spec_run(
                child_frame(
                    spec_u256_to_address(f.operand(1)),
                    f.origin,
                    m.state.get_code(spec_u256_to_address(f.operand(1))),
                    spec_read(f.memory, f.operand(3)@ as int, f.operand(4)@ as int),
                    f.operand(2),
                    (f.depth + 1) as usize,
                ),
                m.with_state(m.state.prepare()),
                b,
            ),
            f.operand(5)@,
            f.operand(6)@,
            true,
        ),
{
    crate::state::lemma_prepare_discards_changes(
        m.state,
        f.caller,
        spec_u256_to_address(f.operand(1)),
        f.operand(2),
        f.operand(2),
        0,
        Seq::empty(),
    );
}

/// `DELEGATECALL`, `CALLCODE` and `STATICCALL`: pop gas, target, the span
/// of the arguments and the span for the return data, drop the dirty layer
/// and run the code of the target in a child frame.  No value is moved.
/// The child of `DELEGATECALL` has the contract and the caller of the
/// parent; that of `CALLCODE` has the contract of the parent and the target
/// as caller; that of `STATICCALL` has the target as contract and the
/// origin of the parent as caller, and its changes are never committed.
pub open spec fn spec_call_without_value(
    op: u8,
    f: FrameModel,
    m: MachineModel,
    b: BlockContext,
) -> Run
    decreases m.steps, 1nat,
{
    let to = spec_u256_to_address(f.operand(1));
    let args_offset = f.operand(2)@;
    let args_size = f.operand(3)@;
    if f.stack.len() < 6 {
        refused(f, m, EVMError::StackUnderflow)
    } else if !read_ok(args_offset, args_size) || !span_ok(f.operand(4)@, f.operand(5)@) {
        refused(f, m, EVMError::MemoryLimit)
    } else if f.depth >= DEPTH_LIMIT {
        refused(f, m, EVMError::CallDepth)
    } else {
        let g = f.drop(6).with_memory(after_read(f.memory, args_offset, args_size));
        let data = spec_read(f.memory, args_offset as int, args_size as int);
        let depth = (f.depth + 1) as usize;
        let s = m.state;
        let child = if op == DELEGATECALL {
            child_frame(f.contract, f.caller, s.get_code(to), data, word_of(0), depth)
        } else if op == CALLCODE {
            child_frame(f.contract, to, s.get_code(to), data, word_of(0), depth)
        } else {
            child_frame(to, f.origin, s.get_code(to), data, word_of(0), depth)
        };
        finish_call(
            g,
            spec_run(child, m.with_state(s.prepare()), b),
            f.operand(4)@,
            f.operand(5)@,
            op != STATICCALL,
        )
    }
}

/// What `CREATE` and `CREATE2` do once the operands are popped into `g`
/// and the creation code `code` is read: the value is moved from the
/// contract of the parent to the new address, the creation code runs in a
/// child frame, and what it returns is installed as the code of the new
/// account, whose address is pushed.  An error of the transfer or of the
/// child ends the parent with that error.
pub open spec fn spec_create_at(
    g: FrameModel,
    m: MachineModel,
    b: BlockContext,
    address: Address,
    value: Word,
    code: Seq<u8>,
) -> Run
    decreases m.steps, 1nat,
{
    let s = m.state;
    if value@ != 0 && !s.can_debit(g.contract, value) {
        Run { frame: g, machine: m, result: Err(EVMError::InsufficientBalance) }
    } else {
        let paid = if value@ != 0 {
            s.transfer(g.contract, address, value)
        } else {
            s
        };
        let child = child_frame(address, g.caller, code, Seq::empty(), word_of(0), (g.depth + 1) as usize);
        let r = spec_run(child, m.with_state(paid), b);
        if r.result is Ok {
            Run {
                frame: g.push(spec_address_to_word(address)),
                machine: r.machine.with_state(r.machine.state.set_code(address, r.frame.return_data)),
                result: Ok(()),
            }
        } else {
            Run { frame: g, machine: r.machine, result: r.result }
        }
    }
}

/// `CREATE` pops value, offset and size; `CREATE2` pops a salt as well.
/// The span of the memory is the creation code.  The new address comes from
/// the caller of the parent and its nonce, or from the caller, the salt and
/// the digest of the creation code.
pub open spec fn spec_create(op: u8, f: FrameModel, m: MachineModel, b: BlockContext) -> Run
    decreases m.steps, 2nat,
{
    let n: int = if op == CREATE {
        3
    } else {
        4
    };
    let value = f.operand(0);
    let offset = f.operand(1)@;
    let size = f.operand(2)@;
    if f.stack.len() < n {
        refused(f, m, EVMError::StackUnderflow)
    } else if !read_ok(offset, size) {
        refused(f, m, EVMError::MemoryLimit)
    } else if f.depth >= DEPTH_LIMIT {
        refused(f, m, EVMError::CallDepth)
    } else {
        let g = f.drop(n).with_memory(after_read(f.memory, offset, size));
        let code = spec_read(f.memory, offset as int, size as int);
        let address = if op == CREATE {
            spec_create_address(f.caller, m.state.get_nonce(f.caller))
        } else {
            address_of(create2_address_of(f.caller@, f.operand(3)@, keccak256_of(code)))
        };
        spec_create_at(g, m, b, address, value, code)
    }
}

/// One instruction: the calls and creations as above, every other opcode
/// as its handler does it.
pub open spec fn spec_step(op: u8, f: FrameModel, m: MachineModel, b: BlockContext) -> Run
    decreases m.steps, 3nat,
{
    if op == CALL {
        spec_call(f, m, b)
    } else if op == CALLCODE || op == DELEGATECALL || op == STATICCALL {
        spec_call_without_value(op, f, m, b)
    } else if op == CREATE || op == CREATE2 {
        spec_create(op, f, m, b)
    } else {
        let o = spec_instruction(op, f, m.state, b);
        Run { frame: o.frame, machine: m.with_state(o.state), result: o.result }
    }
}

/// The machine as an instruction starts: one step is taken from the
/// budget, and the line of the instruction is added to the trace if the
/// machine is tracing and the byte is an opcode.
pub open spec fn start_step(f: FrameModel, m: MachineModel, op: u8) -> MachineModel {
    MachineModel {
        steps: (m.steps - 1) as nat,
        trace: if m.tracing && is_opcode(op) {
            m.trace.push(spec_trace_line(f, op))
        } else {
            m.trace
        },
        ..m
    }
}

/// Runs a frame from its program counter on, with the budget of steps of
/// the machine.  The run ends normally when the program counter leaves the
/// code or an instruction ends with `Stop`; it ends with the error of the
/// instruction that failed, or with `StepLimit` when the budget is used up.
/// After an instruction that went through, the program counter moves on by
/// the size of the instruction.  No instruction adds to the budget, so the
/// run always goes on with the steps that the instruction left.
pub open spec fn spec_run(f: FrameModel, m: MachineModel, b: BlockContext) -> Run
    decreases m.steps, 0nat,
{
    if f.pc >= f.code.len() {
        Run { frame: f, machine: m, result: Ok(()) }
    } else if m.steps == 0 {
        Run { frame: f, machine: m, result: Err(EVMError::StepLimit) }
    } else {
        let op = f.code[f.pc as int];
        let r = spec_step(op, f, start_step(f, m, op), b);
        if r.result is Ok {
            if r.machine.steps < m.steps {
                spec_run(FrameModel { pc: next_pc(r.frame.pc, op), ..r.frame }, r.machine, b)
            } else {
                r
            }
        } else if r.result == Err::<(), EVMError>(EVMError::Stop) {
            Run { result: Ok(()), ..r }
        } else {
            r
        }
    }
}

/// The frame that `run` starts with.
pub open spec fn root_frame(
    origin: Address,
    from: Address,
    to: Address,
    code: Seq<u8>,
    args: Seq<u8>,
    value: Word,
) -> FrameModel {
    FrameModel {
        contract: to,
        code,
        call_data: args,
        value,
        caller: from,
        origin,
        ..empty_frame()
    }
}

/// `n` times four spaces.
fn indent(n: usize) -> (r: String)
    ensures
        r@ == spaces(4 * (n as nat)),
{
    let mut out = String::new();
    let mut i: usize = 0;
    proof {
        reveal_strlit("    ");
    }
    assert(out@ =~= spaces(0));
    while i < n
        invariant
            i <= n,
            out@ == spaces(4 * (i as nat)),
            "    "@ == seq![' ', ' ', ' ', ' '],
        decreases n - i,
    {
        out.append("    ");
        assert(out@ =~= spaces(4 * ((i + 1) as nat)));
        i = i + 1;
    }
    out
}

/// The line of the trace for the instruction with opcode `opcode` at the
/// program counter of `ctx`, or `None` where the byte is no opcode.
pub fn trace_line(ctx: &Context, opcode: u8) -> (r: Option<String>)
    ensures
        r is Some <==> is_opcode(opcode),
        r matches Some(line) ==> line@ == spec_trace_line(ctx@, opcode),
{
    let name = match opcode_name(opcode) {
        Some(name) => name,
        None => {
            return None;
        },
    };
    let mut line = indent(ctx.depth);
    line.append(name);
    if opcode >= PUSH1 && opcode <= PUSH32 {
        let k: usize = (opcode - PUSH1) as usize + 1;
        let len: usize = ctx.code.len();
        let operand = if ctx.pc >= len || len - ctx.pc <= 1 {
            let none = vstd::slice::slice_subrange(ctx.code.as_slice(), 0, 0);
            assert(none@ =~= Seq::<u8>::empty());
            none
        } else if len - ctx.pc - 1 <= k {
            vstd::slice::slice_subrange(ctx.code.as_slice(), ctx.pc + 1, len)
        } else {
            vstd::slice::slice_subrange(ctx.code.as_slice(), ctx.pc + 1, ctx.pc + 1 + k)
        };
        line.append(" 0x");
        let digits = hex_encode(operand);
        line.append(digits.as_str());
    }
    Some(line)
}

/// The interpreter: a world state, the block context, what is left of the
/// budget of steps, and the trace.
pub struct Interpreter<'a, S: StateDB> {
    pub state: S,
    pub blk_ctx: &'a BlockContext,
    pub steps_left: u64,
    pub tracing: bool,
    pub trace: Vec<String>,
}

/// The characters of a line of the trace.
pub open spec fn line_view(line: String) -> Seq<char> {
    line@
}

impl<'a, S: StateDB> View for Interpreter<'a, S> {
    type V = MachineModel;

    open spec fn view(&self) -> MachineModel {
        MachineModel {
            state: self.state.model(),
            steps: self.steps_left as nat,
            tracing: self.tracing,
            trace: self.trace@.map_values(|line: String| line_view(line)),
        }
    }
}

impl<'a, S: StateDB> Interpreter<'a, S> {
    /// Whether the world state is in order.
    pub open spec fn wf(&self) -> bool {
        self.state.wf()
    }

    /// The outcome of a run or a step, as the interpreter and the frame
    /// show it.
    pub open spec fn shows(&self, ctx: &Context, r: Result<(), EVMError>) -> Run {
        Run { frame: ctx@, machine: self@, result: r }
    }

    /// An interpreter with the largest budget of steps, an empty trace and
    /// tracing switched off.
    pub fn new(state: S, blk_ctx: &'a BlockContext) -> (r: Self)
        requires
            state.wf(),
        ensures
            r.wf(),
            r.state == state,
            r.blk_ctx == blk_ctx,
            r.steps_left == u64::MAX,
            !r.tracing,
            r.trace@ == Seq::<String>::empty(),
    {
        Interpreter { state, blk_ctx, steps_left: u64::MAX, tracing: false, trace: Vec::new() }
    }

    /// Sets the budget of steps.
    pub fn set_step_limit(&mut self, steps: u64)
        ensures
            *final(self) == (Interpreter { steps_left: steps, ..*old(self) }),
    {
        self.steps_left = steps;
    }

    /// Switches tracing on or off.
    pub fn set_tracing(&mut self, tracing: bool)
        ensures
            *final(self) == (Interpreter { tracing, ..*old(self) }),
    {
        self.tracing = tracing;
    }

    /// Runs a frame until it ends.
    pub fn run_with_ctx(&mut self, ctx: &mut Context) -> (r: Result<(), EVMError>)
        requires
            old(self).wf(),
            old(ctx).wf(),
        ensures
            final(self).wf(),
            final(ctx).wf(),
            final(self).blk_ctx == old(self).blk_ctx,
            final(self).steps_left <= old(self).steps_left,
            final(self).shows(final(ctx), r) == spec_run(
                old(ctx)@,
                old(self)@,
                *old(self).blk_ctx,
            ),
            same_identity(old(ctx)@, final(ctx)@),
            machine_kept(old(self)@, final(self)@),
        decreases old(self).steps_left, 0nat,
    {
        proof {
            lemma_run_keeps(ctx@, self@, *self.blk_ctx);
        }
        loop
            invariant
                self.wf(),
                ctx.wf(),
                self.blk_ctx == old(self).blk_ctx,
                self.steps_left <= old(self).steps_left,
                spec_run(ctx@, self@, *self.blk_ctx) == spec_run(old(ctx)@, old(self)@, *old(self).blk_ctx),
                same_identity(old(ctx)@, spec_run(old(ctx)@, old(self)@, *old(self).blk_ctx).frame),
                machine_kept(old(self)@, spec_run(old(ctx)@, old(self)@, *old(self).blk_ctx).machine),
            decreases self.steps_left,
        {
            if ctx.pc >= ctx.code.len() {
                return Ok(());
            }
            if self.steps_left == 0 {
                return Err(EVMError::StepLimit);
            }
            let opcode: u8 = ctx.code[ctx.pc];
            let ghost before = self@;
            self.steps_left = self.steps_left - 1;
            if self.tracing {
                match trace_line(ctx, opcode) {
                    Some(line) => {
                        self.trace.push(line);
                        assert(self@.trace =~= before.trace.push(line@));
                    },
                    None => {},
                }
            }
            assert(self@ == start_step(ctx@, before, opcode));
            let result = self.step(opcode, ctx);
            match result {
                Ok(_) => {
                    let size: usize = get_opcode_size(opcode);
                    ctx.pc = if size > usize::MAX - ctx.pc {
                        usize::MAX
                    } else {
                        ctx.pc + size
                    };
                },
                Err(EVMError::Stop) => {
                    return Ok(());
                },
                Err(e) => {
                    return Err(e);
                },
            }
        }
    }

    /// Runs one instruction.
    pub fn step(&mut self, opcode: u8, ctx: &mut Context) -> (r: Result<(), EVMError>)
        requires
            old(self).wf(),
            old(ctx).wf(),
        ensures
            final(self).wf(),
            final(ctx).wf(),
            final(self).blk_ctx == old(self).blk_ctx,
            final(self).steps_left <= old(self).steps_left,
            final(self).shows(final(ctx), r) == spec_step(
                opcode,
                old(ctx)@,
                old(self)@,
                *old(self).blk_ctx,
            ),
        decreases old(self).steps_left, 4nat,
    {
        match opcode {
            CALL => self.call(ctx),
            CALLCODE => self.call_code(ctx),
            STATICCALL => self.static_call(ctx),
            CREATE => self.create(ctx),
            CREATE2 => self.create2(ctx),
            DELEGATECALL => self.delegate_call(ctx),
            _ => execute(opcode, ctx, &mut self.state, self.blk_ctx),
        }
    }

    /// Splices the outcome of a child frame into its parent.
    pub fn finish_call(
        &mut self,
        ctx: &mut Context,
        child: Context,
        result: Result<(), EVMError>,
        ret_offset: usize,
        ret_size: usize,
        commit: bool,
    ) -> (r: Result<(), EVMError>)
        requires
            old(self).wf(),
            old(ctx)@.stack.len() < STACK_LIMIT,
            ret_offset + ret_size <= MEMORY_LIMIT,
        ensures
            final(self).wf(),
            final(ctx).wf(),
            final(self).blk_ctx == old(self).blk_ctx,
            final(self).steps_left == old(self).steps_left,
            final(self).shows(final(ctx), r) == finish_call(
                old(ctx)@,
                old(self).shows(&child, result),
                ret_offset as nat,
                ret_size as nat,
                commit,
            ),
    {
        let fatal: bool = match &result {
            Ok(_) => false,
            Err(e) => e.is_fatal(),
        };
        if fatal {
            return result;
        }
        let ok: bool = result.is_ok();
        let data: Vec<u8> = match result {
            Ok(_) => child.return_data,
            Err(EVMError::Revert) => child.return_data,
            Err(_) => Vec::new(),
        };
        ctx.stack.push(Word::from_bool(ok));
        if ok && commit {
            self.state.commit();
        }
        ctx.memory.write_with_size(ret_offset, ret_size, data.as_slice());
        ctx.return_data = data;
        Ok(())
    }

    /// `CALL`.
    pub fn call(&mut self, ctx: &mut Context) -> (r: Result<(), EVMError>)
        requires
            old(self).wf(),
            old(ctx).wf(),
        ensures
            final(self).wf(),
            final(ctx).wf(),
            final(self).blk_ctx == old(self).blk_ctx,
            final(self).steps_left <= old(self).steps_left,
            final(self).shows(final(ctx), r) == spec_call(
                old(ctx)@,
                old(self)@,
                *old(self).blk_ctx,
            ),
        decreases old(self).steps_left, 1nat,
    {
        if ctx.stack.len() < 7 {
            return Err(EVMError::StackUnderflow);
        }
        let to = u256_to_address(ctx.operand(1));
        let value = ctx.operand(2);
        let args_offset = ctx.operand(3);
        let args_size = ctx.operand(4);
        let (ret_offset, ret_size) = match span(ctx.operand(5), ctx.operand(6)) {
            Some(ret) => ret,
            None => {
                return Err(EVMError::MemoryLimit);
            },
        };
        if !can_read(args_offset, args_size) {
            return Err(EVMError::MemoryLimit);
        }
        if ctx.depth >= DEPTH_LIMIT {
            return Err(EVMError::CallDepth);
        }
        let call_data = match read_span(&mut ctx.memory, args_offset, args_size) {
            Some(data) => data,
            None => Vec::new(),
        };
        ctx.drop(7);
        let mut new_ctx = Context::new();
        new_ctx.contract = to;
        new_ctx.code = self.state.get_code(to);
        new_ctx.call_data = call_data;
        new_ctx.value = value;
        new_ctx.caller = ctx.origin;
        new_ctx.depth = ctx.depth + 1;
        if !value.is_zero() {
            match self.state.transfer(ctx.caller, to, value) {
                Ok(_) => {},
                Err(_) => {
                    ctx.stack.push(Word::zero());
                    return Ok(());
                },
            }
        }
        self.state.prepare();
        let result = self.run_with_ctx(&mut new_ctx);
        self.finish_call(ctx, new_ctx, result, ret_offset, ret_size, true)
    }

    /// The part that `DELEGATECALL`, `CALLCODE` and `STATICCALL` share.
    pub fn call_without_value(&mut self, opcode: u8, ctx: &mut Context) -> (r: Result<(), EVMError>)
        requires
            old(self).wf(),
            old(ctx).wf(),
            opcode == DELEGATECALL || opcode == CALLCODE || opcode == STATICCALL,
        ensures
            final(self).wf(),
            final(ctx).wf(),
            final(self).blk_ctx == old(self).blk_ctx,
            final(self).steps_left <= old(self).steps_left,
            final(self).shows(final(ctx), r) == spec_call_without_value(
                opcode,
                old(ctx)@,
                old(self)@,
                *old(self).blk_ctx,
            ),
        decreases old(self).steps_left, 1nat,
    {
        if ctx.stack.len() < 6 {
            return Err(EVMError::StackUnderflow);
        }
        let to = u256_to_address(ctx.operand(1));
        let args_offset = ctx.operand(2);
        let args_size = ctx.operand(3);
        let (ret_offset, ret_size) = match span(ctx.operand(4), ctx.operand(5)) {
            Some(ret) => ret,
            None => {
                return Err(EVMError::MemoryLimit);
            },
        };
        if !can_read(args_offset, args_size) {
            return Err(EVMError::MemoryLimit);
        }
        if ctx.depth >= DEPTH_LIMIT {
            return Err(EVMError::CallDepth);
        }
        let call_data = match read_span(&mut ctx.memory, args_offset, args_size) {
            Some(data) => data,
            None => Vec::new(),
        };
        ctx.drop(6);
        let mut new_ctx = Context::new();
        if opcode == DELEGATECALL {
            new_ctx.contract = ctx.contract;
            new_ctx.caller = ctx.caller;
        } else if opcode == CALLCODE {
            new_ctx.contract = ctx.contract;
            new_ctx.caller = to;
        } else {
            new_ctx.contract = to;
            new_ctx.caller = ctx.origin;
        }
        new_ctx.code = self.state.get_code(to);
        new_ctx.call_data = call_data;
        new_ctx.depth = ctx.depth + 1;
        self.state.prepare();
        let result = self.run_with_ctx(&mut new_ctx);
        self.finish_call(ctx, new_ctx, result, ret_offset, ret_size, opcode != STATICCALL)
    }

    /// `DELEGATECALL`.
    pub fn delegate_call(&mut self, ctx: &mut Context) -> (r: Result<(), EVMError>)
        requires
            old(self).wf(),
            old(ctx).wf(),
        ensures
            final(self).wf(),
            final(ctx).wf(),
            final(self).blk_ctx == old(self).blk_ctx,
            final(self).steps_left <= old(self).steps_left,
            final(self).shows(final(ctx), r) == spec_call_without_value(
                DELEGATECALL,
                old(ctx)@,
                old(self)@,
                *old(self).blk_ctx,
            ),
        decreases old(self).steps_left, 2nat,
    {
        self.call_without_value(DELEGATECALL, ctx)
    }

    /// `CALLCODE`.
    pub fn call_code(&mut self, ctx: &mut Context) -> (r: Result<(), EVMError>)
        requires
            old(self).wf(),
            old(ctx).wf(),
        ensures
            final(self).wf(),
            final(ctx).wf(),
            final(self).blk_ctx == old(self).blk_ctx,
            final(self).steps_left <= old(self).steps_left,
            final(self).shows(final(ctx), r) == spec_call_without_value(
                CALLCODE,
                old(ctx)@,
                old(self)@,
                *old(self).blk_ctx,
            ),
        decreases old(self).steps_left, 2nat,
    {
        self.call_without_value(CALLCODE, ctx)
    }

    /// `STATICCALL`.
    pub fn static_call(&mut self, ctx: &mut Context) -> (r: Result<(), EVMError>)
        requires
            old(self).wf(),
            old(ctx).wf(),
        ensures
            final(self).wf(),
            final(ctx).wf(),
            final(self).blk_ctx == old(self).blk_ctx,
            final(self).steps_left <= old(self).steps_left,
            final(self).shows(final(ctx), r) == spec_call_without_value(
                STATICCALL,
                old(ctx)@,
                old(self)@,
                *old(self).blk_ctx,
            ),
        decreases old(self).steps_left, 2nat,
    {
        self.call_without_value(STATICCALL, ctx)
    }

    /// Runs creation code in a child frame of `ctx` and returns what the
    /// code returned.
    pub fn init_contract(&mut self, ctx: &Context, contract_address: Address, code: Vec<u8>) -> (r: Result<
        Vec<u8>,
        EVMError,
    >)
        requires
            old(self).wf(),
            ctx.depth < DEPTH_LIMIT,
        ensures
            final(self).wf(),
            final(self).blk_ctx == old(self).blk_ctx,
            final(self).steps_left <= old(self).steps_left,
            ({
                let run = spec_run(
                    child_frame(
                        contract_address,
                        ctx.caller,
                        code@,
                        Seq::empty(),
                        word_of(0),
                        (ctx.depth + 1) as usize,
                    ),
                    old(self)@,
                    *old(self).blk_ctx,
                );
                &&& final(self)@ == run.machine
                &&& match r {
                    Ok(data) => run.result is Ok && data@ == run.frame.return_data,
                    Err(e) => run.result == Err::<(), EVMError>(e),
                }
            }),
        decreases old(self).steps_left, 1nat,
    {
        let mut new_ctx = Context::new();
        new_ctx.contract = contract_address;
        new_ctx.code = code;
        new_ctx.caller = ctx.caller;
        new_ctx.depth = ctx.depth + 1;
        match self.run_with_ctx(&mut new_ctx) {
            Ok(_) => Ok(new_ctx.return_data),
            Err(e) => Err(e),
        }
    }

    /// The part that `CREATE` and `CREATE2` share: pays the new account,
    /// runs the creation code and installs what it returns.
    pub fn create_at(&mut self, ctx: &mut Context, address: Address, value: Word, code: Vec<u8>) -> (r: Result<
        (),
        EVMError,
    >)
        requires
            old(self).wf(),
            old(ctx)@.stack.len() < STACK_LIMIT,
            old(ctx).depth < DEPTH_LIMIT,
        ensures
            final(self).wf(),
            final(ctx).wf(),
            final(self).blk_ctx == old(self).blk_ctx,
            final(self).steps_left <= old(self).steps_left,
            final(self).shows(final(ctx), r) == spec_create_at(
                old(ctx)@,
                old(self)@,
                *old(self).blk_ctx,
                address,
                value,
                code@,
            ),
        decreases old(self).steps_left, 2nat,
    {
        if !value.is_zero() {
            match self.state.transfer(ctx.contract, address, value) {
                Ok(_) => {},
                Err(e) => {
                    return Err(e);
                },
            }
        }
        match self.init_contract(ctx, address, code) {
            Ok(contract_code) => {
                self.state.set_code(address, contract_code);
                ctx.stack.push(address_to_word(address));
                Ok(())
            },
            Err(e) => Err(e),
        }
    }

    /// `CREATE`.
    pub fn create(&mut self, ctx: &mut Context) -> (r: Result<(), EVMError>)
        requires
            old(self).wf(),
            old(ctx).wf(),
        ensures
            final(self).wf(),
            final(ctx).wf(),
            final(self).blk_ctx == old(self).blk_ctx,
            final(self).steps_left <= old(self).steps_left,
            final(self).shows(final(ctx), r) == spec_create(
                CREATE,
                old(ctx)@,
                old(self)@,
                *old(self).blk_ctx,
            ),
        decreases old(self).steps_left, 3nat,
    {
        if ctx.stack.len() < 3 {
            return Err(EVMError::StackUnderflow);
        }
        let value = ctx.operand(0);
        let offset = ctx.operand(1);
        let size = ctx.operand(2);
        if !can_read(offset, size) {
            return Err(EVMError::MemoryLimit);
        }
        if ctx.depth >= DEPTH_LIMIT {
            return Err(EVMError::CallDepth);
        }
        let code = match read_span(&mut ctx.memory, offset, size) {
            Some(data) => data,
            None => Vec::new(),
        };
        ctx.drop(3);
        let contract_address = address_create(ctx.caller, self.state.get_nonce(ctx.caller));
        proof {
            lemma_address_of_view(contract_address);
        }
        self.create_at(ctx, contract_address, value, code)
    }

    /// `CREATE2`.
    pub fn create2(&mut self, ctx: &mut Context) -> (r: Result<(), EVMError>)
        requires
            old(self).wf(),
            old(ctx).wf(),
        ensures
            final(self).wf(),
            final(ctx).wf(),
            final(self).blk_ctx == old(self).blk_ctx,
            final(self).steps_left <= old(self).steps_left,
            final(self).shows(final(ctx), r) == spec_create(
                CREATE2,
                old(ctx)@,
                old(self)@,
                *old(self).blk_ctx,
            ),
        decreases old(self).steps_left, 3nat,
    {
        if ctx.stack.len() < 4 {
            return Err(EVMError::StackUnderflow);
        }
        let value = ctx.operand(0);
        let offset = ctx.operand(1);
        let size = ctx.operand(2);
        let salt = ctx.operand(3);
        if !can_read(offset, size) {
            return Err(EVMError::MemoryLimit);
        }
        if ctx.depth >= DEPTH_LIMIT {
            return Err(EVMError::CallDepth);
        }
        let code = match read_span(&mut ctx.memory, offset, size) {
            Some(data) => data,
            None => Vec::new(),
        };
        ctx.drop(4);
        let code_hash = keccak256_word(code.as_slice());
        let contract_address = address_create2(ctx.caller, salt, code_hash);
        proof {
            lemma_address_of_view(contract_address);
        }
        self.create_at(ctx, contract_address, value, code)
    }

    /// Starts a frame for `to`, `from` and `origin` with the code of `to`
    /// and runs it.  Returns the frame as the run left it.
    pub fn run(&mut self, origin: Address, from: Address, to: Address, args: Vec<u8>, value: Word) -> (r:
        Result<Context, EVMError>)
        requires
            old(self).wf(),
        ensures
            final(self).wf(),
            final(self).blk_ctx == old(self).blk_ctx,
            ({
                let run = spec_run(
                    root_frame(origin, from, to, old(self).state.model().get_code(to), args@, value),
                    old(self)@,
                    *old(self).blk_ctx,
                );
                &&& final(self)@ == run.machine
                &&& match r {
                    Ok(ctx) => run.result is Ok && ctx@ == run.frame && ctx.wf(),
                    Err(e) => run.result == Err::<(), EVMError>(e),
                }
            }),
            machine_kept(old(self)@, final(self)@),
    {
        let mut ctx = Context::new();
        ctx.contract = to;
        ctx.code = self.state.get_code(to);
        ctx.call_data = args;
        ctx.value = value;
        ctx.caller = from;
        ctx.origin = origin;
        match self.run_with_ctx(&mut ctx) {
            Ok(_) => Ok(ctx),
            Err(e) => Err(e),
        }
    }
}

} // verus!
