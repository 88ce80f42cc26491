//! The execution frame of one call and the block-level values that every
//! frame of a transaction sees.

use vstd::prelude::*;
use crate::word::{Word, Address, word_of, address_of};
use crate::stack::{Stack, STACK_LIMIT, top, drop_top};
use crate::mem::Memory;

verus! {

/// A frame as sequences and numbers.
pub struct FrameModel {
    pub stack: Seq<Word>,
    pub memory: Seq<u8>,
    pub pc: usize,
    pub caller: Address,
    pub origin: Address,
    pub contract: Address,
    pub code: Seq<u8>,
    pub call_data: Seq<u8>,
    pub return_data: Seq<u8>,
    pub value: Word,
    pub depth: usize,
}

/// The frame of one call or contract creation.
pub struct Context {
    pub stack: Stack,
    pub memory: Memory,
    pub pc: usize,
    pub caller: Address,
    pub origin: Address,
    pub contract: Address,
    pub code: Vec<u8>,
    pub call_data: Vec<u8>,
    pub return_data: Vec<u8>,
    pub value: Word,
    pub depth: usize,
}

impl View for Context {
    type V = FrameModel;

    open spec fn view(&self) -> FrameModel {
        FrameModel {
            stack: self.stack@,
            memory: self.memory@,
            pc: self.pc,
            caller: self.caller,
            origin: self.origin,
            contract: self.contract,
            code: self.code@,
            call_data: self.call_data@,
            return_data: self.return_data@,
            value: self.value,
            depth: self.depth,
        }
    }
}

/// The frame that `Context::new` makes.
pub open spec fn empty_frame() -> FrameModel {
    FrameModel {
        stack: Seq::empty(),
        memory: Seq::empty(),
        pc: 0,
        caller: address_of(0),
        origin: address_of(0),
        contract: address_of(0),
        code: Seq::empty(),
        call_data: Seq::empty(),
        return_data: Seq::empty(),
        value: word_of(0),
        depth: 0,
    }
}

impl FrameModel {
    /// Whether the stack is within its capacity.
    pub open spec fn wf(self) -> bool {
        self.stack.len() <= STACK_LIMIT
    }

    /// The `i`-th operand from the top of the stack, counting from 0.
    pub open spec fn operand(self, i: int) -> Word {
        top(self.stack, i)
    }

    /// The frame with the top `n` words replaced by `w`.
    pub open spec fn replace_top(self, n: int, w: Word) -> FrameModel {
        FrameModel { stack: drop_top(self.stack, n).push(w), ..self }
    }

    /// The frame without the top `n` words.
    pub open spec fn drop(self, n: int) -> FrameModel {
        FrameModel { stack: drop_top(self.stack, n), ..self }
    }

    /// The frame with `w` pushed.
    pub open spec fn push(self, w: Word) -> FrameModel {
        FrameModel { stack: self.stack.push(w), ..self }
    }

    /// The frame with another memory.
    pub open spec fn with_memory(self, memory: Seq<u8>) -> FrameModel {
        FrameModel { memory, ..self }
    }
}

impl Context {
    /// Whether the stack is within its capacity.
    pub open spec fn wf(&self) -> bool {
        self@.wf()
    }

    /// A frame at depth 0 with no code, no input, and all participants at
    /// address 0.
    pub fn new() -> (r: Context)
        ensures
            r@ == empty_frame(),
            r.wf(),
    {
        Context {
            stack: Stack::new(),
            memory: Memory::new(),
            pc: 0,
            caller: Address::zero(),
            origin: Address::zero(),
            contract: Address::zero(),
            code: Vec::new(),
            call_data: Vec::new(),
            return_data: Vec::new(),
            value: Word::zero(),
            depth: 0,
        }
    }

    /// The `i`-th operand from the top of the stack, counting from 0.
    pub fn operand(&self, i: usize) -> (r: Word)
        requires
            i < self@.stack.len(),
        ensures
            r == self@.operand(i as int),
    {
        self.stack.stack[self.stack.stack.len() - 1 - i]
    }

    /// Takes the top `n` words off the stack.
    pub fn drop(&mut self, n: usize)
        requires
            n <= old(self)@.stack.len(),
        ensures
            final(self)@ == old(self)@.drop(n as int),
    {
        let len: usize = self.stack.stack.len();
        self.stack.stack.truncate(len - n);
    }

    /// Takes the top `n` words off the stack and pushes `w`.
    pub fn replace_top(&mut self, n: usize, w: Word)
        requires
            1 <= n <= old(self)@.stack.len(),
            old(self).wf(),
        ensures
            final(self)@ == old(self)@.replace_top(n as int, w),
            final(self).wf(),
    {
        let len: usize = self.stack.stack.len();
        self.stack.stack.truncate(len - n);
        self.stack.stack.push(w);
    }
}

/// The values of the block and the transaction that instructions can read.
#[derive(Clone, Copy)]
pub struct BlockContext {
    pub chain_id: Word,
    pub block_number: Word,
    pub block_timestamp: Word,
    pub block_coinbase: Word,
    pub block_difficulty: Word,
    pub block_gas_limit: Word,
    pub block_base_fee: Word,
    pub block_hash_fee: Word,
    pub gas_price: Word,
    pub base_fee: Word,
    pub blob_hash: Word,
}

/// The block context with every value 0.
pub open spec fn zero_block_context() -> BlockContext {
    BlockContext {
        chain_id: word_of(0),
        block_number: word_of(0),
        block_timestamp: word_of(0),
        block_coinbase: word_of(0),
        block_difficulty: word_of(0),
        block_gas_limit: word_of(0),
        block_base_fee: word_of(0),
        block_hash_fee: word_of(0),
        gas_price: word_of(0),
        base_fee: word_of(0),
        blob_hash: word_of(0),
    }
}

impl BlockContext {
    /// A block context with every value 0.
    pub fn new() -> (r: BlockContext)
        ensures
            r == zero_block_context(),
    {
        BlockContext {
            block_number: Word::zero(),
            block_timestamp: Word::zero(),
            block_coinbase: Word::zero(),
            block_difficulty: Word::zero(),
            block_gas_limit: Word::zero(),
            block_base_fee: Word::zero(),
            block_hash_fee: Word::zero(),
            gas_price: Word::zero(),
            base_fee: Word::zero(),
            blob_hash: Word::zero(),
            chain_id: Word::zero(),
        }
    }

    /// The hash of the block with the given number.  No block history is
    /// kept, so the answer is always 0.
    pub fn get_block_hash(&self, block_number: Word) -> (r: Word)
        ensures
            r == word_of(0),
    {
        Word::zero()
    }
}

} // verus!
