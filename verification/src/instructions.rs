//! The instruction handlers, one function for each opcode or family of
//! opcodes.  Every handler checks its operands before it changes anything:
//! on a stack or memory error the frame is left as it was.

use vstd::prelude::*;
use std::cmp::Ordering;
use crate::word::{
    Word, word_of, u256_to_usize, u256_to_address, address_to_word, lemma_word_of_view,
};
use crate::i256::{i256_cmp, i256_div, i256_mod};
use crate::primitives::{be_nat, keccak256_word, u256_from_be_slice};
use crate::stack::{STACK_LIMIT, top};
use crate::mem::{Memory, MEMORY_LIMIT, spec_read, spec_write, padded, grown};
use crate::context::{Context, FrameModel, BlockContext};
use crate::state::{StateDB, StateModel};
use crate::error::EVMError;
use crate::semantics::{Outcome, spec_instruction, span_ok, read_ok, after_read, tail};
use crate::opcode::{
    STOP, ADD, MUL, SUB, DIV, SDIV, MOD, SMOD, ADDMOD, MULMOD, EXP, SIGNEXTEND, LT, GT, SLT, SGT,
    EQ, ISZERO, AND, OR, XOR, NOT, BYTE, SHL, SHR, SAR, KECCAK256, ADDRESS, BALANCE, ORIGIN, CALLER,
    CALLVALUE, CALLDATALOAD, CALLDATASIZE, CALLDATACOPY, CODESIZE, CODECOPY, GASPRICE, EXTCODESIZE,
    EXTCODECOPY, RETURNDATASIZE, RETURNDATACOPY, EXTCODEHASH, BLOCKHASH, COINBASE, TIMESTAMP,
    NUMBER, DIFFICULTY, GASLIMIT, CHAINID, SELFBALANCE, BASEFEE, BLOBHASH, BLOBHASHFEE, POP, MLOAD,
    MSTORE, MSTORE8, SLOAD, SSTORE, JUMP, JUMPI, PC, MSIZE, GAS, JUMPDEST, TLOAD, TSTORE, MCOPY,
    PUSH0, DUP1, SWAP1, LOG0, RETURN, REVERT, INVALID, SELFDESTRUCT,
};

verus! {

/// The handler of `op` took the frame `f0` and the state `s0` to the frame
/// `f1` and the state `s1` and ended with `r`, as the semantics of `op`
/// say.
pub open spec fn performs(
    op: u8,
    f0: FrameModel,
    s0: StateModel,
    b: BlockContext,
    f1: FrameModel,
    s1: StateModel,
    r: Result<(), EVMError>,
) -> bool {
    (Outcome { frame: f1, state: s1, result: r }) == spec_instruction(op, f0, s0, b)
}

/// Pushes a word, unless the stack is full.
fn push_word(ctx: &mut Context, w: Word) -> (r: Result<(), EVMError>)
    requires
        old(ctx).wf(),
    ensures
        final(ctx).wf(),
        old(ctx)@.stack.len() < STACK_LIMIT ==> r == Ok::<(), EVMError>(())
            && final(ctx)@ == old(ctx)@.push(w),
        old(ctx)@.stack.len() >= STACK_LIMIT ==> r == Err::<(), EVMError>(EVMError::StackOverflow)
            && final(ctx)@ == old(ctx)@,
{
    if ctx.stack.len() >= STACK_LIMIT {
        return Err(EVMError::StackOverflow);
    }
    ctx.stack.push(w);
    Ok(())
}

/// The offset of a span of `size` bytes, if the span is within the limit of
/// the memory.
fn span_of(offset: Word, size: usize) -> (r: Option<usize>)
    ensures
        r is Some <==> span_ok(offset@, size as nat),
        r matches Some(o) ==> o == offset@,
{
    let o: usize = u256_to_usize(offset);
    if size <= MEMORY_LIMIT && o <= MEMORY_LIMIT - size {
        Some(o)
    } else {
        None
    }
}

/// The offset and the size of a span, if the span is within the limit of
/// the memory.
pub(crate) fn span(offset: Word, size: Word) -> (r: Option<(usize, usize)>)
    ensures
        r is Some <==> span_ok(offset@, size@),
        r matches Some((o, n)) ==> o == offset@ && n == size@,
{
    let n: usize = u256_to_usize(size);
    match span_of(offset, n) {
        Some(o) => Some((o, n)),
        None => None,
    }
}

/// Whether a span of the memory can be read.
pub(crate) fn can_read(offset: Word, size: Word) -> (r: bool)
    ensures
        r == read_ok(offset@, size@),
{
    size.is_zero() || span(offset, size).is_some()
}

/// Reads a span of the memory.  An empty span reads nothing, wherever it
/// lies.
pub(crate) fn read_span(memory: &mut Memory, offset: Word, size: Word) -> (r: Option<Vec<u8>>)
    ensures
        r is Some <==> read_ok(offset@, size@),
        r matches Some(data) ==> data@ == spec_read(old(memory)@, offset@ as int, size@ as int)
            && final(memory)@ == after_read(old(memory)@, offset@, size@),
        r is None ==> final(memory)@ == old(memory)@,
{
    if size.is_zero() {
        let data: Vec<u8> = Vec::new();
        assert(data@ =~= spec_read(old(memory)@, offset@ as int, 0));
        return Some(data);
    }
    match span(offset, size) {
        Some((o, n)) => Some(memory.read(o, n)),
        None => None,
    }
}

/// The bytes of `source` from `start` on.
fn tail_of<'a>(source: &'a [u8], start: Word) -> (r: &'a [u8])
    ensures
        r@ == tail(source@, start@),
{
    let s: usize = u256_to_usize(start);
    if s >= source.len() {
        let r = vstd::slice::slice_subrange(source, 0, 0);
        assert(r@ =~= Seq::<u8>::empty());
        r
    } else {
        vstd::slice::slice_subrange(source, s, source.len())
    }
}

/// The word in the 32 bytes of `source` from `offset` on, with zeros where
/// the source ends.
fn load_word(source: &[u8], offset: Word) -> (r: Word)
    ensures
        r == word_of(be_nat(padded(tail(source@, offset@), 32))),
{
    let bytes = tail_of(source, offset);
    let mut buffer: Vec<u8> = Vec::new();
    let mut i: usize = 0;
    while i < 32
        invariant
            i <= 32,
            buffer@.len() == i,
            forall|j: int| 0 <= j < i ==> buffer@[j] == padded(bytes@, 32)[j],
        decreases 32 - i,
    {
        let b: u8 = if i < bytes.len() {
            bytes[i]
        } else {
            0u8
        };
        buffer.push(b);
        i = i + 1;
    }
    assert(buffer@ =~= padded(bytes@, 32));
    let r = u256_from_be_slice(buffer.as_slice());
    proof {
        lemma_word_of_view(r);
    }
    r
}

/// Copies `len` bytes of `source`, from `src` on and followed by zeros
/// where the source ends, to the memory at `dst`.
fn copy_into(
    memory: &mut Memory,
    dst: Word,
    src: Word,
    len: Word,
    source: &[u8],
) -> (r: Result<(), EVMError>)
    ensures
        span_ok(dst@, len@) ==> r == Ok::<(), EVMError>(()) && final(memory)@ == spec_write(
            old(memory)@,
            dst@ as int,
            padded(tail(source@, src@), len@),
        ),
        !span_ok(dst@, len@) ==> r == Err::<(), EVMError>(EVMError::MemoryLimit)
            && final(memory)@ == old(memory)@,
{
    match span(dst, len) {
        Some((o, n)) => {
            memory.write_with_size(o, n, tail_of(source, src));
            Ok(())
        },
        None => Err(EVMError::MemoryLimit),
    }
}

/// Does nothing.  This is the handler of the opcodes that the interpreter
/// runs itself, and of `SELFDESTRUCT`.
pub fn nop<S: StateDB>(
    ctx: &mut Context,
    state: &mut S,
    blk_ctx: &BlockContext,
) -> (r: Result<(), EVMError>)
    requires
        old(ctx).wf(),
        old(state).wf(),
    ensures
        final(ctx).wf(),
        final(state).wf(),
        r == Ok::<(), EVMError>(()),
        final(ctx)@ == old(ctx)@,
        final(state).model() == old(state).model(),
{
    Ok(())
}

/// `STOP`: ends the frame normally.
pub fn stop<S: StateDB>(
    ctx: &mut Context,
    state: &mut S,
    blk_ctx: &BlockContext,
) -> (r: Result<(), EVMError>)
    requires
        old(ctx).wf(),
        old(state).wf(),
    ensures
        final(ctx).wf(),
        final(state).wf(),
        performs(
            STOP,
            old(ctx)@,
            old(state).model(),
            *blk_ctx,
            final(ctx)@,
            final(state).model(),
            r,
        ),
{
    Err(EVMError::Stop)
}

/// `ADD`: pops `a` and `b` and pushes `a + b` modulo 2^256.
pub fn add<S: StateDB>(
    ctx: &mut Context,
    state: &mut S,
    blk_ctx: &BlockContext,
) -> (r: Result<(), EVMError>)
    requires
        old(ctx).wf(),
        old(state).wf(),
    ensures
        final(ctx).wf(),
        final(state).wf(),
        performs(
            ADD,
            old(ctx)@,
            old(state).model(),
            *blk_ctx,
            final(ctx)@,
            final(state).model(),
            r,
        ),
{
    if ctx.stack.len() < 2 {
        return Err(EVMError::StackUnderflow);
    }
    let a = ctx.operand(0);
    let b = ctx.operand(1);
    let w = a.wrapping_add(b);
    ctx.replace_top(2, w);
    Ok(())
}

/// `MUL`: pops `a` and `b` and pushes `a * b` modulo 2^256.
pub fn mul<S: StateDB>(
    ctx: &mut Context,
    state: &mut S,
    blk_ctx: &BlockContext,
) -> (r: Result<(), EVMError>)
    requires
        old(ctx).wf(),
        old(state).wf(),
    ensures
        final(ctx).wf(),
        final(state).wf(),
        performs(
            MUL,
            old(ctx)@,
            old(state).model(),
            *blk_ctx,
            final(ctx)@,
            final(state).model(),
            r,
        ),
{
    if ctx.stack.len() < 2 {
        return Err(EVMError::StackUnderflow);
    }
    let a = ctx.operand(0);
    let b = ctx.operand(1);
    let w = a.wrapping_mul(b);
    ctx.replace_top(2, w);
    Ok(())
}

/// `SUB`: pops `a` and `b` and pushes `a - b` modulo 2^256.
pub fn sub<S: StateDB>(
    ctx: &mut Context,
    state: &mut S,
    blk_ctx: &BlockContext,
) -> (r: Result<(), EVMError>)
    requires
        old(ctx).wf(),
        old(state).wf(),
    ensures
        final(ctx).wf(),
        final(state).wf(),
        performs(
            SUB,
            old(ctx)@,
            old(state).model(),
            *blk_ctx,
            final(ctx)@,
            final(state).model(),
            r,
        ),
{
    if ctx.stack.len() < 2 {
        return Err(EVMError::StackUnderflow);
    }
    let a = ctx.operand(0);
    let b = ctx.operand(1);
    let w = a.wrapping_sub(b);
    ctx.replace_top(2, w);
    Ok(())
}

/// `DIV`: pops `a` and `b` and pushes `a / b`, or 0 when `b` is 0.
pub fn div<S: StateDB>(
    ctx: &mut Context,
    state: &mut S,
    blk_ctx: &BlockContext,
) -> (r: Result<(), EVMError>)
    requires
        old(ctx).wf(),
        old(state).wf(),
    ensures
        final(ctx).wf(),
        final(state).wf(),
        performs(
            DIV,
            old(ctx)@,
            old(state).model(),
            *blk_ctx,
            final(ctx)@,
            final(state).model(),
            r,
        ),
{
    if ctx.stack.len() < 2 {
        return Err(EVMError::StackUnderflow);
    }
    let a = ctx.operand(0);
    let b = ctx.operand(1);
    let w = a.div(b);
    ctx.replace_top(2, w);
    Ok(())
}

/// `SDIV`: pops `a` and `b` and pushes the signed quotient, or 0 when `b` is
/// 0.
pub fn sign_div<S: StateDB>(
    ctx: &mut Context,
    state: &mut S,
    blk_ctx: &BlockContext,
) -> (r: Result<(), EVMError>)
    requires
        old(ctx).wf(),
        old(state).wf(),
    ensures
        final(ctx).wf(),
        final(state).wf(),
        performs(
            SDIV,
            old(ctx)@,
            old(state).model(),
            *blk_ctx,
            final(ctx)@,
            final(state).model(),
            r,
        ),
{
    if ctx.stack.len() < 2 {
        return Err(EVMError::StackUnderflow);
    }
    let a = ctx.operand(0);
    let b = ctx.operand(1);
    let w = i256_div(a, b);
    ctx.replace_top(2, w);
    Ok(())
}

/// `MOD`: pops `a` and `b` and pushes `a mod b`, or 0 when `b` is 0.
pub fn modulo<S: StateDB>(
    ctx: &mut Context,
    state: &mut S,
    blk_ctx: &BlockContext,
) -> (r: Result<(), EVMError>)
    requires
        old(ctx).wf(),
        old(state).wf(),
    ensures
        final(ctx).wf(),
        final(state).wf(),
        performs(
            MOD,
            old(ctx)@,
            old(state).model(),
            *blk_ctx,
            final(ctx)@,
            final(state).model(),
            r,
        ),
{
    if ctx.stack.len() < 2 {
        return Err(EVMError::StackUnderflow);
    }
    let a = ctx.operand(0);
    let b = ctx.operand(1);
    let w = a.rem(b);
    ctx.replace_top(2, w);
    Ok(())
}

/// `SMOD`: pops `a` and `b` and pushes the signed remainder, or 0 when `b` is
/// 0.
pub fn sign_modulo<S: StateDB>(
    ctx: &mut Context,
    state: &mut S,
    blk_ctx: &BlockContext,
) -> (r: Result<(), EVMError>)
    requires
        old(ctx).wf(),
        old(state).wf(),
    ensures
        final(ctx).wf(),
        final(state).wf(),
        performs(
            SMOD,
            old(ctx)@,
            old(state).model(),
            *blk_ctx,
            final(ctx)@,
            final(state).model(),
            r,
        ),
{
    if ctx.stack.len() < 2 {
        return Err(EVMError::StackUnderflow);
    }
    let a = ctx.operand(0);
    let b = ctx.operand(1);
    let w = i256_mod(a, b);
    ctx.replace_top(2, w);
    Ok(())
}

/// `ADDMOD`: pops `a`, `b` and `c` and pushes the wrapped sum of `a` and `b`
/// modulo `c`, or 0 when `c` is 0.
pub fn add_mod<S: StateDB>(
    ctx: &mut Context,
    state: &mut S,
    blk_ctx: &BlockContext,
) -> (r: Result<(), EVMError>)
    requires
        old(ctx).wf(),
        old(state).wf(),
    ensures
        final(ctx).wf(),
        final(state).wf(),
        performs(
            ADDMOD,
            old(ctx)@,
            old(state).model(),
            *blk_ctx,
            final(ctx)@,
            final(state).model(),
            r,
        ),
{
    if ctx.stack.len() < 3 {
        return Err(EVMError::StackUnderflow);
    }
    let a = ctx.operand(0);
    let b = ctx.operand(1);
    let c = ctx.operand(2);
    let w = a.add_mod(b, c);
    ctx.replace_top(3, w);
    Ok(())
}

/// `MULMOD`: pops `a`, `b` and `c` and pushes the wrapped product of `a` and
/// `b` modulo `c`, or 0 when `c` is 0.
pub fn mul_mod<S: StateDB>(
    ctx: &mut Context,
    state: &mut S,
    blk_ctx: &BlockContext,
) -> (r: Result<(), EVMError>)
    requires
        old(ctx).wf(),
        old(state).wf(),
    ensures
        final(ctx).wf(),
        final(state).wf(),
        performs(
            MULMOD,
            old(ctx)@,
            old(state).model(),
            *blk_ctx,
            final(ctx)@,
            final(state).model(),
            r,
        ),
{
    if ctx.stack.len() < 3 {
        return Err(EVMError::StackUnderflow);
    }
    let a = ctx.operand(0);
    let b = ctx.operand(1);
    let c = ctx.operand(2);
    let w = a.mul_mod(b, c);
    ctx.replace_top(3, w);
    Ok(())
}

/// `EXP`: pops `a` and `b` and pushes `a` to the power `b` modulo 2^256.
pub fn exp<S: StateDB>(
    ctx: &mut Context,
    state: &mut S,
    blk_ctx: &BlockContext,
) -> (r: Result<(), EVMError>)
    requires
        old(ctx).wf(),
        old(state).wf(),
    ensures
        final(ctx).wf(),
        final(state).wf(),
        performs(
            EXP,
            old(ctx)@,
            old(state).model(),
            *blk_ctx,
            final(ctx)@,
            final(state).model(),
            r,
        ),
{
    if ctx.stack.len() < 2 {
        return Err(EVMError::StackUnderflow);
    }
    let a = ctx.operand(0);
    let b = ctx.operand(1);
    let w = a.exp(b);
    ctx.replace_top(2, w);
    Ok(())
}

/// `SIGNEXTEND`: pops `k` and `x` and pushes `x` sign-extended from byte `k`.
pub fn sign_extend<S: StateDB>(
    ctx: &mut Context,
    state: &mut S,
    blk_ctx: &BlockContext,
) -> (r: Result<(), EVMError>)
    requires
        old(ctx).wf(),
        old(state).wf(),
    ensures
        final(ctx).wf(),
        final(state).wf(),
        performs(
            SIGNEXTEND,
            old(ctx)@,
            old(state).model(),
            *blk_ctx,
            final(ctx)@,
            final(state).model(),
            r,
        ),
{
    if ctx.stack.len() < 2 {
        return Err(EVMError::StackUnderflow);
    }
    let a = ctx.operand(0);
    let b = ctx.operand(1);
    let w = a.sign_extend(b);
    ctx.replace_top(2, w);
    Ok(())
}

/// `LT`: pops `a` and `b` and pushes 1 when `a < b`, else 0.
pub fn lt<S: StateDB>(
    ctx: &mut Context,
    state: &mut S,
    blk_ctx: &BlockContext,
) -> (r: Result<(), EVMError>)
    requires
        old(ctx).wf(),
        old(state).wf(),
    ensures
        final(ctx).wf(),
        final(state).wf(),
        performs(
            LT,
            old(ctx)@,
            old(state).model(),
            *blk_ctx,
            final(ctx)@,
            final(state).model(),
            r,
        ),
{
    if ctx.stack.len() < 2 {
        return Err(EVMError::StackUnderflow);
    }
    let a = ctx.operand(0);
    let b = ctx.operand(1);
    let w = Word::from_bool(a.lt(&b));
    ctx.replace_top(2, w);
    Ok(())
}

/// `GT`: pops `a` and `b` and pushes 1 when `a > b`, else 0.
pub fn gt<S: StateDB>(
    ctx: &mut Context,
    state: &mut S,
    blk_ctx: &BlockContext,
) -> (r: Result<(), EVMError>)
    requires
        old(ctx).wf(),
        old(state).wf(),
    ensures
        final(ctx).wf(),
        final(state).wf(),
        performs(
            GT,
            old(ctx)@,
            old(state).model(),
            *blk_ctx,
            final(ctx)@,
            final(state).model(),
            r,
        ),
{
    if ctx.stack.len() < 2 {
        return Err(EVMError::StackUnderflow);
    }
    let a = ctx.operand(0);
    let b = ctx.operand(1);
    let w = Word::from_bool(b.lt(&a));
    ctx.replace_top(2, w);
    Ok(())
}

/// `SLT`: pops `a` and `b` and pushes 1 when `a < b` as signed numbers, else
/// 0.
pub fn slt<S: StateDB>(
    ctx: &mut Context,
    state: &mut S,
    blk_ctx: &BlockContext,
) -> (r: Result<(), EVMError>)
    requires
        old(ctx).wf(),
        old(state).wf(),
    ensures
        final(ctx).wf(),
        final(state).wf(),
        performs(
            SLT,
            old(ctx)@,
            old(state).model(),
            *blk_ctx,
            final(ctx)@,
            final(state).model(),
            r,
        ),
{
    if ctx.stack.len() < 2 {
        return Err(EVMError::StackUnderflow);
    }
    let a = ctx.operand(0);
    let b = ctx.operand(1);
    let w = match i256_cmp(&a, &b) {
        Ordering::Less => Word::one(),
        Ordering::Greater => Word::zero(),
        Ordering::Equal => Word::zero(),
    };
    ctx.replace_top(2, w);
    Ok(())
}

/// `SGT`: pops `a` and `b` and pushes 1 when `a > b` as signed numbers, else
/// 0.
pub fn sgt<S: StateDB>(
    ctx: &mut Context,
    state: &mut S,
    blk_ctx: &BlockContext,
) -> (r: Result<(), EVMError>)
    requires
        old(ctx).wf(),
        old(state).wf(),
    ensures
        final(ctx).wf(),
        final(state).wf(),
        performs(
            SGT,
            old(ctx)@,
            old(state).model(),
            *blk_ctx,
            final(ctx)@,
            final(state).model(),
            r,
        ),
{
    if ctx.stack.len() < 2 {
        return Err(EVMError::StackUnderflow);
    }
    let a = ctx.operand(0);
    let b = ctx.operand(1);
    let w = match i256_cmp(&a, &b) {
        Ordering::Less => Word::zero(),
        Ordering::Greater => Word::one(),
        Ordering::Equal => Word::zero(),
    };
    ctx.replace_top(2, w);
    Ok(())
}

/// `EQ`: pops `a` and `b` and pushes 1 when they are equal, else 0.
pub fn eq<S: StateDB>(
    ctx: &mut Context,
    state: &mut S,
    blk_ctx: &BlockContext,
) -> (r: Result<(), EVMError>)
    requires
        old(ctx).wf(),
        old(state).wf(),
    ensures
        final(ctx).wf(),
        final(state).wf(),
        performs(
            EQ,
            old(ctx)@,
            old(state).model(),
            *blk_ctx,
            final(ctx)@,
            final(state).model(),
            r,
        ),
{
    if ctx.stack.len() < 2 {
        return Err(EVMError::StackUnderflow);
    }
    let a = ctx.operand(0);
    let b = ctx.operand(1);
    let w = Word::from_bool(a.equals(&b));
    ctx.replace_top(2, w);
    Ok(())
}

/// `ISZERO`: pops `a` and pushes 1 when it is 0, else 0.
pub fn is_zero<S: StateDB>(
    ctx: &mut Context,
    state: &mut S,
    blk_ctx: &BlockContext,
) -> (r: Result<(), EVMError>)
    requires
        old(ctx).wf(),
        old(state).wf(),
    ensures
        final(ctx).wf(),
        final(state).wf(),
        performs(
            ISZERO,
            old(ctx)@,
            old(state).model(),
            *blk_ctx,
            final(ctx)@,
            final(state).model(),
            r,
        ),
{
    if ctx.stack.len() < 1 {
        return Err(EVMError::StackUnderflow);
    }
    let a = ctx.operand(0);
    let w = Word::from_bool(a.is_zero());
    ctx.replace_top(1, w);
    Ok(())
}

/// `AND`: pops `a` and `b` and pushes their bitwise and.
pub fn and<S: StateDB>(
    ctx: &mut Context,
    state: &mut S,
    blk_ctx: &BlockContext,
) -> (r: Result<(), EVMError>)
    requires
        old(ctx).wf(),
        old(state).wf(),
    ensures
        final(ctx).wf(),
        final(state).wf(),
        performs(
            AND,
            old(ctx)@,
            old(state).model(),
            *blk_ctx,
            final(ctx)@,
            final(state).model(),
            r,
        ),
{
    if ctx.stack.len() < 2 {
        return Err(EVMError::StackUnderflow);
    }
    let a = ctx.operand(0);
    let b = ctx.operand(1);
    let w = a.bitand(b);
    ctx.replace_top(2, w);
    Ok(())
}

/// `OR`: pops `a` and `b` and pushes their bitwise or.
pub fn or<S: StateDB>(
    ctx: &mut Context,
    state: &mut S,
    blk_ctx: &BlockContext,
) -> (r: Result<(), EVMError>)
    requires
        old(ctx).wf(),
        old(state).wf(),
    ensures
        final(ctx).wf(),
        final(state).wf(),
        performs(
            OR,
            old(ctx)@,
            old(state).model(),
            *blk_ctx,
            final(ctx)@,
            final(state).model(),
            r,
        ),
{
    if ctx.stack.len() < 2 {
        return Err(EVMError::StackUnderflow);
    }
    let a = ctx.operand(0);
    let b = ctx.operand(1);
    let w = a.bitor(b);
    ctx.replace_top(2, w);
    Ok(())
}

/// `XOR`: pops `a` and `b` and pushes their bitwise exclusive or.
pub fn xor<S: StateDB>(
    ctx: &mut Context,
    state: &mut S,
    blk_ctx: &BlockContext,
) -> (r: Result<(), EVMError>)
    requires
        old(ctx).wf(),
        old(state).wf(),
    ensures
        final(ctx).wf(),
        final(state).wf(),
        performs(
            XOR,
            old(ctx)@,
            old(state).model(),
            *blk_ctx,
            final(ctx)@,
            final(state).model(),
            r,
        ),
{
    if ctx.stack.len() < 2 {
        return Err(EVMError::StackUnderflow);
    }
    let a = ctx.operand(0);
    let b = ctx.operand(1);
    let w = a.bitxor(b);
    ctx.replace_top(2, w);
    Ok(())
}

/// `NOT`: pops `a` and pushes its bitwise complement.
pub fn not<S: StateDB>(
    ctx: &mut Context,
    state: &mut S,
    blk_ctx: &BlockContext,
) -> (r: Result<(), EVMError>)
    requires
        old(ctx).wf(),
        old(state).wf(),
    ensures
        final(ctx).wf(),
        final(state).wf(),
        performs(
            NOT,
            old(ctx)@,
            old(state).model(),
            *blk_ctx,
            final(ctx)@,
            final(state).model(),
            r,
        ),
{
    if ctx.stack.len() < 1 {
        return Err(EVMError::StackUnderflow);
    }
    let a = ctx.operand(0);
    let w = a.not();
    ctx.replace_top(1, w);
    Ok(())
}

/// `BYTE`: pops `i` and `x` and pushes byte `i` of `x`, counted from the most
/// significant byte, or 0 when `i` is 32 or more.
pub fn byte<S: StateDB>(
    ctx: &mut Context,
    state: &mut S,
    blk_ctx: &BlockContext,
) -> (r: Result<(), EVMError>)
    requires
        old(ctx).wf(),
        old(state).wf(),
    ensures
        final(ctx).wf(),
        final(state).wf(),
        performs(
            BYTE,
            old(ctx)@,
            old(state).model(),
            *blk_ctx,
            final(ctx)@,
            final(state).model(),
            r,
        ),
{
    if ctx.stack.len() < 2 {
        return Err(EVMError::StackUnderflow);
    }
    let a = ctx.operand(0);
    let b = ctx.operand(1);
    let w = a.byte(b);
    ctx.replace_top(2, w);
    Ok(())
}

/// `SHL`: pops a shift and a value and pushes the value shifted left.
pub fn shl<S: StateDB>(
    ctx: &mut Context,
    state: &mut S,
    blk_ctx: &BlockContext,
) -> (r: Result<(), EVMError>)
    requires
        old(ctx).wf(),
        old(state).wf(),
    ensures
        final(ctx).wf(),
        final(state).wf(),
        performs(
            SHL,
            old(ctx)@,
            old(state).model(),
            *blk_ctx,
            final(ctx)@,
            final(state).model(),
            r,
        ),
{
    if ctx.stack.len() < 2 {
        return Err(EVMError::StackUnderflow);
    }
    let a = ctx.operand(0);
    let b = ctx.operand(1);
    let w = a.shl(b);
    ctx.replace_top(2, w);
    Ok(())
}

/// `SHR`: pops a shift and a value and pushes the value shifted right.
pub fn shr<S: StateDB>(
    ctx: &mut Context,
    state: &mut S,
    blk_ctx: &BlockContext,
) -> (r: Result<(), EVMError>)
    requires
        old(ctx).wf(),
        old(state).wf(),
    ensures
        final(ctx).wf(),
        final(state).wf(),
        performs(
            SHR,
            old(ctx)@,
            old(state).model(),
            *blk_ctx,
            final(ctx)@,
            final(state).model(),
            r,
        ),
{
    if ctx.stack.len() < 2 {
        return Err(EVMError::StackUnderflow);
    }
    let a = ctx.operand(0);
    let b = ctx.operand(1);
    let w = a.shr(b);
    ctx.replace_top(2, w);
    Ok(())
}

/// `SAR`: pops a shift and a value and pushes the value shifted right with
/// its sign kept.
pub fn sar<S: StateDB>(
    ctx: &mut Context,
    state: &mut S,
    blk_ctx: &BlockContext,
) -> (r: Result<(), EVMError>)
    requires
        old(ctx).wf(),
        old(state).wf(),
    ensures
        final(ctx).wf(),
        final(state).wf(),
        performs(
            SAR,
            old(ctx)@,
            old(state).model(),
            *blk_ctx,
            final(ctx)@,
            final(state).model(),
            r,
        ),
{
    if ctx.stack.len() < 2 {
        return Err(EVMError::StackUnderflow);
    }
    let a = ctx.operand(0);
    let b = ctx.operand(1);
    let w = a.sar(b);
    ctx.replace_top(2, w);
    Ok(())
}

/// `KECCAK256`: pops offset and size and pushes the Keccak-256 digest of that
/// span of the memory, or 0 for an empty span.
pub fn keccak256<S: StateDB>(
    ctx: &mut Context,
    state: &mut S,
    blk_ctx: &BlockContext,
) -> (r: Result<(), EVMError>)
    requires
        old(ctx).wf(),
        old(state).wf(),
    ensures
        final(ctx).wf(),
        final(state).wf(),
        performs(
            KECCAK256,
            old(ctx)@,
            old(state).model(),
            *blk_ctx,
            final(ctx)@,
            final(state).model(),
            r,
        ),
{
    if ctx.stack.len() < 2 {
        return Err(EVMError::StackUnderflow);
    }
    let offset = ctx.operand(0);
    let size = ctx.operand(1);
    if size.is_zero() {
        ctx.replace_top(2, Word::zero());
        return Ok(());
    }
    match span(offset, size) {
        Some((o, n)) => {
            let data = ctx.memory.read(o, n);
            let hash = keccak256_word(data.as_slice());
            proof {
                lemma_word_of_view(hash);
            }
            ctx.replace_top(2, hash);
            Ok(())
        },
        None => Err(EVMError::MemoryLimit),
    }
}

/// `ADDRESS`: pushes the address of the frame's contract.
pub fn address<S: StateDB>(
    ctx: &mut Context,
    state: &mut S,
    blk_ctx: &BlockContext,
) -> (r: Result<(), EVMError>)
    requires
        old(ctx).wf(),
        old(state).wf(),
    ensures
        final(ctx).wf(),
        final(state).wf(),
        performs(
            ADDRESS,
            old(ctx)@,
            old(state).model(),
            *blk_ctx,
            final(ctx)@,
            final(state).model(),
            r,
        ),
{
    let w = address_to_word(ctx.contract);
    push_word(ctx, w)
}

/// `BALANCE`: pops an address and pushes the balance of that account.
pub fn balance<S: StateDB>(
    ctx: &mut Context,
    state: &mut S,
    blk_ctx: &BlockContext,
) -> (r: Result<(), EVMError>)
    requires
        old(ctx).wf(),
        old(state).wf(),
    ensures
        final(ctx).wf(),
        final(state).wf(),
        performs(
            BALANCE,
            old(ctx)@,
            old(state).model(),
            *blk_ctx,
            final(ctx)@,
            final(state).model(),
            r,
        ),
{
    if ctx.stack.len() < 1 {
        return Err(EVMError::StackUnderflow);
    }
    let a = ctx.operand(0);
    let w = state.get_balance(u256_to_address(a));
    ctx.replace_top(1, w);
    Ok(())
}

/// `ORIGIN`: pushes the address that started the transaction.
pub fn origin<S: StateDB>(
    ctx: &mut Context,
    state: &mut S,
    blk_ctx: &BlockContext,
) -> (r: Result<(), EVMError>)
    requires
        old(ctx).wf(),
        old(state).wf(),
    ensures
        final(ctx).wf(),
        final(state).wf(),
        performs(
            ORIGIN,
            old(ctx)@,
            old(state).model(),
            *blk_ctx,
            final(ctx)@,
            final(state).model(),
            r,
        ),
{
    let w = address_to_word(ctx.origin);
    push_word(ctx, w)
}

/// `CALLER`: pushes the address of the frame's caller.
pub fn caller<S: StateDB>(
    ctx: &mut Context,
    state: &mut S,
    blk_ctx: &BlockContext,
) -> (r: Result<(), EVMError>)
    requires
        old(ctx).wf(),
        old(state).wf(),
    ensures
        final(ctx).wf(),
        final(state).wf(),
        performs(
            CALLER,
            old(ctx)@,
            old(state).model(),
            *blk_ctx,
            final(ctx)@,
            final(state).model(),
            r,
        ),
{
    let w = address_to_word(ctx.caller);
    push_word(ctx, w)
}

/// `CALLVALUE`: pushes the value that came with the call.
pub fn call_value<S: StateDB>(
    ctx: &mut Context,
    state: &mut S,
    blk_ctx: &BlockContext,
) -> (r: Result<(), EVMError>)
    requires
        old(ctx).wf(),
        old(state).wf(),
    ensures
        final(ctx).wf(),
        final(state).wf(),
        performs(
            CALLVALUE,
            old(ctx)@,
            old(state).model(),
            *blk_ctx,
            final(ctx)@,
            final(state).model(),
            r,
        ),
{
    let w = ctx.value;
    push_word(ctx, w)
}

/// `CALLDATALOAD`: pops an offset and pushes the 32 bytes of the call data
/// from there on, with zeros past the end.
pub fn call_data_load<S: StateDB>(
    ctx: &mut Context,
    state: &mut S,
    blk_ctx: &BlockContext,
) -> (r: Result<(), EVMError>)
    requires
        old(ctx).wf(),
        old(state).wf(),
    ensures
        final(ctx).wf(),
        final(state).wf(),
        performs(
            CALLDATALOAD,
            old(ctx)@,
            old(state).model(),
            *blk_ctx,
            final(ctx)@,
            final(state).model(),
            r,
        ),
{
    if ctx.stack.len() < 1 {
        return Err(EVMError::StackUnderflow);
    }
    let a = ctx.operand(0);
    let w = load_word(ctx.call_data.as_slice(), a);
    ctx.replace_top(1, w);
    Ok(())
}

/// `CALLDATASIZE`: pushes the length of the call data.
pub fn call_data_size<S: StateDB>(
    ctx: &mut Context,
    state: &mut S,
    blk_ctx: &BlockContext,
) -> (r: Result<(), EVMError>)
    requires
        old(ctx).wf(),
        old(state).wf(),
    ensures
        final(ctx).wf(),
        final(state).wf(),
        performs(
            CALLDATASIZE,
            old(ctx)@,
            old(state).model(),
            *blk_ctx,
            final(ctx)@,
            final(state).model(),
            r,
        ),
{
    let w = Word::from_usize(ctx.call_data.len());
    push_word(ctx, w)
}

/// `CALLDATACOPY`: pops destination, source offset and length and copies that
/// part of the call data to the memory, with zeros past the end of the call
/// data.
pub fn call_data_copy<S: StateDB>(
    ctx: &mut Context,
    state: &mut S,
    blk_ctx: &BlockContext,
) -> (r: Result<(), EVMError>)
    requires
        old(ctx).wf(),
        old(state).wf(),
    ensures
        final(ctx).wf(),
        final(state).wf(),
        performs(
            CALLDATACOPY,
            old(ctx)@,
            old(state).model(),
            *blk_ctx,
            final(ctx)@,
            final(state).model(),
            r,
        ),
{
    if ctx.stack.len() < 3 {
        return Err(EVMError::StackUnderflow);
    }
    let dst = ctx.operand(0);
    let src = ctx.operand(1);
    let len = ctx.operand(2);
    match copy_into(&mut ctx.memory, dst, src, len, ctx.call_data.as_slice()) {
        Ok(()) => {
            ctx.drop(3);
            Ok(())
        },
        Err(e) => Err(e),
    }
}

/// `CODESIZE`: pushes the length of the frame's code.
pub fn code_size<S: StateDB>(
    ctx: &mut Context,
    state: &mut S,
    blk_ctx: &BlockContext,
) -> (r: Result<(), EVMError>)
    requires
        old(ctx).wf(),
        old(state).wf(),
    ensures
        final(ctx).wf(),
        final(state).wf(),
        performs(
            CODESIZE,
            old(ctx)@,
            old(state).model(),
            *blk_ctx,
            final(ctx)@,
            final(state).model(),
            r,
        ),
{
    let w = Word::from_usize(ctx.code.len());
    push_word(ctx, w)
}

/// `CODECOPY`: pops destination, source offset and length and copies that
/// part of the frame's code to the memory, with zeros past the end of the
/// code.
pub fn code_copy<S: StateDB>(
    ctx: &mut Context,
    state: &mut S,
    blk_ctx: &BlockContext,
) -> (r: Result<(), EVMError>)
    requires
        old(ctx).wf(),
        old(state).wf(),
    ensures
        final(ctx).wf(),
        final(state).wf(),
        performs(
            CODECOPY,
            old(ctx)@,
            old(state).model(),
            *blk_ctx,
            final(ctx)@,
            final(state).model(),
            r,
        ),
{
    if ctx.stack.len() < 3 {
        return Err(EVMError::StackUnderflow);
    }
    let dst = ctx.operand(0);
    let src = ctx.operand(1);
    let len = ctx.operand(2);
    match copy_into(&mut ctx.memory, dst, src, len, ctx.code.as_slice()) {
        Ok(()) => {
            ctx.drop(3);
            Ok(())
        },
        Err(e) => Err(e),
    }
}

/// `GASPRICE`: pushes the gas price.
pub fn gas_price<S: StateDB>(
    ctx: &mut Context,
    state: &mut S,
    blk_ctx: &BlockContext,
) -> (r: Result<(), EVMError>)
    requires
        old(ctx).wf(),
        old(state).wf(),
    ensures
        final(ctx).wf(),
        final(state).wf(),
        performs(
            GASPRICE,
            old(ctx)@,
            old(state).model(),
            *blk_ctx,
            final(ctx)@,
            final(state).model(),
            r,
        ),
{
    let w = blk_ctx.gas_price;
    push_word(ctx, w)
}

/// `EXTCODESIZE`: pops an address and pushes the length of the code of that
/// account.
pub fn ext_code_size<S: StateDB>(
    ctx: &mut Context,
    state: &mut S,
    blk_ctx: &BlockContext,
) -> (r: Result<(), EVMError>)
    requires
        old(ctx).wf(),
        old(state).wf(),
    ensures
        final(ctx).wf(),
        final(state).wf(),
        performs(
            EXTCODESIZE,
            old(ctx)@,
            old(state).model(),
            *blk_ctx,
            final(ctx)@,
            final(state).model(),
            r,
        ),
{
    if ctx.stack.len() < 1 {
        return Err(EVMError::StackUnderflow);
    }
    let a = ctx.operand(0);
    let w = Word::from_usize(state.get_code_size(u256_to_address(a)));
    ctx.replace_top(1, w);
    Ok(())
}

/// `EXTCODECOPY`: pops an address, destination, source offset and length and
/// copies that part of the code of that account to the memory, with zeros
/// past the end of the code.
pub fn ext_code_copy<S: StateDB>(
    ctx: &mut Context,
    state: &mut S,
    blk_ctx: &BlockContext,
) -> (r: Result<(), EVMError>)
    requires
        old(ctx).wf(),
        old(state).wf(),
    ensures
        final(ctx).wf(),
        final(state).wf(),
        performs(
            EXTCODECOPY,
            old(ctx)@,
            old(state).model(),
            *blk_ctx,
            final(ctx)@,
            final(state).model(),
            r,
        ),
{
    if ctx.stack.len() < 4 {
        return Err(EVMError::StackUnderflow);
    }
    let address = ctx.operand(0);
    let dst = ctx.operand(1);
    let src = ctx.operand(2);
    let len = ctx.operand(3);
    let code = state.get_code(u256_to_address(address));
    match copy_into(&mut ctx.memory, dst, src, len, code.as_slice()) {
        Ok(()) => {
            ctx.drop(4);
            Ok(())
        },
        Err(e) => Err(e),
    }
}

/// `RETURNDATASIZE`: pushes the length of the return data.
pub fn return_data_size<S: StateDB>(
    ctx: &mut Context,
    state: &mut S,
    blk_ctx: &BlockContext,
) -> (r: Result<(), EVMError>)
    requires
        old(ctx).wf(),
        old(state).wf(),
    ensures
        final(ctx).wf(),
        final(state).wf(),
        performs(
            RETURNDATASIZE,
            old(ctx)@,
            old(state).model(),
            *blk_ctx,
            final(ctx)@,
            final(state).model(),
            r,
        ),
{
    let w = Word::from_usize(ctx.return_data.len());
    push_word(ctx, w)
}

/// `RETURNDATACOPY`: pops destination, source offset and length and copies
/// that part of the return data to the memory, with zeros past the end of the
/// return data.
pub fn return_data_copy<S: StateDB>(
    ctx: &mut Context,
    state: &mut S,
    blk_ctx: &BlockContext,
) -> (r: Result<(), EVMError>)
    requires
        old(ctx).wf(),
        old(state).wf(),
    ensures
        final(ctx).wf(),
        final(state).wf(),
        performs(
            RETURNDATACOPY,
            old(ctx)@,
            old(state).model(),
            *blk_ctx,
            final(ctx)@,
            final(state).model(),
            r,
        ),
{
    if ctx.stack.len() < 3 {
        return Err(EVMError::StackUnderflow);
    }
    let dst = ctx.operand(0);
    let src = ctx.operand(1);
    let len = ctx.operand(2);
    match copy_into(&mut ctx.memory, dst, src, len, ctx.return_data.as_slice()) {
        Ok(()) => {
            ctx.drop(3);
            Ok(())
        },
        Err(e) => Err(e),
    }
}

/// `EXTCODEHASH`: pops an address and pushes the code digest of that account.
pub fn ext_code_hash<S: StateDB>(
    ctx: &mut Context,
    state: &mut S,
    blk_ctx: &BlockContext,
) -> (r: Result<(), EVMError>)
    requires
        old(ctx).wf(),
        old(state).wf(),
    ensures
        final(ctx).wf(),
        final(state).wf(),
        performs(
            EXTCODEHASH,
            old(ctx)@,
            old(state).model(),
            *blk_ctx,
            final(ctx)@,
            final(state).model(),
            r,
        ),
{
    if ctx.stack.len() < 1 {
        return Err(EVMError::StackUnderflow);
    }
    let a = ctx.operand(0);
    let w = state.get_code_hash(u256_to_address(a));
    ctx.replace_top(1, w);
    Ok(())
}

/// `BLOCKHASH`: pops a block number and pushes the hash of that block, which
/// is always 0.
pub fn block_hash<S: StateDB>(
    ctx: &mut Context,
    state: &mut S,
    blk_ctx: &BlockContext,
) -> (r: Result<(), EVMError>)
    requires
        old(ctx).wf(),
        old(state).wf(),
    ensures
        final(ctx).wf(),
        final(state).wf(),
        performs(
            BLOCKHASH,
            old(ctx)@,
            old(state).model(),
            *blk_ctx,
            final(ctx)@,
            final(state).model(),
            r,
        ),
{
    if ctx.stack.len() < 1 {
        return Err(EVMError::StackUnderflow);
    }
    let a = ctx.operand(0);
    let w = blk_ctx.get_block_hash(a);
    ctx.replace_top(1, w);
    Ok(())
}

/// `COINBASE`: pushes the block's beneficiary.
pub fn coinbase<S: StateDB>(
    ctx: &mut Context,
    state: &mut S,
    blk_ctx: &BlockContext,
) -> (r: Result<(), EVMError>)
    requires
        old(ctx).wf(),
        old(state).wf(),
    ensures
        final(ctx).wf(),
        final(state).wf(),
        performs(
            COINBASE,
            old(ctx)@,
            old(state).model(),
            *blk_ctx,
            final(ctx)@,
            final(state).model(),
            r,
        ),
{
    let w = blk_ctx.block_coinbase;
    push_word(ctx, w)
}

/// `TIMESTAMP`: pushes the block's timestamp.
pub fn timestamp<S: StateDB>(
    ctx: &mut Context,
    state: &mut S,
    blk_ctx: &BlockContext,
) -> (r: Result<(), EVMError>)
    requires
        old(ctx).wf(),
        old(state).wf(),
    ensures
        final(ctx).wf(),
        final(state).wf(),
        performs(
            TIMESTAMP,
            old(ctx)@,
            old(state).model(),
            *blk_ctx,
            final(ctx)@,
            final(state).model(),
            r,
        ),
{
    let w = blk_ctx.block_timestamp;
    push_word(ctx, w)
}

/// `NUMBER`: pushes the block's number.
pub fn block_number<S: StateDB>(
    ctx: &mut Context,
    state: &mut S,
    blk_ctx: &BlockContext,
) -> (r: Result<(), EVMError>)
    requires
        old(ctx).wf(),
        old(state).wf(),
    ensures
        final(ctx).wf(),
        final(state).wf(),
        performs(
            NUMBER,
            old(ctx)@,
            old(state).model(),
            *blk_ctx,
            final(ctx)@,
            final(state).model(),
            r,
        ),
{
    let w = blk_ctx.block_number;
    push_word(ctx, w)
}

/// `DIFFICULTY`: pushes the block's difficulty.
pub fn difficulty<S: StateDB>(
    ctx: &mut Context,
    state: &mut S,
    blk_ctx: &BlockContext,
) -> (r: Result<(), EVMError>)
    requires
        old(ctx).wf(),
        old(state).wf(),
    ensures
        final(ctx).wf(),
        final(state).wf(),
        performs(
            DIFFICULTY,
            old(ctx)@,
            old(state).model(),
            *blk_ctx,
            final(ctx)@,
            final(state).model(),
            r,
        ),
{
    let w = blk_ctx.block_difficulty;
    push_word(ctx, w)
}

/// `GASLIMIT`: pushes the block's gas limit.
pub fn gas_limit<S: StateDB>(
    ctx: &mut Context,
    state: &mut S,
    blk_ctx: &BlockContext,
) -> (r: Result<(), EVMError>)
    requires
        old(ctx).wf(),
        old(state).wf(),
    ensures
        final(ctx).wf(),
        final(state).wf(),
        performs(
            GASLIMIT,
            old(ctx)@,
            old(state).model(),
            *blk_ctx,
            final(ctx)@,
            final(state).model(),
            r,
        ),
{
    let w = blk_ctx.block_gas_limit;
    push_word(ctx, w)
}

/// `CHAINID`: pushes the chain id.
pub fn chain_id<S: StateDB>(
    ctx: &mut Context,
    state: &mut S,
    blk_ctx: &BlockContext,
) -> (r: Result<(), EVMError>)
    requires
        old(ctx).wf(),
        old(state).wf(),
    ensures
        final(ctx).wf(),
        final(state).wf(),
        performs(
            CHAINID,
            old(ctx)@,
            old(state).model(),
            *blk_ctx,
            final(ctx)@,
            final(state).model(),
            r,
        ),
{
    let w = blk_ctx.chain_id;
    push_word(ctx, w)
}

/// `SELFBALANCE`: pushes the balance of the frame's contract.
pub fn self_balance<S: StateDB>(
    ctx: &mut Context,
    state: &mut S,
    blk_ctx: &BlockContext,
) -> (r: Result<(), EVMError>)
    requires
        old(ctx).wf(),
        old(state).wf(),
    ensures
        final(ctx).wf(),
        final(state).wf(),
        performs(
            SELFBALANCE,
            old(ctx)@,
            old(state).model(),
            *blk_ctx,
            final(ctx)@,
            final(state).model(),
            r,
        ),
{
    let w = state.get_balance(ctx.contract);
    push_word(ctx, w)
}

/// `BASEFEE`: pushes the base fee.
pub fn base_fee<S: StateDB>(
    ctx: &mut Context,
    state: &mut S,
    blk_ctx: &BlockContext,
) -> (r: Result<(), EVMError>)
    requires
        old(ctx).wf(),
        old(state).wf(),
    ensures
        final(ctx).wf(),
        final(state).wf(),
        performs(
            BASEFEE,
            old(ctx)@,
            old(state).model(),
            *blk_ctx,
            final(ctx)@,
            final(state).model(),
            r,
        ),
{
    let w = blk_ctx.base_fee;
    push_word(ctx, w)
}

/// `BLOBHASH`: pushes the blob hash.
pub fn blob_hash<S: StateDB>(
    ctx: &mut Context,
    state: &mut S,
    blk_ctx: &BlockContext,
) -> (r: Result<(), EVMError>)
    requires
        old(ctx).wf(),
        old(state).wf(),
    ensures
        final(ctx).wf(),
        final(state).wf(),
        performs(
            BLOBHASH,
            old(ctx)@,
            old(state).model(),
            *blk_ctx,
            final(ctx)@,
            final(state).model(),
            r,
        ),
{
    let w = blk_ctx.blob_hash;
    push_word(ctx, w)
}

/// `BLOBHASHFEE`: pushes the blob fee of the block.
pub fn blob_hash_fee<S: StateDB>(
    ctx: &mut Context,
    state: &mut S,
    blk_ctx: &BlockContext,
) -> (r: Result<(), EVMError>)
    requires
        old(ctx).wf(),
        old(state).wf(),
    ensures
        final(ctx).wf(),
        final(state).wf(),
        performs(
            BLOBHASHFEE,
            old(ctx)@,
            old(state).model(),
            *blk_ctx,
            final(ctx)@,
            final(state).model(),
            r,
        ),
{
    let w = blk_ctx.block_hash_fee;
    push_word(ctx, w)
}

/// `POP`: takes the top word off the stack.
pub fn pop<S: StateDB>(
    ctx: &mut Context,
    state: &mut S,
    blk_ctx: &BlockContext,
) -> (r: Result<(), EVMError>)
    requires
        old(ctx).wf(),
        old(state).wf(),
    ensures
        final(ctx).wf(),
        final(state).wf(),
        performs(
            POP,
            old(ctx)@,
            old(state).model(),
            *blk_ctx,
            final(ctx)@,
            final(state).model(),
            r,
        ),
{
    if ctx.stack.len() < 1 {
        return Err(EVMError::StackUnderflow);
    }
    ctx.drop(1);
    Ok(())
}

/// `MLOAD`: pops an offset and pushes the word in the 32 bytes of the memory
/// from there on.
pub fn mload<S: StateDB>(
    ctx: &mut Context,
    state: &mut S,
    blk_ctx: &BlockContext,
) -> (r: Result<(), EVMError>)
    requires
        old(ctx).wf(),
        old(state).wf(),
    ensures
        final(ctx).wf(),
        final(state).wf(),
        performs(
            MLOAD,
            old(ctx)@,
            old(state).model(),
            *blk_ctx,
            final(ctx)@,
            final(state).model(),
            r,
        ),
{
    if ctx.stack.len() < 1 {
        return Err(EVMError::StackUnderflow);
    }
    let offset = ctx.operand(0);
    match span_of(offset, 32) {
        Some(o) => {
            let w = ctx.memory.read32(o);
            ctx.replace_top(1, w);
            Ok(())
        },
        None => Err(EVMError::MemoryLimit),
    }
}

/// `MSTORE`: pops an offset and a word and stores the word in the 32 bytes of
/// the memory from the offset on.
pub fn mstore<S: StateDB>(
    ctx: &mut Context,
    state: &mut S,
    blk_ctx: &BlockContext,
) -> (r: Result<(), EVMError>)
    requires
        old(ctx).wf(),
        old(state).wf(),
    ensures
        final(ctx).wf(),
        final(state).wf(),
        performs(
            MSTORE,
            old(ctx)@,
            old(state).model(),
            *blk_ctx,
            final(ctx)@,
            final(state).model(),
            r,
        ),
{
    if ctx.stack.len() < 2 {
        return Err(EVMError::StackUnderflow);
    }
    let offset = ctx.operand(0);
    let value = ctx.operand(1);
    match span_of(offset, 32) {
        Some(o) => {
            ctx.memory.write32(o, value);
            ctx.drop(2);
            Ok(())
        },
        None => Err(EVMError::MemoryLimit),
    }
}

/// `MSTORE8`: pops an offset and a word and stores the low byte of the word
/// in the memory at the offset.
pub fn mstore8<S: StateDB>(
    ctx: &mut Context,
    state: &mut S,
    blk_ctx: &BlockContext,
) -> (r: Result<(), EVMError>)
    requires
        old(ctx).wf(),
        old(state).wf(),
    ensures
        final(ctx).wf(),
        final(state).wf(),
        performs(
            MSTORE8,
            old(ctx)@,
            old(state).model(),
            *blk_ctx,
            final(ctx)@,
            final(state).model(),
            r,
        ),
{
    if ctx.stack.len() < 2 {
        return Err(EVMError::StackUnderflow);
    }
    let offset = ctx.operand(0);
    let value = ctx.operand(1);
    match span_of(offset, 1) {
        Some(o) => {
            ctx.memory.write8(o, value.low_u8());
            ctx.drop(2);
            Ok(())
        },
        None => Err(EVMError::MemoryLimit),
    }
}

/// `SLOAD`: pops a key and pushes the storage slot of the frame's contract
/// under that key.
pub fn sload<S: StateDB>(
    ctx: &mut Context,
    state: &mut S,
    blk_ctx: &BlockContext,
) -> (r: Result<(), EVMError>)
    requires
        old(ctx).wf(),
        old(state).wf(),
    ensures
        final(ctx).wf(),
        final(state).wf(),
        performs(
            SLOAD,
            old(ctx)@,
            old(state).model(),
            *blk_ctx,
            final(ctx)@,
            final(state).model(),
            r,
        ),
{
    if ctx.stack.len() < 1 {
        return Err(EVMError::StackUnderflow);
    }
    let a = ctx.operand(0);
    let w = state.get_state(ctx.contract, a);
    ctx.replace_top(1, w);
    Ok(())
}

/// `SSTORE`: pops a key and a word and writes the word to the storage slot of
/// the frame's contract under that key.
pub fn sstore<S: StateDB>(
    ctx: &mut Context,
    state: &mut S,
    blk_ctx: &BlockContext,
) -> (r: Result<(), EVMError>)
    requires
        old(ctx).wf(),
        old(state).wf(),
    ensures
        final(ctx).wf(),
        final(state).wf(),
        performs(
            SSTORE,
            old(ctx)@,
            old(state).model(),
            *blk_ctx,
            final(ctx)@,
            final(state).model(),
            r,
        ),
{
    if ctx.stack.len() < 2 {
        return Err(EVMError::StackUnderflow);
    }
    let key = ctx.operand(0);
    let value = ctx.operand(1);
    state.set_state(ctx.contract, key, value);
    ctx.drop(2);
    Ok(())
}

/// Sets the program counter to `target`, which must hold a `JUMPDEST`.
fn jump_to(ctx: &mut Context, target: Word) -> (r: Result<(), EVMError>)
    ensures
        final(ctx)@ == (FrameModel { pc: crate::word::spec_u256_to_usize(target), ..old(ctx)@ }),
        (final(ctx).pc < old(ctx)@.code.len() && old(ctx)@.code[final(ctx).pc as int] == JUMPDEST)
            ==> r == Ok::<(), EVMError>(()),
        !(final(ctx).pc < old(ctx)@.code.len() && old(ctx)@.code[final(ctx).pc as int] == JUMPDEST)
            ==> r == Err::<(), EVMError>(EVMError::InvalidJumpDestination),
{
    let pc: usize = u256_to_usize(target);
    ctx.pc = pc;
    if pc < ctx.code.len() && ctx.code[pc] == JUMPDEST {
        Ok(())
    } else {
        Err(EVMError::InvalidJumpDestination)
    }
}

/// `JUMP`: pops a target and sets the program counter to it.  The target must
/// hold a `JUMPDEST`; the interpreter then goes on behind it.
pub fn jump<S: StateDB>(
    ctx: &mut Context,
    state: &mut S,
    blk_ctx: &BlockContext,
) -> (r: Result<(), EVMError>)
    requires
        old(ctx).wf(),
        old(state).wf(),
    ensures
        final(ctx).wf(),
        final(state).wf(),
        performs(
            JUMP,
            old(ctx)@,
            old(state).model(),
            *blk_ctx,
            final(ctx)@,
            final(state).model(),
            r,
        ),
{
    if ctx.stack.len() < 1 {
        return Err(EVMError::StackUnderflow);
    }
    let target = ctx.operand(0);
    ctx.drop(1);
    jump_to(ctx, target)
}

/// `JUMPI`: pops a target and a condition and jumps to the target, as `JUMP`
/// does, when the condition is not 0.
pub fn jumpi<S: StateDB>(
    ctx: &mut Context,
    state: &mut S,
    blk_ctx: &BlockContext,
) -> (r: Result<(), EVMError>)
    requires
        old(ctx).wf(),
        old(state).wf(),
    ensures
        final(ctx).wf(),
        final(state).wf(),
        performs(
            JUMPI,
            old(ctx)@,
            old(state).model(),
            *blk_ctx,
            final(ctx)@,
            final(state).model(),
            r,
        ),
{
    if ctx.stack.len() < 2 {
        return Err(EVMError::StackUnderflow);
    }
    let target = ctx.operand(0);
    let condition = ctx.operand(1);
    ctx.drop(2);
    if !condition.is_zero() {
        jump_to(ctx, target)
    } else {
        Ok(())
    }
}

/// `PC`: pushes the program counter.
pub fn pc<S: StateDB>(
    ctx: &mut Context,
    state: &mut S,
    blk_ctx: &BlockContext,
) -> (r: Result<(), EVMError>)
    requires
        old(ctx).wf(),
        old(state).wf(),
    ensures
        final(ctx).wf(),
        final(state).wf(),
        performs(
            PC,
            old(ctx)@,
            old(state).model(),
            *blk_ctx,
            final(ctx)@,
            final(state).model(),
            r,
        ),
{
    let w = Word::from_usize(ctx.pc);
    push_word(ctx, w)
}

/// `MSIZE`: pushes the size that the memory has grown to.
pub fn msize<S: StateDB>(
    ctx: &mut Context,
    state: &mut S,
    blk_ctx: &BlockContext,
) -> (r: Result<(), EVMError>)
    requires
        old(ctx).wf(),
        old(state).wf(),
    ensures
        final(ctx).wf(),
        final(state).wf(),
        performs(
            MSIZE,
            old(ctx)@,
            old(state).model(),
            *blk_ctx,
            final(ctx)@,
            final(state).model(),
            r,
        ),
{
    let w = Word::from_usize(ctx.memory.len());
    push_word(ctx, w)
}

/// `GAS`: pushes 0; gas is not counted.
pub fn gas<S: StateDB>(
    ctx: &mut Context,
    state: &mut S,
    blk_ctx: &BlockContext,
) -> (r: Result<(), EVMError>)
    requires
        old(ctx).wf(),
        old(state).wf(),
    ensures
        final(ctx).wf(),
        final(state).wf(),
        performs(
            GAS,
            old(ctx)@,
            old(state).model(),
            *blk_ctx,
            final(ctx)@,
            final(state).model(),
            r,
        ),
{
    let w = Word::zero();
    push_word(ctx, w)
}

/// `JUMPDEST`: marks a jump target and does nothing.
pub fn jump_dest<S: StateDB>(
    ctx: &mut Context,
    state: &mut S,
    blk_ctx: &BlockContext,
) -> (r: Result<(), EVMError>)
    requires
        old(ctx).wf(),
        old(state).wf(),
    ensures
        final(ctx).wf(),
        final(state).wf(),
        performs(
            JUMPDEST,
            old(ctx)@,
            old(state).model(),
            *blk_ctx,
            final(ctx)@,
            final(state).model(),
            r,
        ),
{
    Ok(())
}

/// `TLOAD`: pops a key and pushes the transient storage slot of the frame's
/// contract under that key.
pub fn tload<S: StateDB>(
    ctx: &mut Context,
    state: &mut S,
    blk_ctx: &BlockContext,
) -> (r: Result<(), EVMError>)
    requires
        old(ctx).wf(),
        old(state).wf(),
    ensures
        final(ctx).wf(),
        final(state).wf(),
        performs(
            TLOAD,
            old(ctx)@,
            old(state).model(),
            *blk_ctx,
            final(ctx)@,
            final(state).model(),
            r,
        ),
{
    if ctx.stack.len() < 1 {
        return Err(EVMError::StackUnderflow);
    }
    let a = ctx.operand(0);
    let w = state.get_transition_state(ctx.contract, a);
    ctx.replace_top(1, w);
    Ok(())
}

/// `TSTORE`: pops a key and a word and writes the word to the transient
/// storage slot of the frame's contract under that key.
pub fn tstore<S: StateDB>(
    ctx: &mut Context,
    state: &mut S,
    blk_ctx: &BlockContext,
) -> (r: Result<(), EVMError>)
    requires
        old(ctx).wf(),
        old(state).wf(),
    ensures
        final(ctx).wf(),
        final(state).wf(),
        performs(
            TSTORE,
            old(ctx)@,
            old(state).model(),
            *blk_ctx,
            final(ctx)@,
            final(state).model(),
            r,
        ),
{
    if ctx.stack.len() < 2 {
        return Err(EVMError::StackUnderflow);
    }
    let key = ctx.operand(0);
    let value = ctx.operand(1);
    state.set_transition_state(ctx.contract, key, value);
    ctx.drop(2);
    Ok(())
}

/// `MCOPY`: pops destination, source and length and copies that span within
/// the memory.
pub fn mcopy<S: StateDB>(
    ctx: &mut Context,
    state: &mut S,
    blk_ctx: &BlockContext,
) -> (r: Result<(), EVMError>)
    requires
        old(ctx).wf(),
        old(state).wf(),
    ensures
        final(ctx).wf(),
        final(state).wf(),
        performs(
            MCOPY,
            old(ctx)@,
            old(state).model(),
            *blk_ctx,
            final(ctx)@,
            final(state).model(),
            r,
        ),
{
    if ctx.stack.len() < 3 {
        return Err(EVMError::StackUnderflow);
    }
    let dst = ctx.operand(0);
    let src = ctx.operand(1);
    let len = ctx.operand(2);
    let n: usize = u256_to_usize(len);
    match span_of(dst, n) {
        Some(d) => match span_of(src, n) {
            Some(s) => {
                ctx.memory.copy(d, s, n);
                ctx.drop(3);
                Ok(())
            },
            None => Err(EVMError::MemoryLimit),
        },
        None => Err(EVMError::MemoryLimit),
    }
}

/// `PUSH0`: pushes 0.
pub fn push0<S: StateDB>(
    ctx: &mut Context,
    state: &mut S,
    blk_ctx: &BlockContext,
) -> (r: Result<(), EVMError>)
    requires
        old(ctx).wf(),
        old(state).wf(),
    ensures
        final(ctx).wf(),
        final(state).wf(),
        performs(
            PUSH0,
            old(ctx)@,
            old(state).model(),
            *blk_ctx,
            final(ctx)@,
            final(state).model(),
            r,
        ),
{
    let w = Word::zero();
    push_word(ctx, w)
}

/// `PUSHN`: pushes the `N` bytes that follow the opcode in the code, read as
/// a number, most significant byte first.
pub fn push<const N: usize, S: StateDB>(
    ctx: &mut Context,
    state: &mut S,
    blk_ctx: &BlockContext,
) -> (r: Result<(), EVMError>)
    requires
        old(ctx).wf(),
        old(state).wf(),
        1 <= N <= 32,
    ensures
        final(ctx).wf(),
        final(state).wf(),
        performs(
            (PUSH0 + N) as u8,
            old(ctx)@,
            old(state).model(),
            *blk_ctx,
            final(ctx)@,
            final(state).model(),
            r,
        ),
{
    if ctx.stack.len() >= STACK_LIMIT {
        return Err(EVMError::StackOverflow);
    }
    if ctx.pc >= ctx.code.len() || ctx.code.len() - ctx.pc - 1 < N {
        return Err(EVMError::CodeOutOfBounds);
    }
    let value = u256_from_be_slice(
        vstd::slice::slice_subrange(ctx.code.as_slice(), ctx.pc + 1, ctx.pc + 1 + N),
    );
    proof {
        lemma_word_of_view(value);
    }
    ctx.stack.push(value);
    Ok(())
}

/// `DUPN`: pushes a copy of the `N`-th word from the top.
pub fn dup<const N: usize, S: StateDB>(
    ctx: &mut Context,
    state: &mut S,
    blk_ctx: &BlockContext,
) -> (r: Result<(), EVMError>)
    requires
        old(ctx).wf(),
        old(state).wf(),
        1 <= N <= 16,
    ensures
        final(ctx).wf(),
        final(state).wf(),
        performs(
            (DUP1 - 1 + N) as u8,
            old(ctx)@,
            old(state).model(),
            *blk_ctx,
            final(ctx)@,
            final(state).model(),
            r,
        ),
{
    if ctx.stack.len() < N {
        return Err(EVMError::StackUnderflow);
    }
    if ctx.stack.len() >= STACK_LIMIT {
        return Err(EVMError::StackOverflow);
    }
    ctx.stack.dup(N);
    Ok(())
}

/// `SWAPN`: exchanges the top word with the `(N + 1)`-th word from the top.
pub fn swap<const N: usize, S: StateDB>(
    ctx: &mut Context,
    state: &mut S,
    blk_ctx: &BlockContext,
) -> (r: Result<(), EVMError>)
    requires
        old(ctx).wf(),
        old(state).wf(),
        1 <= N <= 16,
    ensures
        final(ctx).wf(),
        final(state).wf(),
        performs(
            (SWAP1 - 1 + N) as u8,
            old(ctx)@,
            old(state).model(),
            *blk_ctx,
            final(ctx)@,
            final(state).model(),
            r,
        ),
{
    if ctx.stack.len() < N + 1 {
        return Err(EVMError::StackUnderflow);
    }
    ctx.stack.swap(N);
    Ok(())
}

/// `LOGN`: pops offset and size and then `N` topics, and appends a log entry
/// of the frame's contract with those topics and that span of the memory.
pub fn log<const N: usize, S: StateDB>(
    ctx: &mut Context,
    state: &mut S,
    blk_ctx: &BlockContext,
) -> (r: Result<(), EVMError>)
    requires
        old(ctx).wf(),
        old(state).wf(),
        0 <= N <= 4,
    ensures
        final(ctx).wf(),
        final(state).wf(),
        performs(
            (LOG0 + N) as u8,
            old(ctx)@,
            old(state).model(),
            *blk_ctx,
            final(ctx)@,
            final(state).model(),
            r,
        ),
{
    if ctx.stack.len() < 2 + N {
        return Err(EVMError::StackUnderflow);
    }
    let offset = ctx.operand(0);
    let size = ctx.operand(1);
    let mut topics: Vec<Word> = Vec::new();
    let mut i: usize = 0;
    while i < N
        invariant
            i <= N,
            N <= 4,
            ctx@ == old(ctx)@,
            ctx@.stack.len() >= 2 + N,
            topics@.len() == i,
            forall|j: int| 0 <= j < i ==> topics@[j] == old(ctx)@.operand(2 + j),
        decreases N - i,
    {
        topics.push(ctx.operand(2 + i));
        i = i + 1;
    }
    assert(topics@ =~= Seq::new(N as nat, |j: int| old(ctx)@.operand(2 + j)));
    match read_span(&mut ctx.memory, offset, size) {
        Some(data) => {
            state.add_log(ctx.contract, topics, data);
            ctx.drop(2 + N);
            Ok(())
        },
        None => Err(EVMError::MemoryLimit),
    }
}

/// `RETURN`: pops offset and size, keeps that span of the memory as return
/// data and ends the frame normally.
pub fn ret<S: StateDB>(
    ctx: &mut Context,
    state: &mut S,
    blk_ctx: &BlockContext,
) -> (r: Result<(), EVMError>)
    requires
        old(ctx).wf(),
        old(state).wf(),
    ensures
        final(ctx).wf(),
        final(state).wf(),
        performs(
            RETURN,
            old(ctx)@,
            old(state).model(),
            *blk_ctx,
            final(ctx)@,
            final(state).model(),
            r,
        ),
{
    if ctx.stack.len() < 2 {
        return Err(EVMError::StackUnderflow);
    }
    let offset = ctx.operand(0);
    let size = ctx.operand(1);
    match read_span(&mut ctx.memory, offset, size) {
        Some(data) => {
            ctx.return_data = data;
            ctx.drop(2);
            Err(EVMError::Stop)
        },
        None => Err(EVMError::MemoryLimit),
    }
}

/// `REVERT`: pops offset and size, keeps that span of the memory as return
/// data and aborts the frame.
pub fn revert<S: StateDB>(
    ctx: &mut Context,
    state: &mut S,
    blk_ctx: &BlockContext,
) -> (r: Result<(), EVMError>)
    requires
        old(ctx).wf(),
        old(state).wf(),
    ensures
        final(ctx).wf(),
        final(state).wf(),
        performs(
            REVERT,
            old(ctx)@,
            old(state).model(),
            *blk_ctx,
            final(ctx)@,
            final(state).model(),
            r,
        ),
{
    if ctx.stack.len() < 2 {
        return Err(EVMError::StackUnderflow);
    }
    let offset = ctx.operand(0);
    let size = ctx.operand(1);
    match read_span(&mut ctx.memory, offset, size) {
        Some(data) => {
            ctx.return_data = data;
            ctx.drop(2);
            Err(EVMError::Revert)
        },
        None => Err(EVMError::MemoryLimit),
    }
}

/// `INVALID`: aborts the frame.
pub fn invalid<S: StateDB>(
    ctx: &mut Context,
    state: &mut S,
    blk_ctx: &BlockContext,
) -> (r: Result<(), EVMError>)
    requires
        old(ctx).wf(),
        old(state).wf(),
    ensures
        final(ctx).wf(),
        final(state).wf(),
        performs(
            INVALID,
            old(ctx)@,
            old(state).model(),
            *blk_ctx,
            final(ctx)@,
            final(state).model(),
            r,
        ),
{
    Err(EVMError::Revert)
}

} // verus!
