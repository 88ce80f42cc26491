//! The opcode table: the mnemonic of every opcode and the handler that
//! runs it.

use vstd::prelude::*;
use crate::context::{Context, BlockContext};
use crate::state::StateDB;
use crate::error::EVMError;
use crate::semantics::is_opcode;
use crate::instructions::{
    performs, add_mod, address, and, balance, base_fee, blob_hash, blob_hash_fee, block_hash,
    block_number, byte, call_data_copy, call_data_load, call_data_size, call_value, caller,
    chain_id, code_copy, code_size, coinbase, difficulty, div, dup, eq, exp, ext_code_copy,
    ext_code_hash, ext_code_size, gas, gas_limit, gas_price, gt, invalid, is_zero, jump, jump_dest,
    jumpi, keccak256, log, lt, mcopy, mload, modulo, msize, mstore, mstore8, mul_mod, nop, not, or,
    origin, pc, pop, push, push0, ret, return_data_copy, return_data_size, revert, sar,
    self_balance, sgt, shl, shr, sign_div, sign_extend, sign_modulo, sload, slt, sstore, stop, swap,
    timestamp, tload, tstore, xor,
};
use crate::opcode::{
    STOP, ADD, MUL, SUB, DIV, SDIV, MOD, SMOD, ADDMOD, MULMOD, EXP, SIGNEXTEND, LT, GT, SLT, SGT,
    EQ, ISZERO, AND, OR, XOR, NOT, BYTE, SHL, SHR, SAR, KECCAK256, ADDRESS, BALANCE, ORIGIN, CALLER,
    CALLVALUE, CALLDATALOAD, CALLDATASIZE, CALLDATACOPY, CODESIZE, CODECOPY, GASPRICE, EXTCODESIZE,
    EXTCODECOPY, RETURNDATASIZE, RETURNDATACOPY, EXTCODEHASH, BLOCKHASH, COINBASE, TIMESTAMP,
    NUMBER, DIFFICULTY, GASLIMIT, CHAINID, SELFBALANCE, BASEFEE, BLOBHASH, BLOBHASHFEE, POP, MLOAD,
    MSTORE, MSTORE8, SLOAD, SSTORE, JUMP, JUMPI, PC, MSIZE, GAS, JUMPDEST, TLOAD, TSTORE, MCOPY,
    PUSH0, PUSH1, PUSH2, PUSH3, PUSH4, PUSH5, PUSH6, PUSH7, PUSH8, PUSH9, PUSH10, PUSH11, PUSH12,
    PUSH13, PUSH14, PUSH15, PUSH16, PUSH17, PUSH18, PUSH19, PUSH20, PUSH21, PUSH22, PUSH23, PUSH24,
    PUSH25, PUSH26, PUSH27, PUSH28, PUSH29, PUSH30, PUSH31, PUSH32, DUP1, DUP2, DUP3, DUP4, DUP5,
    DUP6, DUP7, DUP8, DUP9, DUP10, DUP11, DUP12, DUP13, DUP14, DUP15, DUP16, SWAP1, SWAP2, SWAP3,
    SWAP4, SWAP5, SWAP6, SWAP7, SWAP8, SWAP9, SWAP10, SWAP11, SWAP12, SWAP13, SWAP14, SWAP15,
    SWAP16, LOG0, LOG1, LOG2, LOG3, LOG4, CREATE, CALL, CALLCODE, RETURN, DELEGATECALL, CREATE2,
    STATICCALL, REVERT, INVALID, SELFDESTRUCT,
};

verus! {

/// The mnemonic of an opcode.
pub open spec fn spec_mnemonic(op: u8) -> Seq<char> {
    if op == STOP {
        "STOP"@
    }     else if op == ADD {
        "ADD"@
    }     else if op == MUL {
        "MUL"@
    }     else if op == SUB {
        "SUB"@
    }     else if op == DIV {
        "DIV"@
    }     else if op == SDIV {
        "SDIV"@
    }     else if op == MOD {
        "MOD"@
    }     else if op == SMOD {
        "SMOD"@
    }     else if op == ADDMOD {
        "ADDMOD"@
    }     else if op == MULMOD {
        "MULMOD"@
    }     else if op == EXP {
        "EXP"@
    }     else if op == SIGNEXTEND {
        "SIGNEXTEND"@
    }     else if op == LT {
        "LT"@
    }     else if op == GT {
        "GT"@
    }     else if op == SLT {
        "SLT"@
    }     else if op == SGT {
        "SGT"@
    }     else if op == EQ {
        "EQ"@
    }     else if op == ISZERO {
        "ISZERO"@
    }     else if op == AND {
        "AND"@
    }     else if op == OR {
        "OR"@
    }     else if op == XOR {
        "XOR"@
    }     else if op == NOT {
        "NOT"@
    }     else if op == BYTE {
        "BYTE"@
    }     else if op == SHL {
        "SHL"@
    }     else if op == SHR {
        "SHR"@
    }     else if op == SAR {
        "SAR"@
    }     else if op == KECCAK256 {
        "KECCAK256"@
    }     else if op == ADDRESS {
        "ADDRESS"@
    }     else if op == BALANCE {
        "BALANCE"@
    }     else if op == ORIGIN {
        "ORIGIN"@
    }     else if op == CALLER {
        "CALLER"@
    }     else if op == CALLVALUE {
        "CALLVALUE"@
    }     else if op == CALLDATALOAD {
        "CALLDATALOAD"@
    }     else if op == CALLDATASIZE {
        "CALLDATASIZE"@
    }     else if op == CALLDATACOPY {
        "CALLDATACOPY"@
    }     else if op == CODESIZE {
        "CODESIZE"@
    }     else if op == CODECOPY {
        "CODECOPY"@
    }     else if op == GASPRICE {
        "GASPRICE"@
    }     else if op == EXTCODESIZE {
        "EXTCODESIZE"@
    }     else if op == EXTCODECOPY {
        "EXTCODECOPY"@
    }     else if op == RETURNDATASIZE {
        "RETURNDATASIZE"@
    }     else if op == RETURNDATACOPY {
        "RETURNDATACOPY"@
    }     else if op == EXTCODEHASH {
        "EXTCODEHASH"@
    }     else if op == BLOCKHASH {
        "BLOCKHASH"@
    }     else if op == COINBASE {
        "COINBASE"@
    }     else if op == TIMESTAMP {
        "TIMESTAMP"@
    }     else if op == NUMBER {
        "NUMBER"@
    }     else if op == DIFFICULTY {
        "DIFFICULTY"@
    }     else if op == GASLIMIT {
        "GASLIMIT"@
    }     else if op == CHAINID {
        "CHAINID"@
    }     else if op == SELFBALANCE {
        "SELFBALANCE"@
    }     else if op == BASEFEE {
        "BASEFEE"@
    }     else if op == BLOBHASH {
        "BLOBHASH"@
    }     else if op == BLOBHASHFEE {
        "BLOBHASHFEE"@
    }     else if op == POP {
        "POP"@
    }     else if op == MLOAD {
        "MLOAD"@
    }     else if op == MSTORE {
        "MSTORE"@
    }     else if op == MSTORE8 {
        "MSTORE8"@
    }     else if op == SLOAD {
        "SLOAD"@
    }     else if op == SSTORE {
        "SSTORE"@
    }     else if op == JUMP {
        "JUMP"@
    }     else if op == JUMPI {
        "JUMPI"@
    }     else if op == PC {
        "PC"@
    }     else if op == MSIZE {
        "MSIZE"@
    }     else if op == GAS {
        "GAS"@
    }     else if op == JUMPDEST {
        "JUMPDEST"@
    }     else if op == TLOAD {
        "TLOAD"@
    }     else if op == TSTORE {
        "TSTORE"@
    }     else if op == MCOPY {
        "MCOPY"@
    }     else if op == PUSH0 {
        "PUSH0"@
    }     else if op == PUSH1 {
        "PUSH1"@
    }     else if op == PUSH2 {
        "PUSH2"@
    }     else if op == PUSH3 {
        "PUSH3"@
    }     else if op == PUSH4 {
        "PUSH4"@
    }     else if op == PUSH5 {
        "PUSH5"@
    }     else if op == PUSH6 {
        "PUSH6"@
    }     else if op == PUSH7 {
        "PUSH7"@
    }     else if op == PUSH8 {
        "PUSH8"@
    }     else if op == PUSH9 {
        "PUSH9"@
    }     else if op == PUSH10 {
        "PUSH10"@
    }     else if op == PUSH11 {
        "PUSH11"@
    }     else if op == PUSH12 {
        "PUSH12"@
    }     else if op == PUSH13 {
        "PUSH13"@
    }     else if op == PUSH14 {
        "PUSH14"@
    }     else if op == PUSH15 {
        "PUSH15"@
    }     else if op == PUSH16 {
        "PUSH16"@
    }     else if op == PUSH17 {
        "PUSH17"@
    }     else if op == PUSH18 {
        "PUSH18"@
    }     else if op == PUSH19 {
        "PUSH19"@
    }     else if op == PUSH20 {
        "PUSH20"@
    }     else if op == PUSH21 {
        "PUSH21"@
    }     else if op == PUSH22 {
        "PUSH22"@
    }     else if op == PUSH23 {
        "PUSH23"@
    }     else if op == PUSH24 {
        "PUSH24"@
    }     else if op == PUSH25 {
        "PUSH25"@
    }     else if op == PUSH26 {
        "PUSH26"@
    }     else if op == PUSH27 {
        "PUSH27"@
    }     else if op == PUSH28 {
        "PUSH28"@
    }     else if op == PUSH29 {
        "PUSH29"@
    }     else if op == PUSH30 {
        "PUSH30"@
    }     else if op == PUSH31 {
        "PUSH31"@
    }     else if op == PUSH32 {
        "PUSH32"@
    }     else if op == DUP1 {
        "DUP1"@
    }     else if op == DUP2 {
        "DUP2"@
    }     else if op == DUP3 {
        "DUP3"@
    }     else if op == DUP4 {
        "DUP4"@
    }     else if op == DUP5 {
        "DUP5"@
    }     else if op == DUP6 {
        "DUP6"@
    }     else if op == DUP7 {
        "DUP7"@
    }     else if op == DUP8 {
        "DUP8"@
    }     else if op == DUP9 {
        "DUP9"@
    }     else if op == DUP10 {
        "DUP10"@
    }     else if op == DUP11 {
        "DUP11"@
    }     else if op == DUP12 {
        "DUP12"@
    }     else if op == DUP13 {
        "DUP13"@
    }     else if op == DUP14 {
        "DUP14"@
    }     else if op == DUP15 {
        "DUP15"@
    }     else if op == DUP16 {
        "DUP16"@
    }     else if op == SWAP1 {
        "SWAP1"@
    }     else if op == SWAP2 {
        "SWAP2"@
    }     else if op == SWAP3 {
        "SWAP3"@
    }     else if op == SWAP4 {
        "SWAP4"@
    }     else if op == SWAP5 {
        "SWAP5"@
    }     else if op == SWAP6 {
        "SWAP6"@
    }     else if op == SWAP7 {
        "SWAP7"@
    }     else if op == SWAP8 {
        "SWAP8"@
    }     else if op == SWAP9 {
        "SWAP9"@
    }     else if op == SWAP10 {
        "SWAP10"@
    }     else if op == SWAP11 {
        "SWAP11"@
    }     else if op == SWAP12 {
        "SWAP12"@
    }     else if op == SWAP13 {
        "SWAP13"@
    }     else if op == SWAP14 {
        "SWAP14"@
    }     else if op == SWAP15 {
        "SWAP15"@
    }     else if op == SWAP16 {
        "SWAP16"@
    }     else if op == LOG0 {
        "LOG0"@
    }     else if op == LOG1 {
        "LOG1"@
    }     else if op == LOG2 {
        "LOG2"@
    }     else if op == LOG3 {
        "LOG3"@
    }     else if op == LOG4 {
        "LOG4"@
    }     else if op == CREATE {
        "CREATE"@
    }     else if op == CALL {
        "CALL"@
    }     else if op == CALLCODE {
        "CALLCODE"@
    }     else if op == RETURN {
        "RETURN"@
    }     else if op == DELEGATECALL {
        "DELEGATECALL"@
    }     else if op == CREATE2 {
        "CREATE2"@
    }     else if op == STATICCALL {
        "STATICCALL"@
    }     else if op == REVERT {
        "REVERT"@
    }     else if op == INVALID {
        "INVALID"@
    } else {
        "SELFDESTRUCT"@
    }
}

/// The mnemonic of an opcode, or `None` for a byte that is no opcode.
pub fn opcode_name(op: u8) -> (r: Option<&'static str>)
    ensures
        r is Some <==> is_opcode(op),
        r matches Some(name) ==> name@ == spec_mnemonic(op),
{
    match op {
        0x00 => Some("STOP"),
        0x01 => Some("ADD"),
        0x02 => Some("MUL"),
        0x03 => Some("SUB"),
        0x04 => Some("DIV"),
        0x05 => Some("SDIV"),
        0x06 => Some("MOD"),
        0x07 => Some("SMOD"),
        0x08 => Some("ADDMOD"),
        0x09 => Some("MULMOD"),
        0x0a => Some("EXP"),
        0x0b => Some("SIGNEXTEND"),
        0x10 => Some("LT"),
        0x11 => Some("GT"),
        0x12 => Some("SLT"),
        0x13 => Some("SGT"),
        0x14 => Some("EQ"),
        0x15 => Some("ISZERO"),
        0x16 => Some("AND"),
        0x17 => Some("OR"),
        0x18 => Some("XOR"),
        0x19 => Some("NOT"),
        0x1a => Some("BYTE"),
        0x1b => Some("SHL"),
        0x1c => Some("SHR"),
        0x1d => Some("SAR"),
        0x20 => Some("KECCAK256"),
        0x30 => Some("ADDRESS"),
        0x31 => Some("BALANCE"),
        0x32 => Some("ORIGIN"),
        0x33 => Some("CALLER"),
        0x34 => Some("CALLVALUE"),
        0x35 => Some("CALLDATALOAD"),
        0x36 => Some("CALLDATASIZE"),
        0x37 => Some("CALLDATACOPY"),
        0x38 => Some("CODESIZE"),
        0x39 => Some("CODECOPY"),
        0x3a => Some("GASPRICE"),
        0x3b => Some("EXTCODESIZE"),
        0x3c => Some("EXTCODECOPY"),
        0x3d => Some("RETURNDATASIZE"),
        0x3e => Some("RETURNDATACOPY"),
        0x3f => Some("EXTCODEHASH"),
        0x40 => Some("BLOCKHASH"),
        0x41 => Some("COINBASE"),
        0x42 => Some("TIMESTAMP"),
        0x43 => Some("NUMBER"),
        0x44 => Some("DIFFICULTY"),
        0x45 => Some("GASLIMIT"),
        0x46 => Some("CHAINID"),
        0x47 => Some("SELFBALANCE"),
        0x48 => Some("BASEFEE"),
        0x49 => Some("BLOBHASH"),
        0x4a => Some("BLOBHASHFEE"),
        0x50 => Some("POP"),
        0x51 => Some("MLOAD"),
        0x52 => Some("MSTORE"),
        0x53 => Some("MSTORE8"),
        0x54 => Some("SLOAD"),
        0x55 => Some("SSTORE"),
        0x56 => Some("JUMP"),
        0x57 => Some("JUMPI"),
        0x58 => Some("PC"),
        0x59 => Some("MSIZE"),
        0x5a => Some("GAS"),
        0x5b => Some("JUMPDEST"),
        0x5c => Some("TLOAD"),
        0x5d => Some("TSTORE"),
        0x5e => Some("MCOPY"),
        0x5f => Some("PUSH0"),
        0x60 => Some("PUSH1"),
        0x61 => Some("PUSH2"),
        0x62 => Some("PUSH3"),
        0x63 => Some("PUSH4"),
        0x64 => Some("PUSH5"),
        0x65 => Some("PUSH6"),
        0x66 => Some("PUSH7"),
        0x67 => Some("PUSH8"),
        0x68 => Some("PUSH9"),
        0x69 => Some("PUSH10"),
        0x6a => Some("PUSH11"),
        0x6b => Some("PUSH12"),
        0x6c => Some("PUSH13"),
        0x6d => Some("PUSH14"),
        0x6e => Some("PUSH15"),
        0x6f => Some("PUSH16"),
        0x70 => Some("PUSH17"),
        0x71 => Some("PUSH18"),
        0x72 => Some("PUSH19"),
        0x73 => Some("PUSH20"),
        0x74 => Some("PUSH21"),
        0x75 => Some("PUSH22"),
        0x76 => Some("PUSH23"),
        0x77 => Some("PUSH24"),
        0x78 => Some("PUSH25"),
        0x79 => Some("PUSH26"),
        0x7a => Some("PUSH27"),
        0x7b => Some("PUSH28"),
        0x7c => Some("PUSH29"),
        0x7d => Some("PUSH30"),
        0x7e => Some("PUSH31"),
        0x7f => Some("PUSH32"),
        0x80 => Some("DUP1"),
        0x81 => Some("DUP2"),
        0x82 => Some("DUP3"),
        0x83 => Some("DUP4"),
        0x84 => Some("DUP5"),
        0x85 => Some("DUP6"),
        0x86 => Some("DUP7"),
        0x87 => Some("DUP8"),
        0x88 => Some("DUP9"),
        0x89 => Some("DUP10"),
        0x8a => Some("DUP11"),
        0x8b => Some("DUP12"),
        0x8c => Some("DUP13"),
        0x8d => Some("DUP14"),
        0x8e => Some("DUP15"),
        0x8f => Some("DUP16"),
        0x90 => Some("SWAP1"),
        0x91 => Some("SWAP2"),
        0x92 => Some("SWAP3"),
        0x93 => Some("SWAP4"),
        0x94 => Some("SWAP5"),
        0x95 => Some("SWAP6"),
        0x96 => Some("SWAP7"),
        0x97 => Some("SWAP8"),
        0x98 => Some("SWAP9"),
        0x99 => Some("SWAP10"),
        0x9a => Some("SWAP11"),
        0x9b => Some("SWAP12"),
        0x9c => Some("SWAP13"),
        0x9d => Some("SWAP14"),
        0x9e => Some("SWAP15"),
        0x9f => Some("SWAP16"),
        0xa0 => Some("LOG0"),
        0xa1 => Some("LOG1"),
        0xa2 => Some("LOG2"),
        0xa3 => Some("LOG3"),
        0xa4 => Some("LOG4"),
        0xf0 => Some("CREATE"),
        0xf1 => Some("CALL"),
        0xf2 => Some("CALLCODE"),
        0xf3 => Some("RETURN"),
        0xf4 => Some("DELEGATECALL"),
        0xf5 => Some("CREATE2"),
        0xfa => Some("STATICCALL"),
        0xfd => Some("REVERT"),
        0xfe => Some("INVALID"),
        0xff => Some("SELFDESTRUCT"),
        _ => None,
    }
}

/// Runs the handler of an opcode from 0x00 to 0x1f.
fn run_arithmetic<S: StateDB>(
    op: u8,
    ctx: &mut Context,
    state: &mut S,
    blk_ctx: &BlockContext,
) -> (r: Result<(), EVMError>)
    requires
        old(ctx).wf(),
        old(state).wf(),
        0x00 <= op <= 0x1f,
    ensures
        final(ctx).wf(),
        final(state).wf(),
        performs(
            op,
            old(ctx)@,
            old(state).model(),
            *blk_ctx,
            final(ctx)@,
            final(state).model(),
            r,
        ),
{
    match op {
        0x00 => stop(ctx, state, blk_ctx),
        0x01 => crate::instructions::add(ctx, state, blk_ctx),
        0x02 => crate::instructions::mul(ctx, state, blk_ctx),
        0x03 => crate::instructions::sub(ctx, state, blk_ctx),
        0x04 => div(ctx, state, blk_ctx),
        0x05 => sign_div(ctx, state, blk_ctx),
        0x06 => modulo(ctx, state, blk_ctx),
        0x07 => sign_modulo(ctx, state, blk_ctx),
        0x08 => add_mod(ctx, state, blk_ctx),
        0x09 => mul_mod(ctx, state, blk_ctx),
        0x0a => exp(ctx, state, blk_ctx),
        0x0b => sign_extend(ctx, state, blk_ctx),
        0x10 => lt(ctx, state, blk_ctx),
        0x11 => gt(ctx, state, blk_ctx),
        0x12 => slt(ctx, state, blk_ctx),
        0x13 => sgt(ctx, state, blk_ctx),
        0x14 => eq(ctx, state, blk_ctx),
        0x15 => is_zero(ctx, state, blk_ctx),
        0x16 => and(ctx, state, blk_ctx),
        0x17 => or(ctx, state, blk_ctx),
        0x18 => xor(ctx, state, blk_ctx),
        0x19 => not(ctx, state, blk_ctx),
        0x1a => byte(ctx, state, blk_ctx),
        0x1b => shl(ctx, state, blk_ctx),
        0x1c => shr(ctx, state, blk_ctx),
        0x1d => sar(ctx, state, blk_ctx),
        _ => Err(EVMError::InvalidOpcode(op)),
    }
}

/// Runs the handler of an opcode from 0x20 to 0x4f.
fn run_environment<S: StateDB>(
    op: u8,
    ctx: &mut Context,
    state: &mut S,
    blk_ctx: &BlockContext,
) -> (r: Result<(), EVMError>)
    requires
        old(ctx).wf(),
        old(state).wf(),
        0x20 <= op <= 0x4f,
    ensures
        final(ctx).wf(),
        final(state).wf(),
        performs(
            op,
            old(ctx)@,
            old(state).model(),
            *blk_ctx,
            final(ctx)@,
            final(state).model(),
            r,
        ),
{
    match op {
        0x20 => keccak256(ctx, state, blk_ctx),
        0x30 => address(ctx, state, blk_ctx),
        0x31 => balance(ctx, state, blk_ctx),
        0x32 => origin(ctx, state, blk_ctx),
        0x33 => caller(ctx, state, blk_ctx),
        0x34 => call_value(ctx, state, blk_ctx),
        0x35 => call_data_load(ctx, state, blk_ctx),
        0x36 => call_data_size(ctx, state, blk_ctx),
        0x37 => call_data_copy(ctx, state, blk_ctx),
        0x38 => code_size(ctx, state, blk_ctx),
        0x39 => code_copy(ctx, state, blk_ctx),
        0x3a => gas_price(ctx, state, blk_ctx),
        0x3b => ext_code_size(ctx, state, blk_ctx),
        0x3c => ext_code_copy(ctx, state, blk_ctx),
        0x3d => return_data_size(ctx, state, blk_ctx),
        0x3e => return_data_copy(ctx, state, blk_ctx),
        0x3f => ext_code_hash(ctx, state, blk_ctx),
        0x40 => block_hash(ctx, state, blk_ctx),
        0x41 => coinbase(ctx, state, blk_ctx),
        0x42 => timestamp(ctx, state, blk_ctx),
        0x43 => block_number(ctx, state, blk_ctx),
        0x44 => difficulty(ctx, state, blk_ctx),
        0x45 => gas_limit(ctx, state, blk_ctx),
        0x46 => chain_id(ctx, state, blk_ctx),
        0x47 => self_balance(ctx, state, blk_ctx),
        0x48 => base_fee(ctx, state, blk_ctx),
        0x49 => blob_hash(ctx, state, blk_ctx),
        0x4a => blob_hash_fee(ctx, state, blk_ctx),
        _ => Err(EVMError::InvalidOpcode(op)),
    }
}

/// Runs the handler of an opcode from 0x50 to 0x5f.
fn run_memory_flow<S: StateDB>(
    op: u8,
    ctx: &mut Context,
    state: &mut S,
    blk_ctx: &BlockContext,
) -> (r: Result<(), EVMError>)
    requires
        old(ctx).wf(),
        old(state).wf(),
        0x50 <= op <= 0x5f,
    ensures
        final(ctx).wf(),
        final(state).wf(),
        performs(
            op,
            old(ctx)@,
            old(state).model(),
            *blk_ctx,
            final(ctx)@,
            final(state).model(),
            r,
        ),
{
    match op {
        0x50 => pop(ctx, state, blk_ctx),
        0x51 => mload(ctx, state, blk_ctx),
        0x52 => mstore(ctx, state, blk_ctx),
        0x53 => mstore8(ctx, state, blk_ctx),
        0x54 => sload(ctx, state, blk_ctx),
        0x55 => sstore(ctx, state, blk_ctx),
        0x56 => jump(ctx, state, blk_ctx),
        0x57 => jumpi(ctx, state, blk_ctx),
        0x58 => pc(ctx, state, blk_ctx),
        0x59 => msize(ctx, state, blk_ctx),
        0x5a => gas(ctx, state, blk_ctx),
        0x5b => jump_dest(ctx, state, blk_ctx),
        0x5c => tload(ctx, state, blk_ctx),
        0x5d => tstore(ctx, state, blk_ctx),
        0x5e => mcopy(ctx, state, blk_ctx),
        0x5f => push0(ctx, state, blk_ctx),
        _ => Err(EVMError::InvalidOpcode(op)),
    }
}

/// Runs the handler of an opcode from 0x60 to 0x7f.
fn run_push<S: StateDB>(
    op: u8,
    ctx: &mut Context,
    state: &mut S,
    blk_ctx: &BlockContext,
) -> (r: Result<(), EVMError>)
    requires
        old(ctx).wf(),
        old(state).wf(),
        0x60 <= op <= 0x7f,
    ensures
        final(ctx).wf(),
        final(state).wf(),
        performs(
            op,
            old(ctx)@,
            old(state).model(),
            *blk_ctx,
            final(ctx)@,
            final(state).model(),
            r,
        ),
{
    match op {
        0x60 => push::<1, S>(ctx, state, blk_ctx),
        0x61 => push::<2, S>(ctx, state, blk_ctx),
        0x62 => push::<3, S>(ctx, state, blk_ctx),
        0x63 => push::<4, S>(ctx, state, blk_ctx),
        0x64 => push::<5, S>(ctx, state, blk_ctx),
        0x65 => push::<6, S>(ctx, state, blk_ctx),
        0x66 => push::<7, S>(ctx, state, blk_ctx),
        0x67 => push::<8, S>(ctx, state, blk_ctx),
        0x68 => push::<9, S>(ctx, state, blk_ctx),
        0x69 => push::<10, S>(ctx, state, blk_ctx),
        0x6a => push::<11, S>(ctx, state, blk_ctx),
        0x6b => push::<12, S>(ctx, state, blk_ctx),
        0x6c => push::<13, S>(ctx, state, blk_ctx),
        0x6d => push::<14, S>(ctx, state, blk_ctx),
        0x6e => push::<15, S>(ctx, state, blk_ctx),
        0x6f => push::<16, S>(ctx, state, blk_ctx),
        0x70 => push::<17, S>(ctx, state, blk_ctx),
        0x71 => push::<18, S>(ctx, state, blk_ctx),
        0x72 => push::<19, S>(ctx, state, blk_ctx),
        0x73 => push::<20, S>(ctx, state, blk_ctx),
        0x74 => push::<21, S>(ctx, state, blk_ctx),
        0x75 => push::<22, S>(ctx, state, blk_ctx),
        0x76 => push::<23, S>(ctx, state, blk_ctx),
        0x77 => push::<24, S>(ctx, state, blk_ctx),
        0x78 => push::<25, S>(ctx, state, blk_ctx),
        0x79 => push::<26, S>(ctx, state, blk_ctx),
        0x7a => push::<27, S>(ctx, state, blk_ctx),
        0x7b => push::<28, S>(ctx, state, blk_ctx),
        0x7c => push::<29, S>(ctx, state, blk_ctx),
        0x7d => push::<30, S>(ctx, state, blk_ctx),
        0x7e => push::<31, S>(ctx, state, blk_ctx),
        0x7f => push::<32, S>(ctx, state, blk_ctx),
        _ => Err(EVMError::InvalidOpcode(op)),
    }
}

/// Runs the handler of an opcode from 0x80 to 0x9f.
fn run_dup_swap<S: StateDB>(
    op: u8,
    ctx: &mut Context,
    state: &mut S,
    blk_ctx: &BlockContext,
) -> (r: Result<(), EVMError>)
    requires
        old(ctx).wf(),
        old(state).wf(),
        0x80 <= op <= 0x9f,
    ensures
        final(ctx).wf(),
        final(state).wf(),
        performs(
            op,
            old(ctx)@,
            old(state).model(),
            *blk_ctx,
            final(ctx)@,
            final(state).model(),
            r,
        ),
{
    match op {
        0x80 => dup::<1, S>(ctx, state, blk_ctx),
        0x81 => dup::<2, S>(ctx, state, blk_ctx),
        0x82 => dup::<3, S>(ctx, state, blk_ctx),
        0x83 => dup::<4, S>(ctx, state, blk_ctx),
        0x84 => dup::<5, S>(ctx, state, blk_ctx),
        0x85 => dup::<6, S>(ctx, state, blk_ctx),
        0x86 => dup::<7, S>(ctx, state, blk_ctx),
        0x87 => dup::<8, S>(ctx, state, blk_ctx),
        0x88 => dup::<9, S>(ctx, state, blk_ctx),
        0x89 => dup::<10, S>(ctx, state, blk_ctx),
        0x8a => dup::<11, S>(ctx, state, blk_ctx),
        0x8b => dup::<12, S>(ctx, state, blk_ctx),
        0x8c => dup::<13, S>(ctx, state, blk_ctx),
        0x8d => dup::<14, S>(ctx, state, blk_ctx),
        0x8e => dup::<15, S>(ctx, state, blk_ctx),
        0x8f => dup::<16, S>(ctx, state, blk_ctx),
        0x90 => swap::<1, S>(ctx, state, blk_ctx),
        0x91 => swap::<2, S>(ctx, state, blk_ctx),
        0x92 => swap::<3, S>(ctx, state, blk_ctx),
        0x93 => swap::<4, S>(ctx, state, blk_ctx),
        0x94 => swap::<5, S>(ctx, state, blk_ctx),
        0x95 => swap::<6, S>(ctx, state, blk_ctx),
        0x96 => swap::<7, S>(ctx, state, blk_ctx),
        0x97 => swap::<8, S>(ctx, state, blk_ctx),
        0x98 => swap::<9, S>(ctx, state, blk_ctx),
        0x99 => swap::<10, S>(ctx, state, blk_ctx),
        0x9a => swap::<11, S>(ctx, state, blk_ctx),
        0x9b => swap::<12, S>(ctx, state, blk_ctx),
        0x9c => swap::<13, S>(ctx, state, blk_ctx),
        0x9d => swap::<14, S>(ctx, state, blk_ctx),
        0x9e => swap::<15, S>(ctx, state, blk_ctx),
        0x9f => swap::<16, S>(ctx, state, blk_ctx),
        _ => Err(EVMError::InvalidOpcode(op)),
    }
}

/// Runs the handler of an opcode from 0xa0 to 0xff.
fn run_system<S: StateDB>(
    op: u8,
    ctx: &mut Context,
    state: &mut S,
    blk_ctx: &BlockContext,
) -> (r: Result<(), EVMError>)
    requires
        old(ctx).wf(),
        old(state).wf(),
        0xa0 <= op <= 0xff,
    ensures
        final(ctx).wf(),
        final(state).wf(),
        performs(
            op,
            old(ctx)@,
            old(state).model(),
            *blk_ctx,
            final(ctx)@,
            final(state).model(),
            r,
        ),
{
    match op {
        0xa0 => log::<0, S>(ctx, state, blk_ctx),
        0xa1 => log::<1, S>(ctx, state, blk_ctx),
        0xa2 => log::<2, S>(ctx, state, blk_ctx),
        0xa3 => log::<3, S>(ctx, state, blk_ctx),
        0xa4 => log::<4, S>(ctx, state, blk_ctx),
        0xf0 => nop(ctx, state, blk_ctx),
        0xf1 => nop(ctx, state, blk_ctx),
        0xf2 => nop(ctx, state, blk_ctx),
        0xf3 => ret(ctx, state, blk_ctx),
        0xf4 => nop(ctx, state, blk_ctx),
        0xf5 => nop(ctx, state, blk_ctx),
        0xfa => nop(ctx, state, blk_ctx),
        0xfd => revert(ctx, state, blk_ctx),
        0xfe => invalid(ctx, state, blk_ctx),
        0xff => nop(ctx, state, blk_ctx),
        _ => Err(EVMError::InvalidOpcode(op)),
    }
}

/// Runs the handler that the table holds for `op`.  A byte that is no
/// opcode gives `InvalidOpcode`.
pub fn execute<S: StateDB>(
    op: u8,
    ctx: &mut Context,
    state: &mut S,
    blk_ctx: &BlockContext,
) -> (r: Result<(), EVMError>)
    requires
        old(ctx).wf(),
        old(state).wf(),
    ensures
        final(ctx).wf(),
        final(state).wf(),
        performs(
            op,
            old(ctx)@,
            old(state).model(),
            *blk_ctx,
            final(ctx)@,
            final(state).model(),
            r,
        ),
{
    if op <= 0x1f {
        run_arithmetic(op, ctx, state, blk_ctx)
    } else if op <= 0x4f {
        run_environment(op, ctx, state, blk_ctx)
    } else if op <= 0x5f {
        run_memory_flow(op, ctx, state, blk_ctx)
    } else if op <= 0x7f {
        run_push(op, ctx, state, blk_ctx)
    } else if op <= 0x9f {
        run_dup_swap(op, ctx, state, blk_ctx)
    } else {
        run_system(op, ctx, state, blk_ctx)
    }
}

} // verus!
