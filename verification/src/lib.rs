//! Core of a stack machine for Ethereum-style contract bytecode: 256-bit
//! words, the operand stack, byte memory, the journaled world state, the
//! opcode table, the instruction handlers, the interpreter and an assembler.

pub mod word;
pub mod primitives;
pub mod arith;
pub mod i256;
pub mod error;
pub mod stack;
pub mod mem;
pub mod assoc;
pub mod state;
pub mod memory_db;
pub mod opcode;
pub mod context;
pub mod semantics;
pub mod instructions;
pub mod opcode_table;
pub mod vm;
pub mod assembler;
pub mod invariants;
pub mod push_text;
pub mod call_laws;
