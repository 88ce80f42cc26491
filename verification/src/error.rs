//! The ways in which execution or assembly can end other than by running
//! off the end of the code.

use vstd::prelude::*;

verus! {

/// A terminal status of a handler, of the interpreter or of the assembler.
#[derive(Debug)]
pub enum EVMError {
    /// An account was debited by more than it holds.
    InsufficientBalance,
    /// A jump whose target is not a jump destination.
    InvalidJumpDestination,
    /// Execution was aborted by the program; the return data is kept.
    Revert,
    /// A byte that is no opcode.
    InvalidOpcode(u8),
    /// Execution ended normally.
    Stop,
    /// A line that the assembler cannot assemble.
    InvalidAsmToken(String),
    /// An instruction needs more operands than the stack holds.
    StackUnderflow,
    /// An instruction would grow the stack beyond its capacity.
    StackOverflow,
    /// A memory span that does not fit in the address space.
    MemoryLimit,
    /// The immediate bytes of a push instruction run past the end of the code.
    CodeOutOfBounds,
    /// The step budget of the interpreter is used up.
    StepLimit,
    /// A nested call or creation would go deeper than the frames may nest.
    CallDepth,
}

impl EVMError {
    /// Whether the error is a fault of the machine rather than an outcome
    /// of the program: a stack or memory violation, code that is cut off,
    /// or a limit of the interpreter.  A fault ends every frame of the
    /// transaction.
    pub open spec fn spec_is_fatal(self) -> bool {
        match self {
            EVMError::StackUnderflow => true,
            EVMError::StackOverflow => true,
            EVMError::MemoryLimit => true,
            EVMError::CodeOutOfBounds => true,
            EVMError::StepLimit => true,
            EVMError::CallDepth => true,
            _ => false,
        }
    }

    /// Whether the error is a fault of the machine.
    pub fn is_fatal(&self) -> (r: bool)
        ensures
            r == self.spec_is_fatal(),
    {
        match self {
            EVMError::StackUnderflow => true,
            EVMError::StackOverflow => true,
            EVMError::MemoryLimit => true,
            EVMError::CodeOutOfBounds => true,
            EVMError::StepLimit => true,
            EVMError::CallDepth => true,
            _ => false,
        }
    }
}

} // verus!
