//! Execution states of the interpreter and the errors that halt it.

use vstd::prelude::*;

verus! {

/// The fatal conditions. Each one halts the machine that meets it.
#[derive(Debug, Clone, Copy, PartialEq, Eq, Structural)]
pub enum Chip8Error {
    /// The program counter does not leave room for a two-byte instruction.
    FetchOutOfBounds,
    /// An instruction addressed memory through `I` beyond the last byte.
    MemoryOutOfBounds,
    /// A call was made with all sixteen stack slots in use.
    StackOverflow,
    /// A return was made with an empty stack.
    StackUnderflow,
    /// The instruction word is not part of the instruction set.
    UnknownOpcode,
    /// A key instruction found a register value that names no key.
    InvalidKeyIndex,
    /// The program does not fit between the load address and the end of memory.
    LoadError,
}

/// What the interpreter reports to the loop that drives it.
#[derive(Debug, Clone, Copy, PartialEq, Eq, Structural)]
pub enum ChipState {
    /// Waiting for a key; the payload is the register that will receive it.
    Block(u8),
    /// Ready to execute the next instruction.
    Run,
    /// The last instruction drew a sprite: the display should be presented.
    Draw,
    /// The last instruction cleared the display.
    Clear,
    /// Suspended on the host's request.
    Pause,
    /// Stopped for good by the given error.
    Halt(Chip8Error),
}

} // verus!
