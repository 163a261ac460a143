//! The error kinds that can terminate an execution.

use vstd::prelude::*;

verus! {

/// Every way a run can go wrong.  Each error aborts the current instruction
/// and the whole execution: the engine moves to its faulted state and never
/// leaves it.
#[derive(Clone, Copy, Debug, PartialEq, Eq, Structural)]
pub enum VmError {
    /// The byte image has an odd length, or holds more words than the heap.
    MalformedImage,
    /// The opcode word is not one of the defined operations; carries the word.
    UnknownOpcode(u16),
    /// A heap access at an address outside 0..32768.
    AddressOutOfBounds,
    /// A register access with an index outside 0..8.
    RegisterIndexOutOfBounds,
    /// A destination operand that does not name a register.
    NotARegister,
    /// An operand word above 32775, which is neither literal nor register.
    InvalidOperand,
    /// A pop from an empty stack.
    StackUnderflow,
    /// A modulus instruction whose divisor resolves to zero.
    DivisionByZero,
    /// An input instruction with no input byte left.
    InputExhausted,
}

} // verus!
