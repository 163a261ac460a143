//! A verified virtual machine for programs encoded as 16-bit words.
//!
//! The machine has a 32768-word heap, 8 general registers and an unbounded
//! stack.  Programs are sequences of instructions, each an opcode word
//! followed by a fixed number of operand words; operands are either literals
//! (0..=32767) or register names (32768..=32775).  The engine decodes and
//! executes instructions until the program halts or a fault terminates the
//! run.

pub mod error;
pub mod num;
pub mod mem;
pub mod inst;
pub mod proc;
pub mod exec;
pub mod vm;
