//! Instructions: one variant per opcode, each carrying exactly the raw
//! operand words its opcode requires.  Operand role (value vs. destination)
//! is resolved at execute time, not here.

use vstd::prelude::*;

use crate::error::VmError;

verus! {

/// A decoded instruction.  Operand words are captured raw and unchecked;
/// only the arity is fixed by decoding.
#[allow(non_camel_case_types)]
#[derive(Clone, Copy, Debug, PartialEq, Eq, Structural)]
pub enum INSTRUCTION {
    HALT,
    SET(u16, u16),
    PUSH(u16),
    POP(u16),
    EQ(u16, u16, u16),
    GT(u16, u16, u16),
    JMP(u16),
    JT(u16, u16),
    JF(u16, u16),
    ADD(u16, u16, u16),
    MULT(u16, u16, u16),
    MOD(u16, u16, u16),
    AND(u16, u16, u16),
    OR(u16, u16, u16),
    NOT(u16, u16),
    RMEM(u16, u16),
    WMEM(u16, u16),
    CALL(u16),
    RET,
    OUT(u16),
    IN(u16),
    NOOP,
}

/// How many operand words each defined opcode (0..=21) consumes.
pub open spec fn opcode_arity(op: u16) -> int
    recommends
        op <= 21,
{
    match op {
        0u16 => 0,
        1u16 => 2,
        2u16 => 1,
        3u16 => 1,
        4u16 => 3,
        5u16 => 3,
        6u16 => 1,
        7u16 => 2,
        8u16 => 2,
        9u16 => 3,
        10u16 => 3,
        11u16 => 3,
        12u16 => 3,
        13u16 => 3,
        14u16 => 2,
        15u16 => 2,
        16u16 => 2,
        17u16 => 1,
        18u16 => 0,
        19u16 => 1,
        20u16 => 1,
        _ => 0,
    }
}

/// The instruction encoded by opcode `op` at position `pc` of `w`, its
/// operands the words that follow.
pub open spec fn build_inst(w: Seq<u16>, pc: int, op: u16) -> INSTRUCTION
    recommends
        op <= 21,
        0 <= pc,
        pc + opcode_arity(op) < w.len(),
{
    let a = w[pc + 1];
    let b = w[pc + 2];
    let c = w[pc + 3];
    match op {
        0u16 => INSTRUCTION::HALT,
        1u16 => INSTRUCTION::SET(a, b),
        2u16 => INSTRUCTION::PUSH(a),
        3u16 => INSTRUCTION::POP(a),
        4u16 => INSTRUCTION::EQ(a, b, c),
        5u16 => INSTRUCTION::GT(a, b, c),
        6u16 => INSTRUCTION::JMP(a),
        7u16 => INSTRUCTION::JT(a, b),
        8u16 => INSTRUCTION::JF(a, b),
        9u16 => INSTRUCTION::ADD(a, b, c),
        10u16 => INSTRUCTION::MULT(a, b, c),
        11u16 => INSTRUCTION::MOD(a, b, c),
        12u16 => INSTRUCTION::AND(a, b, c),
        13u16 => INSTRUCTION::OR(a, b, c),
        14u16 => INSTRUCTION::NOT(a, b),
        15u16 => INSTRUCTION::RMEM(a, b),
        16u16 => INSTRUCTION::WMEM(a, b),
        17u16 => INSTRUCTION::CALL(a),
        18u16 => INSTRUCTION::RET,
        19u16 => INSTRUCTION::OUT(a),
        20u16 => INSTRUCTION::IN(a),
        _ => INSTRUCTION::NOOP,
    }
}

/// Decoding at position `pc` of the word sequence `w`: the result, and the
/// position afterwards.  On success that position is `pc + 1 + arity`, one
/// past the consumed words.  Words are read one by one, each read failing
/// at or past `w.len()`, so a failed decode stops at the first position it
/// could not read (for an unknown opcode, just past it).  Decoding is a
/// function of `(w, pc)` alone: it has no side effects.
pub open spec fn spec_decode(w: Seq<u16>, pc: int) -> (Result<INSTRUCTION, VmError>, int) {
    if !(0 <= pc < w.len()) {
        (Err(VmError::AddressOutOfBounds), pc)
    } else {
        let op = w[pc];
        if op > 21 {
            (Err(VmError::UnknownOpcode(op)), pc + 1)
        } else if pc + opcode_arity(op) >= w.len() {
            (Err(VmError::AddressOutOfBounds), w.len() as int)
        } else {
            (Ok(build_inst(w, pc, op)), pc + 1 + opcode_arity(op))
        }
    }
}

} // verus!
