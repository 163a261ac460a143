//! The execution engine: owns the storage and the process, drives the
//! decode-execute loop, and implements the per-opcode semantics.
//!
//! The engine's whole behaviour is pinned by the ghost step function
//! [`spec_step`]: one call of [`VM::next_instruction`] on a running machine
//! performs exactly one ghost step.

use vstd::prelude::*;

use crate::error::VmError;
use crate::inst::{spec_decode, INSTRUCTION};
use crate::mem::{spec_load, spec_read, spec_value, Memory, HEAP_SIZE, NUM_REGISTERS};
use crate::num::{from_hex_slice, resolve_register_index, spec_reg_idx, spec_words};
use crate::proc::Process;

verus! {

/// The engine's run state.  `Ready` becomes `Running` when execution
/// starts; `Halted` and `Faulted` are terminal, and `Faulted` carries the
/// error that ended the run.
#[derive(Clone, Copy, Debug, PartialEq, Eq, Structural)]
pub enum RunState {
    Ready,
    Running,
    Halted,
    Faulted(VmError),
}

/// The mathematical state of a whole machine: storage, counter, run state,
/// and the input and output byte streams.
#[verifier::ext_equal]
pub ghost struct VmSnap {
    pub heap: Seq<u16>,
    pub regs: Seq<u16>,
    pub stack: Seq<u16>,
    pub pc: int,
    pub state: RunState,
    pub input: Seq<u8>,
    pub output: Seq<u8>,
}

impl VmSnap {
    /// Full-size heap, eight registers, counter within a word's range.
    pub open spec fn wf(self) -> bool {
        self.heap.len() == HEAP_SIZE && self.regs.len() == NUM_REGISTERS && 0 <= self.pc
            <= 0xFFFF
    }

    /// The same machine, faulted with `e`.
    pub open spec fn faulted(self, e: VmError) -> VmSnap {
        VmSnap { state: RunState::Faulted(e), ..self }
    }

    /// The same machine with its counter replaced.
    pub open spec fn with_pc(self, pc: int) -> VmSnap {
        VmSnap { pc, ..self }
    }

    /// The same machine, halted cleanly.
    pub open spec fn halted(self) -> VmSnap {
        VmSnap { state: RunState::Halted, ..self }
    }
}

/// Addition modulo 32768.
pub open spec fn add_w(x: u16, y: u16) -> u16 {
    ((x + y) % 32768) as u16
}

/// Multiplication modulo 32768, on the widened product.
pub open spec fn mult_w(x: u16, y: u16) -> u16 {
    ((x * y) % 32768) as u16
}

/// Remainder; meaningful only for a nonzero divisor.
pub open spec fn mod_w(x: u16, y: u16) -> u16
    recommends
        y != 0,
{
    (x % y) as u16
}

/// Bitwise and, masked to 15 bits.
pub open spec fn and_w(x: u16, y: u16) -> u16 {
    (x & y) & 0x7fff
}

/// Bitwise or, masked to 15 bits.
pub open spec fn or_w(x: u16, y: u16) -> u16 {
    (x | y) & 0x7fff
}

/// The 15-bit complement, masked to 15 bits.
pub open spec fn not_w(x: u16) -> u16 {
    (x ^ 0x7fff) & 0x7fff
}

/// The low 8 bits of a word, as one output byte.
pub open spec fn low_byte(x: u16) -> u8 {
    (x & 0xff) as u8
}

/// The effect of one decoded instruction on a machine whose counter already
/// stands past the instruction's words.  Operand values are resolved left
/// to right; a destination operand is resolved last, when the result is
/// written.  A fault applies no part of the effect: every check precedes
/// every mutation.
pub open spec fn spec_exec(s: VmSnap, inst: INSTRUCTION) -> VmSnap
    recommends
        s.wf(),
{
    match inst {
        INSTRUCTION::HALT => s.halted(),
        INSTRUCTION::SET(a, b) => match spec_value(s.regs, b) {
            Err(e) => s.faulted(e),
            Ok(v) => match spec_reg_idx(a) {
                Err(e) => s.faulted(e),
                Ok(i) => VmSnap { regs: s.regs.update(i as int, v), ..s },
            },
        },
        INSTRUCTION::PUSH(a) => match spec_value(s.regs, a) {
            Err(e) => s.faulted(e),
            Ok(v) => VmSnap { stack: s.stack.push(v), ..s },
        },
        INSTRUCTION::POP(a) => match spec_reg_idx(a) {
            Err(e) => s.faulted(e),
            Ok(i) => if s.stack.len() == 0 {
                s.faulted(VmError::StackUnderflow)
            } else {
                VmSnap {
                    regs: s.regs.update(i as int, s.stack.last()),
                    stack: s.stack.drop_last(),
                    ..s
                }
            },
        },
        INSTRUCTION::EQ(a, b, c) => match (spec_value(s.regs, b), spec_value(s.regs, c)) {
            (Err(e), _) => s.faulted(e),
            (Ok(_), Err(e)) => s.faulted(e),
            (Ok(vb), Ok(vc)) => match spec_reg_idx(a) {
                Err(e) => s.faulted(e),
                Ok(i) => VmSnap {
                    regs: s.regs.update(i as int, if vb == vc { 1u16 } else { 0u16 }),
                    ..s
                },
            },
        },
        INSTRUCTION::GT(a, b, c) => match (spec_value(s.regs, b), spec_value(s.regs, c)) {
            (Err(e), _) => s.faulted(e),
            (Ok(_), Err(e)) => s.faulted(e),
            (Ok(vb), Ok(vc)) => match spec_reg_idx(a) {
                Err(e) => s.faulted(e),
                Ok(i) => VmSnap {
                    regs: s.regs.update(i as int, if vb > vc { 1u16 } else { 0u16 }),
                    ..s
                },
            },
        },
        INSTRUCTION::JMP(a) => match spec_value(s.regs, a) {
            Err(e) => s.faulted(e),
            Ok(t) => s.with_pc(t as int),
        },
        INSTRUCTION::JT(a, b) => match spec_value(s.regs, a) {
            Err(e) => s.faulted(e),
            Ok(cond) => if cond != 0 {
                match spec_value(s.regs, b) {
                    Err(e) => s.faulted(e),
                    Ok(t) => s.with_pc(t as int),
                }
            } else {
                s
            },
        },
        INSTRUCTION::JF(a, b) => match spec_value(s.regs, a) {
            Err(e) => s.faulted(e),
            Ok(cond) => if cond == 0 {
                match spec_value(s.regs, b) {
                    Err(e) => s.faulted(e),
                    Ok(t) => s.with_pc(t as int),
                }
            } else {
                s
            },
        },
        INSTRUCTION::ADD(a, b, c) => match (spec_value(s.regs, b), spec_value(s.regs, c)) {
            (Err(e), _) => s.faulted(e),
            (Ok(_), Err(e)) => s.faulted(e),
            (Ok(vb), Ok(vc)) => match spec_reg_idx(a) {
                Err(e) => s.faulted(e),
                Ok(i) => VmSnap { regs: s.regs.update(i as int, add_w(vb, vc)), ..s },
            },
        },
        INSTRUCTION::MULT(a, b, c) => match (spec_value(s.regs, b), spec_value(s.regs, c)) {
            (Err(e), _) => s.faulted(e),
            (Ok(_), Err(e)) => s.faulted(e),
            (Ok(vb), Ok(vc)) => match spec_reg_idx(a) {
                Err(e) => s.faulted(e),
                Ok(i) => VmSnap { regs: s.regs.update(i as int, mult_w(vb, vc)), ..s },
            },
        },
        INSTRUCTION::MOD(a, b, c) => match (spec_value(s.regs, b), spec_value(s.regs, c)) {
            (Err(e), _) => s.faulted(e),
            (Ok(_), Err(e)) => s.faulted(e),
            (Ok(vb), Ok(vc)) => if vc == 0 {
                s.faulted(VmError::DivisionByZero)
            } else {
                match spec_reg_idx(a) {
                    Err(e) => s.faulted(e),
                    Ok(i) => VmSnap { regs: s.regs.update(i as int, mod_w(vb, vc)), ..s },
                }
            },
        },
        INSTRUCTION::AND(a, b, c) => match (spec_value(s.regs, b), spec_value(s.regs, c)) {
            (Err(e), _) => s.faulted(e),
            (Ok(_), Err(e)) => s.faulted(e),
            (Ok(vb), Ok(vc)) => match spec_reg_idx(a) {
                Err(e) => s.faulted(e),
                Ok(i) => VmSnap { regs: s.regs.update(i as int, and_w(vb, vc)), ..s },
            },
        },
        INSTRUCTION::OR(a, b, c) => match (spec_value(s.regs, b), spec_value(s.regs, c)) {
            (Err(e), _) => s.faulted(e),
            (Ok(_), Err(e)) => s.faulted(e),
            (Ok(vb), Ok(vc)) => match spec_reg_idx(a) {
                Err(e) => s.faulted(e),
                Ok(i) => VmSnap { regs: s.regs.update(i as int, or_w(vb, vc)), ..s },
            },
        },
        INSTRUCTION::NOT(a, b) => match spec_value(s.regs, b) {
            Err(e) => s.faulted(e),
            Ok(v) => match spec_reg_idx(a) {
                Err(e) => s.faulted(e),
                Ok(i) => VmSnap { regs: s.regs.update(i as int, not_w(v)), ..s },
            },
        },
        INSTRUCTION::RMEM(a, b) => match spec_value(s.regs, b) {
            Err(e) => s.faulted(e),
            Ok(addr) => match spec_read(s.heap, addr) {
                Err(e) => s.faulted(e),
                Ok(v) => match spec_reg_idx(a) {
                    Err(e) => s.faulted(e),
                    Ok(i) => VmSnap { regs: s.regs.update(i as int, v), ..s },
                },
            },
        },
        INSTRUCTION::WMEM(a, b) => match spec_value(s.regs, b) {
            Err(e) => s.faulted(e),
            Ok(v) => match spec_value(s.regs, a) {
                Err(e) => s.faulted(e),
                Ok(addr) => if (addr as int) < s.heap.len() {
                    VmSnap { heap: s.heap.update(addr as int, v), ..s }
                } else {
                    s.faulted(VmError::AddressOutOfBounds)
                },
            },
        },
        INSTRUCTION::CALL(a) => match spec_value(s.regs, a) {
            Err(e) => s.faulted(e),
            Ok(t) => VmSnap { stack: s.stack.push(s.pc as u16), pc: t as int, ..s },
        },
        INSTRUCTION::RET => if s.stack.len() == 0 {
            s.halted()
        } else {
            VmSnap { pc: s.stack.last() as int, stack: s.stack.drop_last(), ..s }
        },
        INSTRUCTION::OUT(a) => match spec_value(s.regs, a) {
            Err(e) => s.faulted(e),
            Ok(v) => VmSnap { output: s.output.push(low_byte(v)), ..s },
        },
        INSTRUCTION::IN(a) => match spec_reg_idx(a) {
            Err(e) => s.faulted(e),
            Ok(i) => if s.input.len() == 0 {
                s.faulted(VmError::InputExhausted)
            } else {
                VmSnap {
                    regs: s.regs.update(i as int, s.input[0] as u16),
                    input: s.input.skip(1),
                    ..s
                }
            },
        },
        INSTRUCTION::NOOP => s,
    }
}

/// One step of a running machine: decode at the counter, advance the
/// counter past the consumed words, then apply the instruction's effect.
/// A decode failure faults the machine where the failed read left the
/// counter.  A machine that is not running does not step.
pub open spec fn spec_step(s: VmSnap) -> VmSnap
    recommends
        s.wf(),
{
    if s.state is Running {
        let (d, pc2) = spec_decode(s.heap, s.pc);
        match d {
            Err(e) => s.with_pc(pc2).faulted(e),
            Ok(inst) => spec_exec(s.with_pc(pc2), inst),
        }
    } else {
        s
    }
}

/// What one step reports: the fault that ended the run, if it faulted.
pub open spec fn spec_step_result(s: VmSnap) -> Result<(), VmError> {
    match spec_step(s).state {
        RunState::Faulted(e) => Err(e),
        _ => Ok(()),
    }
}

/// Up to `n` steps: stepping stops early once the machine is no longer
/// running.
pub open spec fn spec_run(s: VmSnap, n: nat) -> VmSnap
    decreases n,
{
    if n == 0 {
        s
    } else if !(s.state is Running) {
        s
    } else {
        spec_run(spec_step(s), (n - 1) as nat)
    }
}

/// Running `m + n` steps is running `m`, then `n` from there.
pub proof fn lemma_run_add(s: VmSnap, m: nat, n: nat)
    ensures
        spec_run(s, m + n) == spec_run(spec_run(s, m), n),
    decreases m,
{
    if m == 0 {
    } else if !(s.state is Running) {
        lemma_run_add(s, (m - 1) as nat, n);
    } else {
        lemma_run_add(spec_step(s), (m - 1) as nat, n);
    }
}

/// What a bounded run reports: the fault that ended it, if it faulted.
pub open spec fn spec_run_result(s: VmSnap, n: nat) -> Result<(), VmError> {
    match spec_run(s, n).state {
        RunState::Faulted(e) => Err(e),
        _ => Ok(()),
    }
}

/// One virtual machine: its storage, its process, its run state, and the
/// input and output byte streams.
pub struct VM {
    memory: Memory,
    process: Process,
    state: RunState,
    input: Vec<u8>,
    in_pos: usize,
    output: Vec<u8>,
}

impl View for VM {
    type V = VmSnap;

    closed spec fn view(&self) -> VmSnap {
        VmSnap {
            heap: self.memory@.heap,
            regs: self.memory@.regs,
            stack: self.memory@.stack,
            pc: self.process.spec_addr(),
            state: self.state,
            input: self.input@.skip(self.in_pos as int),
            output: self.output@,
        }
    }
}

impl VM {
    /// The coupling between the fields; its details stay internal.
    pub closed spec fn inv(self) -> bool {
        &&& (self.state is Running <==> self.process.spec_running())
        &&& self.process.wf()
        &&& self.in_pos <= self.input@.len()
        &&& self.memory.wf()
    }

    /// A machine in good standing.
    pub open spec fn wf(self) -> bool {
        self.inv() && self@.wf()
    }

    /// A fresh machine: zeroed storage, counter at zero, ready to start,
    /// no input or output yet.
    pub fn new() -> (vm: VM)
        ensures
            vm.wf(),
            vm@.state is Ready,
            vm@.pc == 0,
            forall|i: int| 0 <= i < HEAP_SIZE ==> vm@.heap[i] == 0u16,
            forall|i: int| 0 <= i < NUM_REGISTERS ==> vm@.regs[i] == 0u16,
            vm@.stack == Seq::<u16>::empty(),
            vm@.input == Seq::<u8>::empty(),
            vm@.output == Seq::<u8>::empty(),
    {
        let vm = VM {
            memory: Memory::new(),
            process: Process::new(),
            state: RunState::Ready,
            input: Vec::new(),
            in_pos: 0,
            output: Vec::new(),
        };
        proof {
            assert(vm@.input =~= Seq::<u8>::empty());
        }
        vm
    }

    /// The run state.
    pub fn state(&self) -> (s: RunState)
        ensures
            s == self@.state,
    {
        self.state
    }

    /// The program counter.
    pub fn address(&self) -> (a: u16)
        requires
            self.wf(),
        ensures
            a as int == self@.pc,
    {
        self.process.address()
    }

    /// The bytes emitted so far, in program order.
    pub fn output(&self) -> (o: &Vec<u8>)
        ensures
            o@ == self@.output,
    {
        &self.output
    }

    /// Appends bytes to the pending input stream.
    pub fn feed_input(&mut self, bytes: &[u8])
        requires
            old(self).wf(),
        ensures
            final(self).wf(),
            final(self)@ == (VmSnap { input: old(self)@.input + bytes@, ..old(self)@ }),
    {
        let ghost orig = self@;
        let mut i: usize = 0;
        while i < bytes.len()
            invariant
                self.wf(),
                i <= bytes@.len(),
                self@ == (VmSnap { input: orig.input + bytes@.take(i as int), ..orig }),
            decreases bytes@.len() - i,
        {
            let ghost pre = self@;
            self.input.push(bytes[i]);
            proof {
                assert(self@.input =~= pre.input.push(bytes@[i as int]));
                assert(self@.input =~= orig.input + bytes@.take(i as int + 1));
                assert(self@ =~= (VmSnap {
                    input: orig.input + bytes@.take(i as int + 1),
                    ..orig
                }));
            }
            i = i + 1;
        }
        proof {
            assert(bytes@.take(bytes@.len() as int) =~= bytes@);
            assert(self@ =~= (VmSnap { input: orig.input + bytes@, ..orig }));
        }
    }

    /// Faults the machine with `e`; nothing but the run state changes.
    fn fault(&mut self, e: VmError) -> (r: Result<(), VmError>)
        requires
            old(self).wf(),
        ensures
            final(self).wf(),
            final(self)@ == old(self)@.faulted(e),
            r == Err::<(), VmError>(e),
    {
        self.process.stop();
        self.state = RunState::Faulted(e);
        Err(e)
    }

    /// A bounds-checked heap read.
    fn read(&self, address: u16) -> (r: Result<u16, VmError>)
        requires
            self.wf(),
        ensures
            r == spec_read(self@.heap, address),
    {
        self.memory.read(address)
    }

    /// Reads the heap word under the counter and advances past it; a read
    /// at or past the heap bound is out of bounds and moves nothing.
    fn read_and_increment(&mut self) -> (r: Result<u16, VmError>)
        requires
            old(self).wf(),
        ensures
            final(self).wf(),
            old(self)@.pc < HEAP_SIZE ==> r == Ok::<u16, VmError>(
                old(self)@.heap[old(self)@.pc],
            ) && final(self)@ == old(self)@.with_pc(old(self)@.pc + 1),
            old(self)@.pc >= HEAP_SIZE ==> r == Err::<u16, VmError>(VmError::AddressOutOfBounds)
                && final(self)@ == old(self)@,
    {
        let address = self.process.address();
        match self.read(address) {
            Ok(value) => {
                self.process.jump_to_next();
                proof {
                    assert(self@ =~= old(self)@.with_pc(old(self)@.pc + 1));
                }
                Ok(value)
            },
            Err(e) => {
                proof {
                    assert(self@ =~= old(self)@);
                }
                Err(e)
            },
        }
    }

    /// Decodes the instruction under the counter, advancing the counter
    /// past the consumed words; nothing else changes.  Result and final
    /// counter are exactly those of `spec_decode` on the old heap and
    /// counter: decoding is deterministic and side-effect free.
    fn read_instruction(&mut self) -> (r: Result<INSTRUCTION, VmError>)
        requires
            old(self).wf(),
        ensures
            final(self).wf(),
            r == spec_decode(old(self)@.heap, old(self)@.pc).0,
            final(self)@ == old(self)@.with_pc(spec_decode(old(self)@.heap, old(self)@.pc).1),
    {
        let opcode = match self.read_and_increment() {
            Ok(w) => w,
            Err(e) => {
                proof {
                    assert(self@ =~= old(self)@.with_pc(old(self)@.pc));
                }
                return Err(e);
            },
        };
        match opcode {
            0 => Ok(INSTRUCTION::HALT),
            1 => {
                let a = match self.read_and_increment() {
                    Ok(w) => w,
                    Err(e) => {
                        return Err(e);
                    },
                };
                let b = match self.read_and_increment() {
                    Ok(w) => w,
                    Err(e) => {
                        return Err(e);
                    },
                };
                Ok(INSTRUCTION::SET(a, b))
            },
            2 => {
                let a = match self.read_and_increment() {
                    Ok(w) => w,
                    Err(e) => {
                        return Err(e);
                    },
                };
                Ok(INSTRUCTION::PUSH(a))
            },
            3 => {
                let a = match self.read_and_increment() {
                    Ok(w) => w,
                    Err(e) => {
                        return Err(e);
                    },
                };
                Ok(INSTRUCTION::POP(a))
            },
            4 => {
                let a = match self.read_and_increment() {
                    Ok(w) => w,
                    Err(e) => {
                        return Err(e);
                    },
                };
                let b = match self.read_and_increment() {
                    Ok(w) => w,
                    Err(e) => {
                        return Err(e);
                    },
                };
                let c = match self.read_and_increment() {
                    Ok(w) => w,
                    Err(e) => {
                        return Err(e);
                    },
                };
                Ok(INSTRUCTION::EQ(a, b, c))
            },
            5 => {
                let a = match self.read_and_increment() {
                    Ok(w) => w,
                    Err(e) => {
                        return Err(e);
                    },
                };
                let b = match self.read_and_increment() {
                    Ok(w) => w,
                    Err(e) => {
                        return Err(e);
                    },
                };
                let c = match self.read_and_increment() {
                    Ok(w) => w,
                    Err(e) => {
                        return Err(e);
                    },
                };
                Ok(INSTRUCTION::GT(a, b, c))
            },
            6 => {
                let a = match self.read_and_increment() {
                    Ok(w) => w,
                    Err(e) => {
                        return Err(e);
                    },
                };
                Ok(INSTRUCTION::JMP(a))
            },
            7 => {
                let a = match self.read_and_increment() {
                    Ok(w) => w,
                    Err(e) => {
                        return Err(e);
                    },
                };
                let b = match self.read_and_increment() {
                    Ok(w) => w,
                    Err(e) => {
                        return Err(e);
                    },
                };
                Ok(INSTRUCTION::JT(a, b))
            },
            8 => {
                let a = match self.read_and_increment() {
                    Ok(w) => w,
                    Err(e) => {
                        return Err(e);
                    },
                };
                let b = match self.read_and_increment() {
                    Ok(w) => w,
                    Err(e) => {
                        return Err(e);
                    },
                };
                Ok(INSTRUCTION::JF(a, b))
            },
            9 => {
                let a = match self.read_and_increment() {
                    Ok(w) => w,
                    Err(e) => {
                        return Err(e);
                    },
                };
                let b = match self.read_and_increment() {
                    Ok(w) => w,
                    Err(e) => {
                        return Err(e);
                    },
                };
                let c = match self.read_and_increment() {
                    Ok(w) => w,
                    Err(e) => {
                        return Err(e);
                    },
                };
                Ok(INSTRUCTION::ADD(a, b, c))
            },
            10 => {
                let a = match self.read_and_increment() {
                    Ok(w) => w,
                    Err(e) => {
                        return Err(e);
                    },
                };
                let b = match self.read_and_increment() {
                    Ok(w) => w,
                    Err(e) => {
                        return Err(e);
                    },
                };
                let c = match self.read_and_increment() {
                    Ok(w) => w,
                    Err(e) => {
                        return Err(e);
                    },
                };
                Ok(INSTRUCTION::MULT(a, b, c))
            },
            11 => {
                let a = match self.read_and_increment() {
                    Ok(w) => w,
                    Err(e) => {
                        return Err(e);
                    },
                };
                let b = match self.read_and_increment() {
                    Ok(w) => w,
                    Err(e) => {
                        return Err(e);
                    },
                };
                let c = match self.read_and_increment() {
                    Ok(w) => w,
                    Err(e) => {
                        return Err(e);
                    },
                };
                Ok(INSTRUCTION::MOD(a, b, c))
            },
            12 => {
                let a = match self.read_and_increment() {
                    Ok(w) => w,
                    Err(e) => {
                        return Err(e);
                    },
                };
                let b = match self.read_and_increment() {
                    Ok(w) => w,
                    Err(e) => {
                        return Err(e);
                    },
                };
                let c = match self.read_and_increment() {
                    Ok(w) => w,
                    Err(e) => {
                        return Err(e);
                    },
                };
                Ok(INSTRUCTION::AND(a, b, c))
            },
            13 => {
                let a = match self.read_and_increment() {
                    Ok(w) => w,
                    Err(e) => {
                        return Err(e);
                    },
                };
                let b = match self.read_and_increment() {
                    Ok(w) => w,
                    Err(e) => {
                        return Err(e);
                    },
                };
                let c = match self.read_and_increment() {
                    Ok(w) => w,
                    Err(e) => {
                        return Err(e);
                    },
                };
                Ok(INSTRUCTION::OR(a, b, c))
            },
            14 => {
                let a = match self.read_and_increment() {
                    Ok(w) => w,
                    Err(e) => {
                        return Err(e);
                    },
                };
                let b = match self.read_and_increment() {
                    Ok(w) => w,
                    Err(e) => {
                        return Err(e);
                    },
                };
                Ok(INSTRUCTION::NOT(a, b))
            },
            15 => {
                let a = match self.read_and_increment() {
                    Ok(w) => w,
                    Err(e) => {
                        return Err(e);
                    },
                };
                let b = match self.read_and_increment() {
                    Ok(w) => w,
                    Err(e) => {
                        return Err(e);
                    },
                };
                Ok(INSTRUCTION::RMEM(a, b))
            },
            16 => {
                let a = match self.read_and_increment() {
                    Ok(w) => w,
                    Err(e) => {
                        return Err(e);
                    },
                };
                let b = match self.read_and_increment() {
                    Ok(w) => w,
                    Err(e) => {
                        return Err(e);
                    },
                };
                Ok(INSTRUCTION::WMEM(a, b))
            },
            17 => {
                let a = match self.read_and_increment() {
                    Ok(w) => w,
                    Err(e) => {
                        return Err(e);
                    },
                };
                Ok(INSTRUCTION::CALL(a))
            },
            18 => Ok(INSTRUCTION::RET),
            19 => {
                let a = match self.read_and_increment() {
                    Ok(w) => w,
                    Err(e) => {
                        return Err(e);
                    },
                };
                Ok(INSTRUCTION::OUT(a))
            },
            20 => {
                let a = match self.read_and_increment() {
                    Ok(w) => w,
                    Err(e) => {
                        return Err(e);
                    },
                };
                Ok(INSTRUCTION::IN(a))
            },
            21 => Ok(INSTRUCTION::NOOP),
            _ => Err(VmError::UnknownOpcode(opcode)),
        }
    }

    /// Performs one fetch-decode-execute step: exactly [`spec_step`] on the
    /// machine's state.  A machine that is not running is left untouched.
    /// The result reports the fault that ended the run, if this step
    /// faulted; a clean halt is not an error.
    pub fn next_instruction(&mut self) -> (r: Result<(), VmError>)
        requires
            old(self).wf(),
        ensures
            final(self).wf(),
            old(self)@.state is Running ==> final(self)@ == spec_step(old(self)@) && r
                == spec_step_result(old(self)@),
            !(old(self)@.state is Running) ==> final(self)@ == old(self)@ && r == Ok::<
                (),
                VmError,
            >(()),
    {
        match self.state {
            RunState::Running => {},
            _ => {
                return Ok(());
            },
        }
        let inst = match self.read_instruction() {
            Ok(inst) => inst,
            Err(e) => {
                return self.fault(e);
            },
        };
        match inst {
            INSTRUCTION::HALT => {
                self.process.stop();
                self.state = RunState::Halted;
                Ok(())
            },
            INSTRUCTION::SET(a, b) => {
                let v = match self.memory.value(b) {
                    Ok(v) => v,
                    Err(e) => {
                        return self.fault(e);
                    },
                };
                let i = match resolve_register_index(a) {
                    Ok(i) => i,
                    Err(e) => {
                        return self.fault(e);
                    },
                };
                let _ = self.memory.write_register(i, v);
                Ok(())
            },
            INSTRUCTION::PUSH(a) => {
                let v = match self.memory.value(a) {
                    Ok(v) => v,
                    Err(e) => {
                        return self.fault(e);
                    },
                };
                self.memory.push_stack(v);
                Ok(())
            },
            INSTRUCTION::POP(a) => {
                let i = match resolve_register_index(a) {
                    Ok(i) => i,
                    Err(e) => {
                        return self.fault(e);
                    },
                };
                let v = match self.memory.pop_stack() {
                    Ok(v) => v,
                    Err(e) => {
                        return self.fault(e);
                    },
                };
                let _ = self.memory.write_register(i, v);
                Ok(())
            },
            INSTRUCTION::EQ(a, b, c) => {
                let vb = match self.memory.value(b) {
                    Ok(v) => v,
                    Err(e) => {
                        return self.fault(e);
                    },
                };
                let vc = match self.memory.value(c) {
                    Ok(v) => v,
                    Err(e) => {
                        return self.fault(e);
                    },
                };
                let i = match resolve_register_index(a) {
                    Ok(i) => i,
                    Err(e) => {
                        return self.fault(e);
                    },
                };
                let v: u16 = if vb == vc {
                    1
                } else {
                    0
                };
                let _ = self.memory.write_register(i, v);
                Ok(())
            },
            INSTRUCTION::GT(a, b, c) => {
                let vb = match self.memory.value(b) {
                    Ok(v) => v,
                    Err(e) => {
                        return self.fault(e);
                    },
                };
                let vc = match self.memory.value(c) {
                    Ok(v) => v,
                    Err(e) => {
                        return self.fault(e);
                    },
                };
                let i = match resolve_register_index(a) {
                    Ok(i) => i,
                    Err(e) => {
                        return self.fault(e);
                    },
                };
                let v: u16 = if vb > vc {
                    1
                } else {
                    0
                };
                let _ = self.memory.write_register(i, v);
                Ok(())
            },
            INSTRUCTION::JMP(a) => {
                let t = match self.memory.value(a) {
                    Ok(v) => v,
                    Err(e) => {
                        return self.fault(e);
                    },
                };
                self.process.jump_to(t);
                Ok(())
            },
            INSTRUCTION::JT(a, b) => {
                let cond = match self.memory.value(a) {
                    Ok(v) => v,
                    Err(e) => {
                        return self.fault(e);
                    },
                };
                if cond != 0 {
                    let t = match self.memory.value(b) {
                        Ok(v) => v,
                        Err(e) => {
                            return self.fault(e);
                        },
                    };
                    self.process.jump_to(t);
                }
                Ok(())
            },
            INSTRUCTION::JF(a, b) => {
                let cond = match self.memory.value(a) {
                    Ok(v) => v,
                    Err(e) => {
                        return self.fault(e);
                    },
                };
                if cond == 0 {
                    let t = match self.memory.value(b) {
                        Ok(v) => v,
                        Err(e) => {
                            return self.fault(e);
                        },
                    };
                    self.process.jump_to(t);
                }
                Ok(())
            },
            INSTRUCTION::ADD(a, b, c) => {
                let vb = match self.memory.value(b) {
                    Ok(v) => v,
                    Err(e) => {
                        return self.fault(e);
                    },
                };
                let vc = match self.memory.value(c) {
                    Ok(v) => v,
                    Err(e) => {
                        return self.fault(e);
                    },
                };
                let i = match resolve_register_index(a) {
                    Ok(i) => i,
                    Err(e) => {
                        return self.fault(e);
                    },
                };
                let v = (((vb as u32) + (vc as u32)) % 32768) as u16;
                proof {
                    assert(v == add_w(vb, vc));
                }
                let _ = self.memory.write_register(i, v);
                Ok(())
            },
            INSTRUCTION::MULT(a, b, c) => {
                let vb = match self.memory.value(b) {
                    Ok(v) => v,
                    Err(e) => {
                        return self.fault(e);
                    },
                };
                let vc = match self.memory.value(c) {
                    Ok(v) => v,
                    Err(e) => {
                        return self.fault(e);
                    },
                };
                let i = match resolve_register_index(a) {
                    Ok(i) => i,
                    Err(e) => {
                        return self.fault(e);
                    },
                };
                proof {
                    assert((vb as int) * (vc as int) <= 0xFFFF * 0xFFFF) by (nonlinear_arith)
                        requires
                            vb <= 0xFFFF,
                            vc <= 0xFFFF,
                    ;
                }
                let v = (((vb as u32) * (vc as u32)) % 32768) as u16;
                proof {
                    assert(v == mult_w(vb, vc));
                }
                let _ = self.memory.write_register(i, v);
                Ok(())
            },
            INSTRUCTION::MOD(a, b, c) => {
                let vb = match self.memory.value(b) {
                    Ok(v) => v,
                    Err(e) => {
                        return self.fault(e);
                    },
                };
                let vc = match self.memory.value(c) {
                    Ok(v) => v,
                    Err(e) => {
                        return self.fault(e);
                    },
                };
                if vc == 0 {
                    return self.fault(VmError::DivisionByZero);
                }
                let i = match resolve_register_index(a) {
                    Ok(i) => i,
                    Err(e) => {
                        return self.fault(e);
                    },
                };
                let v = vb % vc;
                let _ = self.memory.write_register(i, v);
                Ok(())
            },
            INSTRUCTION::AND(a, b, c) => {
                let vb = match self.memory.value(b) {
                    Ok(v) => v,
                    Err(e) => {
                        return self.fault(e);
                    },
                };
                let vc = match self.memory.value(c) {
                    Ok(v) => v,
                    Err(e) => {
                        return self.fault(e);
                    },
                };
                let i = match resolve_register_index(a) {
                    Ok(i) => i,
                    Err(e) => {
                        return self.fault(e);
                    },
                };
                let v = (vb & vc) & 0x7fff;
                let _ = self.memory.write_register(i, v);
                Ok(())
            },
            INSTRUCTION::OR(a, b, c) => {
                let vb = match self.memory.value(b) {
                    Ok(v) => v,
                    Err(e) => {
                        return self.fault(e);
                    },
                };
                let vc = match self.memory.value(c) {
                    Ok(v) => v,
                    Err(e) => {
                        return self.fault(e);
                    },
                };
                let i = match resolve_register_index(a) {
                    Ok(i) => i,
                    Err(e) => {
                        return self.fault(e);
                    },
                };
                let v = (vb | vc) & 0x7fff;
                let _ = self.memory.write_register(i, v);
                Ok(())
            },
            INSTRUCTION::NOT(a, b) => {
                let vb = match self.memory.value(b) {
                    Ok(v) => v,
                    Err(e) => {
                        return self.fault(e);
                    },
                };
                let i = match resolve_register_index(a) {
                    Ok(i) => i,
                    Err(e) => {
                        return self.fault(e);
                    },
                };
                let v = (vb ^ 0x7fff) & 0x7fff;
                let _ = self.memory.write_register(i, v);
                Ok(())
            },
            INSTRUCTION::RMEM(a, b) => {
                let addr = match self.memory.value(b) {
                    Ok(v) => v,
                    Err(e) => {
                        return self.fault(e);
                    },
                };
                let v = match self.memory.read(addr) {
                    Ok(v) => v,
                    Err(e) => {
                        return self.fault(e);
                    },
                };
                let i = match resolve_register_index(a) {
                    Ok(i) => i,
                    Err(e) => {
                        return self.fault(e);
                    },
                };
                let _ = self.memory.write_register(i, v);
                Ok(())
            },
            INSTRUCTION::WMEM(a, b) => {
                let v = match self.memory.value(b) {
                    Ok(v) => v,
                    Err(e) => {
                        return self.fault(e);
                    },
                };
                let addr = match self.memory.value(a) {
                    Ok(v) => v,
                    Err(e) => {
                        return self.fault(e);
                    },
                };
                match self.memory.write(addr, v) {
                    Ok(_) => Ok(()),
                    Err(e) => {
                        return self.fault(e);
                    },
                }
            },
            INSTRUCTION::CALL(a) => {
                let t = match self.memory.value(a) {
                    Ok(v) => v,
                    Err(e) => {
                        return self.fault(e);
                    },
                };
                let ret_addr = self.process.address();
                self.memory.push_stack(ret_addr);
                self.process.jump_to(t);
                Ok(())
            },
            INSTRUCTION::RET => {
                match self.memory.pop_stack() {
                    Ok(addr) => {
                        self.process.jump_to(addr);
                        Ok(())
                    },
                    Err(_) => {
                        self.process.stop();
                        self.state = RunState::Halted;
                        Ok(())
                    },
                }
            },
            INSTRUCTION::OUT(a) => {
                let v = match self.memory.value(a) {
                    Ok(v) => v,
                    Err(e) => {
                        return self.fault(e);
                    },
                };
                self.output.push((v & 0xff) as u8);
                Ok(())
            },
            INSTRUCTION::IN(a) => {
                let i = match resolve_register_index(a) {
                    Ok(i) => i,
                    Err(e) => {
                        return self.fault(e);
                    },
                };
                if self.in_pos >= self.input.len() {
                    return self.fault(VmError::InputExhausted);
                }
                let ghost pre = self@;
                let byte = self.input[self.in_pos];
                self.in_pos = self.in_pos + 1;
                proof {
                    assert(self@.input =~= pre.input.skip(1));
                }
                let _ = self.memory.write_register(i, byte as u16);
                Ok(())
            },
            INSTRUCTION::NOOP => Ok(()),
        }
    }

    /// Decodes a byte image, loads it at the bottom of the heap, starts the
    /// machine, and steps it until it halts, faults, or `max_steps` steps
    /// have run.  An odd byte length or an image larger than the heap is
    /// malformed and leaves the machine untouched.  The result reports the
    /// fault that ended the run; a clean halt — and a run still going when
    /// the step budget ends — is not an error.
    pub fn execute(&mut self, raw: &[u8], max_steps: u64) -> (r: Result<(), VmError>)
        requires
            old(self).wf(),
            old(self)@.state is Ready,
        ensures
            final(self).wf(),
            raw@.len() % 2 != 0 ==> r == Err::<(), VmError>(VmError::MalformedImage)
                && final(self)@ == old(self)@,
            raw@.len() % 2 == 0 && spec_words(raw@).len() > HEAP_SIZE ==> r == Err::<
                (),
                VmError,
            >(VmError::MalformedImage) && final(self)@ == old(self)@,
            raw@.len() % 2 == 0 && spec_words(raw@).len() <= HEAP_SIZE ==> final(self)@
                == spec_run(
                (VmSnap {
                    heap: spec_load(old(self)@.heap, spec_words(raw@)),
                    state: RunState::Running,
                    ..old(self)@
                }),
                max_steps as nat,
            ) && r == spec_run_result(
                (VmSnap {
                    heap: spec_load(old(self)@.heap, spec_words(raw@)),
                    state: RunState::Running,
                    ..old(self)@
                }),
                max_steps as nat,
            ),
    {
        let data = match from_hex_slice(raw) {
            Ok(d) => d,
            Err(e) => {
                return Err(e);
            },
        };
        match self.memory.load(data.as_slice()) {
            Ok(_) => {},
            Err(e) => {
                proof {
                    assert(self@ =~= old(self)@);
                }
                return Err(e);
            },
        }
        self.process.start();
        self.state = RunState::Running;
        let ghost s0 = VmSnap {
            heap: spec_load(old(self)@.heap, spec_words(raw@)),
            state: RunState::Running,
            ..old(self)@
        };
        proof {
            assert(self@ =~= s0);
        }
        let mut steps: u64 = 0;
        while steps < max_steps && self.state == RunState::Running
            invariant
                self.wf(),
                steps <= max_steps,
                self@ == spec_run(s0, steps as nat),
            decreases max_steps - steps,
        {
            let ghost pre = self@;
            let _ = self.next_instruction();
            proof {
                lemma_run_add(s0, steps as nat, 1);
                assert(spec_run(pre, 1) == spec_run(spec_step(pre), 0));
                assert(spec_run(spec_step(pre), 0) == spec_step(pre));
            }
            steps = steps + 1;
        }
        proof {
            lemma_run_add(s0, steps as nat, (max_steps - steps) as nat);
        }
        match self.state {
            RunState::Faulted(e) => Err(e),
            _ => Ok(()),
        }
    }
}

/// For register values x and y below 32768: the sum and the product land
/// back in 0..=32767 after the modulo reduction, and so does the 15-bit
/// complement.
pub proof fn lemma_arith_results_in_range(x: u16, y: u16)
    requires
        x <= 32767,
        y <= 32767,
    ensures
        add_w(x, y) <= 32767,
        mult_w(x, y) <= 32767,
        not_w(x) <= 32767,
{
    assert((x as int) * (y as int) >= 0) by (nonlinear_arith)
        requires
            x >= 0,
            y >= 0,
    ;
    assert(((x ^ 0x7fff) & 0x7fff) <= 32767) by (bit_vector);
}

/// A call, then a return: CALL pushes the address of the instruction after
/// itself and transfers to its target; a RET decoded there transfers right
/// back, resuming at the instruction immediately following the CALL, with
/// the stack as it was.
pub proof fn lemma_call_ret_resumes(s: VmSnap, a: u16, npc: int, target: u16)
    requires
        s.wf(),
        s.state is Running,
        spec_decode(s.heap, s.pc) == (Ok::<INSTRUCTION, VmError>(INSTRUCTION::CALL(a)), npc),
        spec_value(s.regs, a) == Ok::<u16, VmError>(target),
        spec_decode(s.heap, target as int).0 == Ok::<INSTRUCTION, VmError>(INSTRUCTION::RET),
    ensures
        spec_step(s).state is Running,
        spec_step(spec_step(s)).state is Running,
        spec_step(spec_step(s)).pc == npc,
        spec_step(spec_step(s)).stack == s.stack,
        spec_step(spec_step(s)).regs == s.regs,
        spec_step(spec_step(s)).heap == s.heap,
{
    let s1 = spec_step(s);
    assert(s1.stack =~= s.stack.push(npc as u16));
    let s2 = spec_step(s1);
    assert(s2.stack =~= s.stack);
}

/// JT with a nonzero condition always sets the counter to the target; with
/// a zero condition it leaves the counter merely advanced past the
/// instruction.
pub proof fn lemma_jt_branches(s: VmSnap, a: u16, b: u16, npc: int, cond: u16, target: u16)
    requires
        s.wf(),
        s.state is Running,
        spec_decode(s.heap, s.pc) == (Ok::<INSTRUCTION, VmError>(INSTRUCTION::JT(a, b)), npc),
        spec_value(s.regs, a) == Ok::<u16, VmError>(cond),
        spec_value(s.regs, b) == Ok::<u16, VmError>(target),
    ensures
        spec_step(s).state is Running,
        cond != 0 ==> spec_step(s).pc == target as int,
        cond == 0 ==> spec_step(s).pc == npc,
{
}

/// JF with a zero condition always sets the counter to the target; with a
/// nonzero condition it leaves the counter merely advanced past the
/// instruction.
pub proof fn lemma_jf_branches(s: VmSnap, a: u16, b: u16, npc: int, cond: u16, target: u16)
    requires
        s.wf(),
        s.state is Running,
        spec_decode(s.heap, s.pc) == (Ok::<INSTRUCTION, VmError>(INSTRUCTION::JF(a, b)), npc),
        spec_value(s.regs, a) == Ok::<u16, VmError>(cond),
        spec_value(s.regs, b) == Ok::<u16, VmError>(target),
    ensures
        spec_step(s).state is Running,
        cond == 0 ==> spec_step(s).pc == target as int,
        cond != 0 ==> spec_step(s).pc == npc,
{
}

} // verus!
