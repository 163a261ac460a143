//! A program image with a read cursor: words are consumed one at a time and
//! decoded into instructions, without a surrounding machine.

use vstd::prelude::*;

use crate::error::VmError;
use crate::inst::{spec_decode, INSTRUCTION};
use crate::mem::HEAP_SIZE;

verus! {

/// An executable image: its words, a cursor, and a run flag.
pub struct Executable {
    data: Vec<u16>,
    ptr: usize,
    running: bool,
}

impl Executable {
    /// The image's words.
    pub closed spec fn code(self) -> Seq<u16> {
        self.data@
    }

    /// The cursor: the position of the next word to read.
    pub closed spec fn pos(self) -> int {
        self.ptr as int
    }

    /// Whether the image is still being executed.
    pub closed spec fn spec_running(self) -> bool {
        self.running
    }

    /// The image fits the heap, and the cursor never runs past the end.
    pub open spec fn wf(self) -> bool {
        self.code().len() <= HEAP_SIZE && 0 <= self.pos() <= self.code().len()
    }

    /// Wraps an image, cursor at its start, running.  An image with more
    /// words than the heap holds is malformed.
    pub fn new(data: Vec<u16>) -> (r: Result<Executable, VmError>)
        ensures
            data@.len() <= HEAP_SIZE ==> (r matches Ok(e) && e.wf() && e.code() == data@
                && e.pos() == 0 && e.spec_running()),
            data@.len() > HEAP_SIZE ==> r == Err::<Executable, VmError>(VmError::MalformedImage),
    {
        if data.len() > HEAP_SIZE {
            return Err(VmError::MalformedImage);
        }
        Ok(Executable { data, ptr: 0, running: true })
    }

    /// Whether the image is still being executed.
    pub fn is_running(&self) -> (b: bool)
        ensures
            b == self.spec_running(),
    {
        self.running
    }

    /// Marks the execution stopped; nothing else changes.
    pub fn stop(&mut self)
        ensures
            !final(self).spec_running(),
            final(self).code() == old(self).code(),
            final(self).pos() == old(self).pos(),
            final(self).wf() == old(self).wf(),
    {
        self.running = false;
    }

    /// Moves the cursor to an address inside the image; an address at or
    /// past the end is out of bounds and changes nothing.
    pub fn jump_to(&mut self, address: u16) -> (r: Result<(), VmError>)
        requires
            old(self).wf(),
        ensures
            final(self).wf(),
            final(self).code() == old(self).code(),
            final(self).spec_running() == old(self).spec_running(),
            (address as int) < old(self).code().len() ==> r == Ok::<(), VmError>(())
                && final(self).pos() == address as int,
            (address as int) >= old(self).code().len() ==> r == Err::<(), VmError>(
                VmError::AddressOutOfBounds,
            ) && final(self).pos() == old(self).pos(),
    {
        if (address as usize) >= self.data.len() {
            return Err(VmError::AddressOutOfBounds);
        }
        self.ptr = address as usize;
        Ok(())
    }

    /// The cursor's current position.
    pub fn current_address(&self) -> (a: u16)
        requires
            self.wf(),
        ensures
            a as int == self.pos(),
    {
        self.ptr as u16
    }

    /// Reads the word under the cursor and advances past it; at the end of
    /// the image the read is out of bounds and the cursor stays.
    pub fn next(&mut self) -> (r: Result<u16, VmError>)
        requires
            old(self).wf(),
        ensures
            final(self).wf(),
            final(self).code() == old(self).code(),
            final(self).spec_running() == old(self).spec_running(),
            old(self).pos() < old(self).code().len() ==> r == Ok::<u16, VmError>(
                old(self).code()[old(self).pos()],
            ) && final(self).pos() == old(self).pos() + 1,
            old(self).pos() >= old(self).code().len() ==> r == Err::<u16, VmError>(
                VmError::AddressOutOfBounds,
            ) && final(self).pos() == old(self).pos(),
    {
        if self.ptr >= self.data.len() {
            return Err(VmError::AddressOutOfBounds);
        }
        let number = self.data[self.ptr];
        self.ptr = self.ptr + 1;
        Ok(number)
    }

    /// Reads the next two words.
    fn next_two(&mut self) -> (r: Result<(u16, u16), VmError>)
        requires
            old(self).wf(),
        ensures
            final(self).wf(),
            final(self).code() == old(self).code(),
            final(self).spec_running() == old(self).spec_running(),
            old(self).pos() + 1 < old(self).code().len() ==> r == Ok::<(u16, u16), VmError>(
                (old(self).code()[old(self).pos()], old(self).code()[old(self).pos() + 1]),
            ) && final(self).pos() == old(self).pos() + 2,
            old(self).pos() + 1 >= old(self).code().len() ==> r == Err::<(u16, u16), VmError>(
                VmError::AddressOutOfBounds,
            ) && final(self).pos() == old(self).code().len(),
    {
        let a = match self.next() {
            Ok(w) => w,
            Err(e) => {
                return Err(e);
            },
        };
        let b = match self.next() {
            Ok(w) => w,
            Err(e) => {
                return Err(e);
            },
        };
        Ok((a, b))
    }

    /// Reads the next three words.
    fn next_three(&mut self) -> (r: Result<(u16, u16, u16), VmError>)
        requires
            old(self).wf(),
        ensures
            final(self).wf(),
            final(self).code() == old(self).code(),
            final(self).spec_running() == old(self).spec_running(),
            old(self).pos() + 2 < old(self).code().len() ==> r == Ok::<(u16, u16, u16), VmError>(
                (
                    old(self).code()[old(self).pos()],
                    old(self).code()[old(self).pos() + 1],
                    old(self).code()[old(self).pos() + 2],
                ),
            ) && final(self).pos() == old(self).pos() + 3,
            old(self).pos() + 2 >= old(self).code().len() ==> r == Err::<
                (u16, u16, u16),
                VmError,
            >(VmError::AddressOutOfBounds) && final(self).pos() == old(self).code().len(),
    {
        let a = match self.next() {
            Ok(w) => w,
            Err(e) => {
                return Err(e);
            },
        };
        let b = match self.next() {
            Ok(w) => w,
            Err(e) => {
                return Err(e);
            },
        };
        let c = match self.next() {
            Ok(w) => w,
            Err(e) => {
                return Err(e);
            },
        };
        Ok((a, b, c))
    }

    /// Decodes the instruction under the cursor and advances past its
    /// words.  The result and the final cursor are exactly those of
    /// `spec_decode` on the image and the old cursor: decoding the same
    /// position of the same image always yields the same instruction.
    pub fn next_instruction(&mut self) -> (r: Result<INSTRUCTION, VmError>)
        requires
            old(self).wf(),
        ensures
            final(self).wf(),
            final(self).code() == old(self).code(),
            final(self).spec_running() == old(self).spec_running(),
            r == spec_decode(old(self).code(), old(self).pos()).0,
            final(self).pos() == spec_decode(old(self).code(), old(self).pos()).1,
    {
        let opcode = match self.next() {
            Ok(w) => w,
            Err(e) => {
                return Err(e);
            },
        };
        match opcode {
            0 => Ok(INSTRUCTION::HALT),
            1 => match self.next_two() {
                Ok((a, b)) => Ok(INSTRUCTION::SET(a, b)),
                Err(e) => Err(e),
            },
            2 => match self.next() {
                Ok(a) => Ok(INSTRUCTION::PUSH(a)),
                Err(e) => Err(e),
            },
            3 => match self.next() {
                Ok(a) => Ok(INSTRUCTION::POP(a)),
                Err(e) => Err(e),
            },
            4 => match self.next_three() {
                Ok((a, b, c)) => Ok(INSTRUCTION::EQ(a, b, c)),
                Err(e) => Err(e),
            },
            5 => match self.next_three() {
                Ok((a, b, c)) => Ok(INSTRUCTION::GT(a, b, c)),
                Err(e) => Err(e),
            },
            6 => match self.next() {
                Ok(a) => Ok(INSTRUCTION::JMP(a)),
                Err(e) => Err(e),
            },
            7 => match self.next_two() {
                Ok((a, b)) => Ok(INSTRUCTION::JT(a, b)),
                Err(e) => Err(e),
            },
            8 => match self.next_two() {
                Ok((a, b)) => Ok(INSTRUCTION::JF(a, b)),
                Err(e) => Err(e),
            },
            9 => match self.next_three() {
                Ok((a, b, c)) => Ok(INSTRUCTION::ADD(a, b, c)),
                Err(e) => Err(e),
            },
            10 => match self.next_three() {
                Ok((a, b, c)) => Ok(INSTRUCTION::MULT(a, b, c)),
                Err(e) => Err(e),
            },
            11 => match self.next_three() {
                Ok((a, b, c)) => Ok(INSTRUCTION::MOD(a, b, c)),
                Err(e) => Err(e),
            },
            12 => match self.next_three() {
                Ok((a, b, c)) => Ok(INSTRUCTION::AND(a, b, c)),
                Err(e) => Err(e),
            },
            13 => match self.next_three() {
                Ok((a, b, c)) => Ok(INSTRUCTION::OR(a, b, c)),
                Err(e) => Err(e),
            },
            14 => match self.next_two() {
                Ok((a, b)) => Ok(INSTRUCTION::NOT(a, b)),
                Err(e) => Err(e),
            },
            15 => match self.next_two() {
                Ok((a, b)) => Ok(INSTRUCTION::RMEM(a, b)),
                Err(e) => Err(e),
            },
            16 => match self.next_two() {
                Ok((a, b)) => Ok(INSTRUCTION::WMEM(a, b)),
                Err(e) => Err(e),
            },
            17 => match self.next() {
                Ok(a) => Ok(INSTRUCTION::CALL(a)),
                Err(e) => Err(e),
            },
            18 => Ok(INSTRUCTION::RET),
            19 => match self.next() {
                Ok(a) => Ok(INSTRUCTION::OUT(a)),
                Err(e) => Err(e),
            },
            20 => match self.next() {
                Ok(a) => Ok(INSTRUCTION::IN(a)),
                Err(e) => Err(e),
            },
            21 => Ok(INSTRUCTION::NOOP),
            _ => Err(VmError::UnknownOpcode(opcode)),
        }
    }
}

} // verus!
