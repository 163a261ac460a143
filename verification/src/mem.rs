//! The machine's storage: a 32768-word heap, 8 registers, and an unbounded
//! LIFO stack, all zero- or empty-initialized and owned by one machine.

use vstd::prelude::*;

use crate::error::VmError;

verus! {

/// Number of words in the heap; heap addresses run 0..32768.
pub const HEAP_SIZE: usize = 32768;

/// Number of general registers.
pub const NUM_REGISTERS: usize = 8;

/// The mathematical contents of a `Memory`: its heap, registers and stack.
#[verifier::ext_equal]
pub ghost struct MemSnap {
    pub heap: Seq<u16>,
    pub regs: Seq<u16>,
    pub stack: Seq<u16>,
}

/// The heap, the registers and the stack of one machine.
pub struct Memory {
    heap: Vec<u16>,
    registers: Vec<u16>,
    stack: Vec<u16>,
}

/// Resolves an operand word to its value: a literal is itself, a register
/// word reads that register, anything else is an invalid operand.
pub open spec fn spec_value(regs: Seq<u16>, w: u16) -> Result<u16, VmError>
    recommends
        regs.len() == NUM_REGISTERS,
{
    if w <= 32767 {
        Ok(w)
    } else if w <= 32775 {
        Ok(regs[w as int - 32768])
    } else {
        Err(VmError::InvalidOperand)
    }
}

/// A bounds-checked heap read.
pub open spec fn spec_read(heap: Seq<u16>, address: u16) -> Result<u16, VmError> {
    if (address as int) < heap.len() {
        Ok(heap[address as int])
    } else {
        Err(VmError::AddressOutOfBounds)
    }
}

/// A bounds-checked register read.
pub open spec fn spec_read_register(regs: Seq<u16>, idx: u16) -> Result<u16, VmError>
    recommends
        regs.len() == NUM_REGISTERS,
{
    if (idx as int) < regs.len() {
        Ok(regs[idx as int])
    } else {
        Err(VmError::RegisterIndexOutOfBounds)
    }
}

/// The heap after an image is copied over its start: the image's words at
/// addresses 0..len, the old contents above.
pub open spec fn spec_load(heap: Seq<u16>, data: Seq<u16>) -> Seq<u16>
    recommends
        data.len() <= heap.len(),
{
    Seq::new(heap.len(), |i: int| if i < data.len() { data[i] } else { heap[i] })
}

impl View for Memory {
    type V = MemSnap;

    closed spec fn view(&self) -> MemSnap {
        MemSnap { heap: self.heap@, regs: self.registers@, stack: self.stack@ }
    }
}

impl Memory {
    /// The structural invariant: full-size heap, eight registers.
    pub open spec fn wf(self) -> bool {
        self@.heap.len() == HEAP_SIZE && self@.regs.len() == NUM_REGISTERS
    }

    /// Fresh storage: heap and registers all zero, stack empty.
    pub fn new() -> (m: Memory)
        ensures
            m.wf(),
            forall|i: int| 0 <= i < HEAP_SIZE ==> m@.heap[i] == 0u16,
            forall|i: int| 0 <= i < NUM_REGISTERS ==> m@.regs[i] == 0u16,
            m@.stack == Seq::<u16>::empty(),
    {
        let mut heap: Vec<u16> = Vec::new();
        let mut i: usize = 0;
        while i < HEAP_SIZE
            invariant
                i <= HEAP_SIZE,
                heap@.len() == i,
                forall|j: int| 0 <= j < i ==> heap@[j] == 0u16,
            decreases HEAP_SIZE - i,
        {
            heap.push(0);
            i = i + 1;
        }
        let mut registers: Vec<u16> = Vec::new();
        let mut k: usize = 0;
        while k < NUM_REGISTERS
            invariant
                k <= NUM_REGISTERS,
                registers@.len() == k,
                forall|j: int| 0 <= j < k ==> registers@[j] == 0u16,
            decreases NUM_REGISTERS - k,
        {
            registers.push(0);
            k = k + 1;
        }
        Memory { heap, registers, stack: Vec::new() }
    }

    /// Copies an image verbatim into heap addresses 0..len; the rest of the
    /// heap, the registers and the stack keep their contents.  An image
    /// larger than the heap is malformed and changes nothing.
    pub fn load(&mut self, data: &[u16]) -> (r: Result<(), VmError>)
        requires
            old(self).wf(),
        ensures
            final(self).wf(),
            data@.len() > HEAP_SIZE ==> r == Err::<(), VmError>(VmError::MalformedImage)
                && final(self)@ == old(self)@,
            data@.len() <= HEAP_SIZE ==> r == Ok::<(), VmError>(())
                && final(self)@.heap == spec_load(old(self)@.heap, data@)
                && final(self)@.regs == old(self)@.regs
                && final(self)@.stack == old(self)@.stack,
    {
        if data.len() > HEAP_SIZE {
            return Err(VmError::MalformedImage);
        }
        let ghost orig = self@;
        let mut i: usize = 0;
        while i < data.len()
            invariant
                data@.len() <= HEAP_SIZE,
                i <= data@.len(),
                self@.heap.len() == HEAP_SIZE,
                self@.regs == orig.regs,
                self@.stack == orig.stack,
                forall|j: int| 0 <= j < i ==> self@.heap[j] == data@[j],
                forall|j: int| i <= j < HEAP_SIZE ==> self@.heap[j] == orig.heap[j],
            decreases data@.len() - i,
        {
            self.heap[i] = data[i];
            i = i + 1;
        }
        proof {
            assert(self@.heap =~= spec_load(orig.heap, data@));
        }
        Ok(())
    }

    /// Resolves an operand word: literals are returned unchanged, register
    /// words read the named register, invalid words fail.
    pub fn value(&self, address: u16) -> (r: Result<u16, VmError>)
        requires
            self.wf(),
        ensures
            r == spec_value(self@.regs, address),
    {
        if address <= 32767 {
            Ok(address)
        } else if address <= 32775 {
            Ok(self.registers[(address - 32768) as usize])
        } else {
            Err(VmError::InvalidOperand)
        }
    }

    /// Reads the heap word at an address; addresses at or above the heap
    /// size are out of bounds.
    pub fn read(&self, address: u16) -> (r: Result<u16, VmError>)
        requires
            self.wf(),
        ensures
            r == spec_read(self@.heap, address),
    {
        if (address as usize) < HEAP_SIZE {
            Ok(self.heap[address as usize])
        } else {
            Err(VmError::AddressOutOfBounds)
        }
    }

    /// Writes the heap word at an address; addresses at or above the heap
    /// size are out of bounds and change nothing.
    pub fn write(&mut self, address: u16, value: u16) -> (r: Result<(), VmError>)
        requires
            old(self).wf(),
        ensures
            final(self).wf(),
            (address as int) < HEAP_SIZE ==> r == Ok::<(), VmError>(())
                && final(self)@.heap == old(self)@.heap.update(address as int, value)
                && final(self)@.regs == old(self)@.regs
                && final(self)@.stack == old(self)@.stack,
            (address as int) >= HEAP_SIZE ==> r == Err::<(), VmError>(VmError::AddressOutOfBounds)
                && final(self)@ == old(self)@,
    {
        if (address as usize) < HEAP_SIZE {
            self.heap[address as usize] = value;
            Ok(())
        } else {
            Err(VmError::AddressOutOfBounds)
        }
    }

    /// Reads a register; indices at or above 8 are out of bounds.
    pub fn read_register(&self, idx: u16) -> (r: Result<u16, VmError>)
        requires
            self.wf(),
        ensures
            r == spec_read_register(self@.regs, idx),
    {
        if (idx as usize) < NUM_REGISTERS {
            Ok(self.registers[idx as usize])
        } else {
            Err(VmError::RegisterIndexOutOfBounds)
        }
    }

    /// Writes a register; indices at or above 8 are out of bounds and change
    /// nothing.
    pub fn write_register(&mut self, idx: u16, value: u16) -> (r: Result<(), VmError>)
        requires
            old(self).wf(),
        ensures
            final(self).wf(),
            (idx as int) < NUM_REGISTERS ==> r == Ok::<(), VmError>(())
                && final(self)@.regs == old(self)@.regs.update(idx as int, value)
                && final(self)@.heap == old(self)@.heap
                && final(self)@.stack == old(self)@.stack,
            (idx as int) >= NUM_REGISTERS ==> r == Err::<(), VmError>(
                VmError::RegisterIndexOutOfBounds,
            ) && final(self)@ == old(self)@,
    {
        if (idx as usize) < NUM_REGISTERS {
            self.registers[idx as usize] = value;
            Ok(())
        } else {
            Err(VmError::RegisterIndexOutOfBounds)
        }
    }

    /// Pushes a word onto the stack; always succeeds.
    pub fn push_stack(&mut self, value: u16)
        ensures
            final(self)@.stack == old(self)@.stack.push(value),
            final(self)@.heap == old(self)@.heap,
            final(self)@.regs == old(self)@.regs,
            old(self).wf() ==> final(self).wf(),
    {
        self.stack.push(value);
    }

    /// Pops the top of the stack, the word pushed last; an empty stack
    /// underflows and changes nothing.
    pub fn pop_stack(&mut self) -> (r: Result<u16, VmError>)
        ensures
            final(self)@.heap == old(self)@.heap,
            final(self)@.regs == old(self)@.regs,
            old(self).wf() ==> final(self).wf(),
            old(self)@.stack.len() == 0 ==> r == Err::<u16, VmError>(VmError::StackUnderflow)
                && final(self)@.stack == old(self)@.stack,
            old(self)@.stack.len() > 0 ==> r == Ok::<u16, VmError>(old(self)@.stack.last())
                && final(self)@.stack == old(self)@.stack.drop_last(),
    {
        match self.stack.pop() {
            Some(value) => Ok(value),
            None => Err(VmError::StackUnderflow),
        }
    }
}

/// The stack contents after popping `n` times: the values popped, oldest
/// pop first, and the stack that remains; `None` if the stack runs out.
/// Each pop takes the last element, as `pop_stack` does.
pub open spec fn spec_pop_n(stack: Seq<u16>, n: nat) -> Option<(Seq<u16>, Seq<u16>)>
    decreases n,
{
    if n == 0 {
        Some((Seq::empty(), stack))
    } else if stack.len() == 0 {
        None
    } else {
        match spec_pop_n(stack.drop_last(), (n - 1) as nat) {
            None => None,
            Some((vs, rest)) => Some((seq![stack.last()] + vs, rest)),
        }
    }
}

/// Pushing the words of `ws` in order and then popping `ws.len()` times
/// succeeds, returns the pushed words in exact reverse order, and restores
/// the prior stack contents.  Pushing appends, as `push_stack` ensures, and
/// each pop takes the last element, as `pop_stack` ensures; `pop_stack` on
/// an empty stack always fails with a stack underflow.
pub proof fn lemma_push_pop_roundtrip(stack: Seq<u16>, ws: Seq<u16>)
    ensures
        spec_pop_n(stack + ws, ws.len()) == Some((ws.reverse(), stack)),
    decreases ws.len(),
{
    if ws.len() == 0 {
        assert(stack + ws =~= stack);
        assert(ws.reverse() =~= Seq::<u16>::empty());
    } else {
        lemma_push_pop_roundtrip(stack, ws.drop_last());
        assert((stack + ws).drop_last() =~= stack + ws.drop_last());
        assert((stack + ws).last() == ws.last());
        assert(ws.reverse() =~= seq![ws.last()] + ws.drop_last().reverse());
    }
}

/// Resolving a register word yields exactly what reading the register it
/// names yields.
pub proof fn lemma_resolve_register(regs: Seq<u16>, w: u16)
    requires
        regs.len() == NUM_REGISTERS,
        32768 <= w <= 32775,
    ensures
        spec_value(regs, w) == spec_read_register(regs, (w - 32768) as u16),
{
}

/// Loading an image and immediately reading heap addresses 0..len returns
/// exactly the loaded words, unchanged.
pub proof fn lemma_load_read_roundtrip(heap: Seq<u16>, data: Seq<u16>)
    requires
        heap.len() == HEAP_SIZE,
        data.len() <= HEAP_SIZE,
    ensures
        forall|i: u16| 0 <= i < data.len() ==> spec_read(spec_load(heap, data), i) == Ok::<
            u16,
            VmError,
        >(data[i as int]),
{
}

} // verus!
