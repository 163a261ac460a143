//! The program counter and run flag of one execution.

use vstd::prelude::*;

verus! {

/// The counter of the next word to decode, and whether the execution is
/// still running.
pub struct Process {
    ptr: usize,
    running: bool,
}

impl Process {
    /// The counter's current value.
    pub closed spec fn spec_addr(self) -> int {
        self.ptr as int
    }

    /// Whether the execution is running.
    pub closed spec fn spec_running(self) -> bool {
        self.running
    }

    /// The counter always fits a word's address range.
    pub open spec fn wf(self) -> bool {
        self.spec_addr() <= 0xFFFF
    }

    /// A fresh process: counter at zero, not yet running.
    pub fn new() -> (p: Process)
        ensures
            p.wf(),
            p.spec_addr() == 0,
            !p.spec_running(),
    {
        Process { ptr: 0, running: false }
    }

    /// Marks the process running; the counter is untouched.
    pub fn start(&mut self)
        ensures
            final(self).spec_running(),
            final(self).spec_addr() == old(self).spec_addr(),
            final(self).wf() == old(self).wf(),
    {
        self.running = true;
    }

    /// Whether the process is running.
    pub fn is_running(&self) -> (b: bool)
        ensures
            b == self.spec_running(),
    {
        self.running
    }

    /// Marks the process stopped; the counter is untouched.
    pub fn stop(&mut self)
        ensures
            !final(self).spec_running(),
            final(self).spec_addr() == old(self).spec_addr(),
            final(self).wf() == old(self).wf(),
    {
        self.running = false;
    }

    /// The counter's current value.
    pub fn address(&self) -> (a: u16)
        requires
            self.wf(),
        ensures
            a as int == self.spec_addr(),
    {
        self.ptr as u16
    }

    /// Replaces the counter outright, as the control-transfer opcodes do.
    pub fn jump_to(&mut self, address: u16)
        ensures
            final(self).wf(),
            final(self).spec_addr() == address as int,
            final(self).spec_running() == old(self).spec_running(),
    {
        self.ptr = address as usize;
    }

    /// Advances the counter past one consumed word.
    pub fn jump_to_next(&mut self)
        requires
            old(self).spec_addr() < 0xFFFF,
        ensures
            final(self).wf(),
            final(self).spec_addr() == old(self).spec_addr() + 1,
            final(self).spec_running() == old(self).spec_running(),
    {
        self.ptr = self.ptr + 1;
    }
}

} // verus!
