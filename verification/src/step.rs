//! One step of the processor: fetch from the program counter, decode in the
//! current instruction set, execute.

use vstd::prelude::*;
use crate::arm::arm_step;
use crate::cpu::{Cpu, CpuView};
use crate::mem::{Memory, MemoryView};
use crate::thumb::thumb_step;

verus! {

/// The processor, the bus and the cycle count after one instruction.
pub open spec fn cpu_step(c: CpuView, m: MemoryView) -> (CpuView, MemoryView, u32) {
    if c.thumb() {
        thumb_step(c, m)
    } else {
        arm_step(c, m)
    }
}

impl Cpu {
    /// Executes exactly one instruction and returns the cycles it took.
    pub fn step(&mut self, mem: &mut Memory) -> (cycles: u32)
        ensures
            (final(self)@, final(mem)@, cycles) == cpu_step(old(self)@, old(mem)@),
    {
        if self.is_thumb_mode() {
            self.step_thumb(mem)
        } else {
            self.step_arm(mem)
        }
    }
}

} // verus!
