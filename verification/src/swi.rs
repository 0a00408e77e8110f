//! Software interrupts: a small set of service calls that the processor
//! answers itself, and the trap into a boot image for the others.

use vstd::prelude::*;
use crate::cpu::{Cpu, CpsrFlags, CpuView, Mode};
use crate::mem::Memory;

verus! {

/// Whether `r` is the integer square root of `x`.
pub open spec fn is_sqrt(x: nat, r: nat) -> bool {
    r * r <= x < (r + 1) * (r + 1)
}

/// The integer square root: the largest number whose square is at most `x`.
pub open spec fn isqrt(x: nat) -> nat {
    choose|r: nat| is_sqrt(x, r)
}

/// A number has at most one integer square root.
pub proof fn lemma_sqrt_unique(x: nat, a: nat, b: nat)
    requires
        is_sqrt(x, a),
        is_sqrt(x, b),
    ensures
        a == b,
{
    if a < b {
        assert((a + 1) * (a + 1) <= b * b) by (nonlinear_arith)
            requires
                a + 1 <= b,
        ;
    } else if b < a {
        assert((b + 1) * (b + 1) <= a * a) by (nonlinear_arith)
            requires
                b + 1 <= a,
        ;
    }
}

/// Computes the integer square root of a word.
pub fn integer_sqrt(x: u32) -> (r: u32)
    ensures
        is_sqrt(x as nat, r as nat),
        r as nat == isqrt(x as nat),
        r <= 0xFFFF,
{
    let mut root: u32 = 0;
    let mut span: u32 = 0x1_0000;
    while span > 1
        invariant
            root + span <= 0x1_0000,
            span == 0x1_0000 || span == 0x8000 || span == 0x4000 || span == 0x2000 || span == 0x1000
                || span == 0x800 || span == 0x400 || span == 0x200 || span == 0x100 || span == 0x80
                || span == 0x40 || span == 0x20 || span == 0x10 || span == 8 || span == 4 || span
                == 2 || span == 1,
            root * root <= x,
            x < (root + span) * (root + span),
        decreases span,
    {
        let half: u32 = span / 2;
        let trial: u32 = root + half;
        assert(trial * trial <= 0xFFFF * 0xFFFF) by (nonlinear_arith)
            requires
                trial <= 0xFFFF,
        ;
        assert((trial + half) * (trial + half) == (root + span) * (root + span)) by (nonlinear_arith)
            requires
                trial == root + half,
                span == half + half,
        ;
        if trial * trial <= x {
            root = trial;
        }
        span = half;
    }
    proof {
        let witness = root as nat;
        assert(is_sqrt(x as nat, witness));
        lemma_sqrt_unique(x as nat, witness, isqrt(x as nat));
    }
    root
}

/// The state after an unsigned division service call: R0 takes the
/// quotient of R0 by R1 and R3 the remainder. Division by zero gives a
/// quotient of all ones and the dividend as remainder.
pub open spec fn divide(c: CpuView) -> CpuView {
    let dividend = c.regs[0];
    let divisor = c.regs[1];
    if divisor != 0 {
        c.with_reg(0, dividend / divisor).with_reg(3, dividend % divisor)
    } else {
        c.with_reg(0, 0xFFFF_FFFF).with_reg(3, dividend)
    }
}

/// The state after a trap into the boot image: Supervisor mode with the
/// interrupted status register saved, the link register at the instruction
/// after the call, interrupts disabled, and the program counter at the
/// service vector.
pub open spec fn trap(c: CpuView, width: u32) -> CpuView {
    c.set_mode(Mode::Supervisor).with_spsr(c.cpsr).with_reg(14, c.pc().wrapping_add(width)).with_reg(
        15,
        0x08,
    ).with_flag(CpsrFlags::IRQ, true)
}

/// The state after a software interrupt with function number `function`,
/// raised by an instruction of `width` bytes. Function 0 resets the
/// processor; 1 to 5 return at once; 6 and 8 divide; 14 takes the square
/// root of R0. Any other number traps into the boot image where one is
/// present and returns at once where none is.
pub open spec fn swi_effect(c: CpuView, has_bios: bool, function: u32, width: u32) -> CpuView {
    if function == 0x00 {
        CpuView::booted()
    } else if 0x01 <= function <= 0x05 {
        c.advance(width)
    } else if function == 0x06 || function == 0x08 {
        divide(c).advance(width)
    } else if function == 0x0E {
        c.with_reg(0, isqrt(c.regs[0] as nat) as u32).advance(width)
    } else if has_bios {
        trap(c, width)
    } else {
        c.advance(width)
    }
}

impl Cpu {
    /// Answers a software interrupt with the given function number.
    pub fn software_interrupt(&mut self, function: u32, width: u32, mem: &Memory)
        ensures
            final(self)@ == swi_effect(old(self)@, mem@.has_bios(), function, width),
    {
        if function == 0x00 {
            self.reset();
        } else if 0x01 <= function && function <= 0x05 {
            self.advance(width);
        } else if function == 0x06 || function == 0x08 {
            let dividend = self.get_reg(0);
            let divisor = self.get_reg(1);
            if divisor != 0 {
                self.set_reg(0, dividend / divisor);
                self.set_reg(3, dividend % divisor);
            } else {
                self.set_reg(0, 0xFFFF_FFFF);
                self.set_reg(3, dividend);
            }
            self.advance(width);
        } else if function == 0x0E {
            let root = integer_sqrt(self.get_reg(0));
            self.set_reg(0, root);
            self.advance(width);
        } else if mem.has_bios() {
            let old_cpsr = self.get_cpsr();
            let next = self.get_pc().wrapping_add(width);
            self.set_mode(Mode::Supervisor);
            self.set_spsr(old_cpsr);
            self.set_lr(next);
            self.set_reg(15, 0x08);
            self.set_interrupts_enabled(false);
        } else {
            self.advance(width);
        }
    }

    /// A software interrupt in the full-word set: the function number is
    /// the low 24 bits of the instruction.
    pub fn execute_arm_swi(&mut self, opcode: u32, mem: &mut Memory) -> (cycles: u32)
        ensures
            final(self)@ == swi_effect(old(self)@, old(mem)@.has_bios(), opcode & 0xFF_FFFF, 4),
            final(mem)@ == old(mem)@,
            cycles == 6,
    {
        self.software_interrupt(opcode & 0xFF_FFFF, 4, mem);
        6
    }

    /// A software interrupt in the half-word set: the function number is
    /// in R7.
    pub fn thumb_software_interrupt(&mut self, mem: &mut Memory) -> (cycles: u32)
        ensures
            final(self)@ == swi_effect(old(self)@, old(mem)@.has_bios(), old(self)@.regs[7], 2),
            final(mem)@ == old(mem)@,
            cycles == 4,
    {
        let function = self.get_reg(7);
        self.software_interrupt(function, 2, mem);
        4
    }
}

} // verus!
