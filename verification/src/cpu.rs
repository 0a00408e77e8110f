//! The processor's registers: sixteen visible slots, the private copies that
//! the privileged modes own, and the status register with its flags, its
//! instruction-set bit and its mode field.

use vstd::prelude::*;
use crate::alu::is_negative;

verus! {

/// Names for the bits of the status register.
#[derive(Debug, Clone, Copy, PartialEq, Eq, Structural)]
pub struct CpsrFlags {
    bits: u32,
}

impl View for CpsrFlags {
    type V = u32;

    closed spec fn view(&self) -> u32 {
        self.bits
    }
}

impl CpsrFlags {
    /// Negative.
    pub const N: u32 = 0x8000_0000;

    /// Zero.
    pub const Z: u32 = 0x4000_0000;

    /// Carry.
    pub const C: u32 = 0x2000_0000;

    /// Signed overflow.
    pub const V: u32 = 0x1000_0000;

    /// Interrupts disabled.
    pub const IRQ: u32 = 0x0000_0080;

    /// Fast interrupts disabled.
    pub const FIQ: u32 = 0x0000_0040;

    /// Half-word instruction set selected.
    pub const THUMB: u32 = 0x0000_0020;

    /// Every named bit.
    pub const ALL: u32 = 0xF000_00E0;

    /// The set with the given bits; bits without a name are dropped.
    pub fn from_bits_truncate(bits: u32) -> (r: Self)
        ensures
            r@ == bits & Self::ALL,
    {
        CpsrFlags { bits: bits & Self::ALL }
    }

    pub fn bits(&self) -> (r: u32)
        ensures
            r == self@,
    {
        self.bits
    }

    pub fn contains(&self, other: CpsrFlags) -> (r: bool)
        ensures
            r == (self@ & other@ == other@),
    {
        self.bits & other.bits == other.bits
    }
}

/// Processor operating modes.
#[derive(Debug, Clone, Copy, PartialEq, Eq, Structural)]
pub enum Mode {
    User,
    Fiq,
    Irq,
    Supervisor,
    Abort,
    Undefined,
    System,
}

impl Mode {
    /// The five-bit code of a mode in the status register.
    pub open spec fn spec_bits(self) -> u32 {
        match self {
            Mode::User => 0x10,
            Mode::Fiq => 0x11,
            Mode::Irq => 0x12,
            Mode::Supervisor => 0x13,
            Mode::Abort => 0x17,
            Mode::Undefined => 0x1B,
            Mode::System => 0x1F,
        }
    }

    /// The mode that the low five bits of `bits` name; codes that name none
    /// count as System.
    pub open spec fn spec_from_bits(bits: u32) -> Mode {
        let code = bits & 0x1F;
        if code == 0x10 {
            Mode::User
        } else if code == 0x11 {
            Mode::Fiq
        } else if code == 0x12 {
            Mode::Irq
        } else if code == 0x13 {
            Mode::Supervisor
        } else if code == 0x17 {
            Mode::Abort
        } else if code == 0x1B {
            Mode::Undefined
        } else {
            Mode::System
        }
    }

    /// The bank that holds a mode's private stack pointer and link register.
    /// User and System share the last one.
    pub open spec fn bank(self) -> int {
        match self {
            Mode::Fiq => 0,
            Mode::Irq => 1,
            Mode::Supervisor => 2,
            Mode::Abort => 3,
            Mode::Undefined => 4,
            Mode::System => 5,
            Mode::User => 5,
        }
    }

    /// Whether the mode owns a saved status register.
    pub open spec fn is_privileged_bank(self) -> bool {
        self.bank() < 5
    }

    #[verifier::when_used_as_spec(spec_bits)]
    pub fn bits(self) -> (r: u32)
        ensures
            r == self.spec_bits(),
            r <= 0x1F,
    {
        match self {
            Mode::User => 0x10,
            Mode::Fiq => 0x11,
            Mode::Irq => 0x12,
            Mode::Supervisor => 0x13,
            Mode::Abort => 0x17,
            Mode::Undefined => 0x1B,
            Mode::System => 0x1F,
        }
    }

    pub fn from_bits(bits: u32) -> (r: Mode)
        ensures
            r == Mode::spec_from_bits(bits),
    {
        let code = bits & 0x1F;
        if code == 0x10 {
            Mode::User
        } else if code == 0x11 {
            Mode::Fiq
        } else if code == 0x12 {
            Mode::Irq
        } else if code == 0x13 {
            Mode::Supervisor
        } else if code == 0x17 {
            Mode::Abort
        } else if code == 0x1B {
            Mode::Undefined
        } else {
            Mode::System
        }
    }
}

/// Setting or clearing the bits of `m` in `c` decides what a test of `m`
/// finds and leaves every bit outside `m` as it was.
pub proof fn lemma_flag_bits(c: u32, m: u32, k: u32)
    requires
        m & k == 0,
    ensures
        (c | m) & m == m,
        (c & !m) & m == 0,
        (c | m) & k == c & k,
        (c & !m) & k == c & k,
{
    assert(m & k == 0 ==> (c | m) & m == m && (c & !m) & m == 0 && (c | m) & k == c & k && (c & !m)
        & k == c & k) by (bit_vector);
}

/// Every mode is found again from its own code.
pub proof fn lemma_mode_round_trip(mode: Mode, c: u32)
    ensures
        Mode::spec_from_bits(mode.spec_bits()) == mode,
        Mode::spec_from_bits((c & !0x1Fu32) | mode.spec_bits()) == mode,
{
    let b = mode.spec_bits();
    assert(b <= 0x1F ==> ((c & !0x1Fu32) | b) & 0x1F == b && b & 0x1F == b) by (bit_vector);
}

/// Whether a condition code holds for the given flags.
pub open spec fn condition_holds(cond: usize, n: bool, z: bool, c: bool, v: bool) -> bool {
    if cond == 0x0 {
        z
    } else if cond == 0x1 {
        !z
    } else if cond == 0x2 {
        c
    } else if cond == 0x3 {
        !c
    } else if cond == 0x4 {
        n
    } else if cond == 0x5 {
        !n
    } else if cond == 0x6 {
        v
    } else if cond == 0x7 {
        !v
    } else if cond == 0x8 {
        c && !z
    } else if cond == 0x9 {
        !c || z
    } else if cond == 0xA {
        n == v
    } else if cond == 0xB {
        n != v
    } else if cond == 0xC {
        !z && n == v
    } else if cond == 0xD {
        z || n != v
    } else if cond == 0xE {
        true
    } else {
        false
    }
}

/// The processor's state as plain values.
pub struct CpuView {
    /// R0 to R15 as the current mode sees them.
    pub regs: Seq<u32>,
    /// The status register.
    pub cpsr: u32,
    /// The stack pointers of the modes that are not current, by bank.
    pub banked_sp: Seq<u32>,
    /// The link registers of the modes that are not current, by bank.
    pub banked_lr: Seq<u32>,
    /// The saved status registers of the five privileged modes, by bank.
    pub banked_spsr: Seq<u32>,
    /// The set of R8 to R12 that is not visible: the fast-interrupt mode's
    /// own while another mode runs, the shared one while it runs.
    pub banked_fiq: Seq<u32>,
}

impl CpuView {
    pub open spec fn wf(self) -> bool {
        &&& self.regs.len() == 16
        &&& self.banked_sp.len() == 6
        &&& self.banked_lr.len() == 6
        &&& self.banked_spsr.len() == 5
        &&& self.banked_fiq.len() == 5
    }

    pub open spec fn flag(self, mask: u32) -> bool {
        self.cpsr & mask != 0
    }

    pub open spec fn n(self) -> bool {
        self.flag(CpsrFlags::N)
    }

    pub open spec fn z(self) -> bool {
        self.flag(CpsrFlags::Z)
    }

    pub open spec fn c(self) -> bool {
        self.flag(CpsrFlags::C)
    }

    pub open spec fn v(self) -> bool {
        self.flag(CpsrFlags::V)
    }

    pub open spec fn thumb(self) -> bool {
        self.flag(CpsrFlags::THUMB)
    }

    pub open spec fn interrupts_enabled(self) -> bool {
        !self.flag(CpsrFlags::IRQ)
    }

    pub open spec fn mode(self) -> Mode {
        Mode::spec_from_bits(self.cpsr)
    }

    pub open spec fn pc(self) -> u32 {
        self.regs[15]
    }

    /// The state with the bits of `mask` set or cleared in the status
    /// register.
    pub open spec fn with_flag(self, mask: u32, val: bool) -> CpuView {
        CpuView {
            cpsr: if val {
                self.cpsr | mask
            } else {
                self.cpsr & !mask
            },
            ..self
        }
    }

    pub open spec fn with_reg(self, n: int, val: u32) -> CpuView {
        CpuView { regs: self.regs.update(n, val), ..self }
    }

    /// Negative and zero taken from a result.
    pub open spec fn with_nz(self, result: u32) -> CpuView {
        self.with_flag(CpsrFlags::N, is_negative(result)).with_flag(CpsrFlags::Z, result == 0)
    }

    /// All four arithmetic flags.
    pub open spec fn with_nzcv(self, result: u32, carry: bool, overflow: bool) -> CpuView {
        self.with_nz(result).with_flag(CpsrFlags::C, carry).with_flag(CpsrFlags::V, overflow)
    }

    /// How far ahead of the executing instruction R15 reads: two
    /// instructions of the current set.
    pub open spec fn look_ahead(self) -> u32 {
        if self.thumb() {
            4
        } else {
            8
        }
    }

    /// What an instruction finds when it reads register `n` while the
    /// instruction at `pc()` executes: R15 reads ahead.
    pub open spec fn operand(self, n: int) -> u32 {
        if n == 15 {
            self.regs[15].wrapping_add(self.look_ahead())
        } else {
            self.regs[n]
        }
    }

    /// An address aligned for the current instruction set.
    pub open spec fn aligned(self, val: u32) -> u32 {
        if self.thumb() {
            (val - val % 2) as u32
        } else {
            (val - val % 4) as u32
        }
    }

    /// The state after a jump to `val`.
    pub open spec fn with_pc(self, val: u32) -> CpuView {
        self.with_reg(15, self.aligned(val))
    }

    /// The state after stepping over an instruction of `width` bytes.
    pub open spec fn advance(self, width: u32) -> CpuView {
        self.with_reg(15, self.regs[15].wrapping_add(width))
    }

    /// The saved status register of the current mode. User and System have
    /// none: there the live status register is read.
    pub open spec fn spsr(self) -> u32 {
        if self.mode().is_privileged_bank() {
            self.banked_spsr[self.mode().bank()]
        } else {
            self.cpsr
        }
    }

    /// The state after a write to the current mode's saved status register;
    /// User and System ignore the write.
    pub open spec fn with_spsr(self, val: u32) -> CpuView {
        if self.mode().is_privileged_bank() {
            CpuView { banked_spsr: self.banked_spsr.update(self.mode().bank(), val), ..self }
        } else {
            self
        }
    }

    /// R8 to R12 exchanged with the hidden set.
    pub open spec fn swap_fiq(self) -> CpuView {
        CpuView {
            regs: self.regs.update(8, self.banked_fiq[0]).update(9, self.banked_fiq[1]).update(
                10,
                self.banked_fiq[2],
            ).update(11, self.banked_fiq[3]).update(12, self.banked_fiq[4]),
            banked_fiq: seq![
                self.regs[8],
                self.regs[9],
                self.regs[10],
                self.regs[11],
                self.regs[12],
            ],
            ..self
        }
    }

    /// The state after a switch to `mode`. The departing mode's stack
    /// pointer and link register go to its bank and the arriving mode's come
    /// from its own; entering or leaving the fast-interrupt mode exchanges
    /// R8 to R12 as well. The mode field names the new mode.
    pub open spec fn set_mode(self, mode: Mode) -> CpuView {
        let current = self.mode();
        if current == mode {
            self
        } else {
            let sp = self.banked_sp.update(current.bank(), self.regs[13]);
            let lr = self.banked_lr.update(current.bank(), self.regs[14]);
            let switched = CpuView {
                regs: self.regs.update(13, sp[mode.bank()]).update(14, lr[mode.bank()]),
                cpsr: (self.cpsr & !0x1Fu32) | mode.spec_bits(),
                banked_sp: sp,
                banked_lr: lr,
                ..self
            };
            if mode == Mode::Fiq || current == Mode::Fiq {
                switched.swap_fiq()
            } else {
                switched
            }
        }
    }

    /// Whether a condition code holds for the current flags.
    pub open spec fn condition(self, cond: usize) -> bool {
        condition_holds(cond, self.n(), self.z(), self.c(), self.v())
    }

    /// The state right after construction: everything zero, System mode.
    pub open spec fn fresh() -> CpuView {
        CpuView {
            regs: Seq::new(16, |i: int| 0u32),
            cpsr: 0x1F,
            banked_sp: Seq::new(6, |i: int| 0u32),
            banked_lr: Seq::new(6, |i: int| 0u32),
            banked_spsr: Seq::new(5, |i: int| 0u32),
            banked_fiq: Seq::new(5, |i: int| 0u32),
        }
    }

    /// The state after a reset: System mode, full-word instruction set,
    /// interrupts disabled, flags clear, banks clear, the stack pointer at
    /// the top of fast RAM and the program counter at the cartridge's entry.
    pub open spec fn booted() -> CpuView {
        CpuView {
            regs: Seq::new(
                16,
                |i: int|
                    if i == 13 {
                        0x0300_7F00u32
                    } else if i == 14 {
                        0x0800_0004u32
                    } else if i == 15 {
                        0x0800_0000u32
                    } else {
                        0u32
                    },
            ),
            cpsr: 0xDF,
            banked_sp: Seq::new(6, |i: int| 0u32),
            banked_lr: Seq::new(6, |i: int| 0u32),
            banked_spsr: Seq::new(5, |i: int| 0u32),
            banked_fiq: Seq::new(5, |i: int| 0u32),
        }
    }

    /// The state after entry into the interrupt handler: the status
    /// register saved in the interrupt mode's bank, that mode current, the
    /// link register at the value R15 read as less 4, interrupts disabled,
    /// and the program counter at the interrupt vector.
    pub open spec fn take_interrupt(self) -> CpuView {
        let ret = self.operand(15).wrapping_sub(4);
        self.set_mode(Mode::Irq).with_reg(14, ret).with_spsr(self.cpsr).with_flag(
            CpsrFlags::IRQ,
            true,
        ).with_reg(15, 0x18)
    }
}

/// The processor.
pub struct Cpu {
    r: [u32; 16],
    banked_fiq: [u32; 5],
    banked_sp: [u32; 6],
    banked_lr: [u32; 6],
    banked_spsr: [u32; 5],
    cpsr: u32,
}

impl View for Cpu {
    type V = CpuView;

    closed spec fn view(&self) -> CpuView {
        CpuView {
            regs: self.r@,
            cpsr: self.cpsr,
            banked_sp: self.banked_sp@,
            banked_lr: self.banked_lr@,
            banked_spsr: self.banked_spsr@,
            banked_fiq: self.banked_fiq@,
        }
    }
}

impl Cpu {
    /// The view of any processor is well formed.
    pub proof fn lemma_view_wf(&self)
        ensures
            self@.wf(),
    {
    }

    pub fn new() -> (r: Self)
        ensures
            r@ == CpuView::fresh(),
    {
        let r = Cpu {
            r: [0u32; 16],
            banked_fiq: [0u32; 5],
            banked_sp: [0u32; 6],
            banked_lr: [0u32; 6],
            banked_spsr: [0u32; 5],
            cpsr: 0x0000_001F,
        };
        proof {
            let f = CpuView::fresh();
            assert(r@.regs =~= f.regs);
            assert(r@.banked_sp =~= f.banked_sp);
            assert(r@.banked_lr =~= f.banked_lr);
            assert(r@.banked_spsr =~= f.banked_spsr);
            assert(r@.banked_fiq =~= f.banked_fiq);
        }
        r
    }

    pub fn reset(&mut self)
        ensures
            final(self)@ == CpuView::booted(),
    {
        self.r = [0u32; 16];
        self.banked_fiq = [0u32; 5];
        self.banked_sp = [0u32; 6];
        self.banked_lr = [0u32; 6];
        self.banked_spsr = [0u32; 5];
        self.cpsr = 0x0000_00DF;
        self.r[13] = 0x0300_7F00;
        self.r[14] = 0x0800_0004;
        self.r[15] = 0x0800_0000;
        proof {
            let f = CpuView::booted();
            assert(self@.regs =~= f.regs);
            assert(self@.banked_sp =~= f.banked_sp);
            assert(self@.banked_lr =~= f.banked_lr);
            assert(self@.banked_spsr =~= f.banked_spsr);
            assert(self@.banked_fiq =~= f.banked_fiq);
        }
    }

    /// Enters the interrupt handler.
    pub fn take_interrupt(&mut self, mem: &mut crate::mem::Memory)
        ensures
            final(self)@ == old(self)@.take_interrupt(),
            final(mem)@ == old(mem)@,
    {
        let old_cpsr = self.cpsr;
        let ret = self.operand(15).wrapping_sub(4);
        self.set_mode(Mode::Irq);
        self.set_lr(ret);
        self.set_spsr(old_cpsr);
        self.set_interrupts_enabled(false);
        self.r[15] = 0x0000_0018;
    }

    pub fn get_reg(&self, n: usize) -> (r: u32)
        requires
            n < 16,
        ensures
            r == self@.regs[n as int],
    {
        self.r[n]
    }

    pub fn set_reg(&mut self, n: usize, val: u32)
        requires
            n < 16,
        ensures
            final(self)@ == old(self)@.with_reg(n as int, val),
    {
        self.r[n] = val;
    }

    /// Reads a register as an executing instruction does: R15 reads ahead.
    pub fn operand(&self, n: usize) -> (r: u32)
        requires
            n < 16,
        ensures
            r == self@.operand(n as int),
    {
        if n == 15 {
            let ahead: u32 = if self.is_thumb_mode() {
                4
            } else {
                8
            };
            self.r[15].wrapping_add(ahead)
        } else {
            self.r[n]
        }
    }

    /// Steps over an instruction of `width` bytes.
    pub fn advance(&mut self, width: u32)
        ensures
            final(self)@ == old(self)@.advance(width),
    {
        self.r[15] = self.r[15].wrapping_add(width);
    }

    pub fn get_sp(&self) -> (r: u32)
        ensures
            r == self@.regs[13],
    {
        self.r[13]
    }

    pub fn set_sp(&mut self, val: u32)
        ensures
            final(self)@ == old(self)@.with_reg(13, val),
    {
        self.r[13] = val;
    }

    pub fn get_lr(&self) -> (r: u32)
        ensures
            r == self@.regs[14],
    {
        self.r[14]
    }

    pub fn set_lr(&mut self, val: u32)
        ensures
            final(self)@ == old(self)@.with_reg(14, val),
    {
        self.r[14] = val;
    }

    /// The address of the next instruction to execute.
    pub fn get_pc(&self) -> (r: u32)
        ensures
            r == self@.pc(),
    {
        self.r[15]
    }

    pub fn get_cpsr(&self) -> (r: u32)
        ensures
            r == self@.cpsr,
    {
        self.cpsr
    }

    /// Jumps to `val`, aligned for the current instruction set.
    pub fn set_pc(&mut self, val: u32)
        ensures
            final(self)@ == old(self)@.with_pc(val),
    {
        if self.is_thumb_mode() {
            self.r[15] = val - val % 2;
        } else {
            self.r[15] = val - val % 4;
        }
    }

    pub fn get_mode(&self) -> (r: Mode)
        ensures
            r == self@.mode(),
    {
        Mode::from_bits(self.cpsr)
    }

    /// Switches to `mode`, exchanging the banked registers.
    pub fn set_mode(&mut self, mode: Mode)
        ensures
            final(self)@ == old(self)@.set_mode(mode),
    {
        let current = self.get_mode();
        if current == mode {
            return ;
        }
        let from = self.mode_index(current);
        let to = self.mode_index(mode);
        self.banked_sp[from] = self.r[13];
        self.banked_lr[from] = self.r[14];
        self.cpsr = (self.cpsr & !0x1F) | mode.bits();
        self.r[13] = self.banked_sp[to];
        self.r[14] = self.banked_lr[to];
        if mode == Mode::Fiq || current == Mode::Fiq {
            let hidden = self.banked_fiq;
            self.banked_fiq = [self.r[8], self.r[9], self.r[10], self.r[11], self.r[12]];
            self.r[8] = hidden[0];
            self.r[9] = hidden[1];
            self.r[10] = hidden[2];
            self.r[11] = hidden[3];
            self.r[12] = hidden[4];
            proof {
                assert(self@.banked_fiq =~= old(self)@.set_mode(mode).banked_fiq);
            }
        }
    }

    pub fn mode_index(&self, mode: Mode) -> (r: usize)
        ensures
            r == mode.bank(),
            r < 6,
    {
        match mode {
            Mode::Fiq => 0,
            Mode::Irq => 1,
            Mode::Supervisor => 2,
            Mode::Abort => 3,
            Mode::Undefined => 4,
            Mode::System => 5,
            Mode::User => 5,
        }
    }

    /// The current mode's saved status register.
    pub fn get_spsr(&self) -> (r: u32)
        ensures
            r == self@.spsr(),
    {
        let idx = self.mode_index(self.get_mode());
        if idx < 5 {
            self.banked_spsr[idx]
        } else {
            self.cpsr
        }
    }

    pub fn set_spsr(&mut self, val: u32)
        ensures
            final(self)@ == old(self)@.with_spsr(val),
    {
        let idx = self.mode_index(self.get_mode());
        if idx < 5 {
            self.banked_spsr[idx] = val;
        }
    }

    /// Replaces the status register bit for bit, without a bank switch.
    pub fn set_cpsr_raw(&mut self, val: u32)
        ensures
            final(self)@ == (CpuView { cpsr: val, ..old(self)@ }),
    {
        self.cpsr = val;
    }

    fn get_flag(&self, mask: u32) -> (r: bool)
        ensures
            r == self@.flag(mask),
    {
        self.cpsr & mask != 0
    }

    fn set_flag(&mut self, mask: u32, val: bool)
        ensures
            final(self)@ == old(self)@.with_flag(mask, val),
    {
        if val {
            self.cpsr = self.cpsr | mask;
        } else {
            self.cpsr = self.cpsr & !mask;
        }
    }

    pub fn get_flag_n(&self) -> (r: bool)
        ensures
            r == self@.n(),
    {
        self.get_flag(CpsrFlags::N)
    }

    pub fn set_flag_n(&mut self, val: bool)
        ensures
            final(self)@ == old(self)@.with_flag(CpsrFlags::N, val),
    {
        self.set_flag(CpsrFlags::N, val);
    }

    pub fn get_flag_z(&self) -> (r: bool)
        ensures
            r == self@.z(),
    {
        self.get_flag(CpsrFlags::Z)
    }

    pub fn set_flag_z(&mut self, val: bool)
        ensures
            final(self)@ == old(self)@.with_flag(CpsrFlags::Z, val),
    {
        self.set_flag(CpsrFlags::Z, val);
    }

    pub fn get_flag_c(&self) -> (r: bool)
        ensures
            r == self@.c(),
    {
        self.get_flag(CpsrFlags::C)
    }

    pub fn set_flag_c(&mut self, val: bool)
        ensures
            final(self)@ == old(self)@.with_flag(CpsrFlags::C, val),
    {
        self.set_flag(CpsrFlags::C, val);
    }

    pub fn get_flag_v(&self) -> (r: bool)
        ensures
            r == self@.v(),
    {
        self.get_flag(CpsrFlags::V)
    }

    pub fn set_flag_v(&mut self, val: bool)
        ensures
            final(self)@ == old(self)@.with_flag(CpsrFlags::V, val),
    {
        self.set_flag(CpsrFlags::V, val);
    }

    pub fn is_thumb_mode(&self) -> (r: bool)
        ensures
            r == self@.thumb(),
    {
        self.get_flag(CpsrFlags::THUMB)
    }

    pub fn set_thumb_mode(&mut self, thumb: bool)
        ensures
            final(self)@ == old(self)@.with_flag(CpsrFlags::THUMB, thumb),
    {
        self.set_flag(CpsrFlags::THUMB, thumb);
    }

    pub fn are_interrupts_enabled(&self) -> (r: bool)
        ensures
            r == self@.interrupts_enabled(),
    {
        !self.get_flag(CpsrFlags::IRQ)
    }

    pub fn set_interrupts_enabled(&mut self, enabled: bool)
        ensures
            final(self)@ == old(self)@.with_flag(CpsrFlags::IRQ, !enabled),
    {
        self.set_flag(CpsrFlags::IRQ, !enabled);
    }

    /// Sets negative and zero from a result.
    pub fn set_flags_from_result(&mut self, result: u32)
        ensures
            final(self)@ == old(self)@.with_nz(result),
    {
        self.set_flag_n(result >= 0x8000_0000);
        self.set_flag_z(result == 0);
    }

    /// Sets all four arithmetic flags.
    pub fn set_flags_nzcv(&mut self, result: u32, carry: bool, overflow: bool)
        ensures
            final(self)@ == old(self)@.with_nzcv(result, carry, overflow),
    {
        self.set_flags_from_result(result);
        self.set_flag_c(carry);
        self.set_flag_v(overflow);
    }

    /// Whether a condition code holds for the current flags.
    pub fn check_condition(&self, cond: usize) -> (r: bool)
        ensures
            r == self@.condition(cond),
            r == condition_holds(cond, self@.n(), self@.z(), self@.c(), self@.v()),
    {
        let n = self.get_flag_n();
        let z = self.get_flag_z();
        let c = self.get_flag_c();
        let v = self.get_flag_v();
        if cond == 0x0 {
            z
        } else if cond == 0x1 {
            !z
        } else if cond == 0x2 {
            c
        } else if cond == 0x3 {
            !c
        } else if cond == 0x4 {
            n
        } else if cond == 0x5 {
            !n
        } else if cond == 0x6 {
            v
        } else if cond == 0x7 {
            !v
        } else if cond == 0x8 {
            c && !z
        } else if cond == 0x9 {
            !(c && !z)
        } else if cond == 0xA {
            n == v
        } else if cond == 0xB {
            n != v
        } else if cond == 0xC {
            !z && n == v
        } else if cond == 0xD {
            z || n != v
        } else if cond == 0xE {
            true
        } else {
            false
        }
    }
}

impl Default for Cpu {
    fn default() -> (r: Self)
        ensures
            r@ == CpuView::fresh(),
    {
        Cpu::new()
    }
}

} // verus!
