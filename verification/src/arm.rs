//! The full-word instruction set: decoding by category and the effect of
//! each category on registers, status and memory.

use vstd::prelude::*;
use crate::alu::{
    add_spec, add_with_carry, carry_of_shift, decode_shift_kind, shift, shift_carry, shift_kind_of,
    shift_value, sub_spec, sub_with_carry, AluOut,
};
use crate::bits::{
    bit, count_bits, count_low_bits, extend_sign, extract, field, ror, rotate_right, sign_extend,
    test_bit, wrap32,
};
use crate::cpu::{Cpu, CpsrFlags, CpuView, Mode};
use crate::interrupt::InterruptView;
use crate::mem::{Memory, MemoryView};
use crate::swi::swi_effect;

verus! {

/// What one of the sixteen data operations computes from its two operands.
pub struct DataOp {
    /// The result.
    pub value: u32,
    /// Whether the result goes to the destination register.
    pub writes: bool,
    /// Whether the operation is an addition or subtraction, which decide
    /// carry and overflow as well.
    pub arithmetic: bool,
    pub carry: bool,
    pub overflow: bool,
}

pub open spec fn logical(value: u32, writes: bool) -> DataOp {
    DataOp { value, writes, arithmetic: false, carry: false, overflow: false }
}

pub open spec fn arithmetic(out: AluOut, writes: bool) -> DataOp {
    DataOp { value: out.value, writes, arithmetic: true, carry: out.carry, overflow: out.overflow }
}

/// The sixteen data operations by their code: AND, EOR, SUB, RSB, ADD, ADC,
/// SBC, RSC, then the four that only test (TST, TEQ and the two
/// comparisons), then ORR, MOV, BIC, MVN. `a` is the first operand, `b` the
/// second, `c` the carry flag.
pub open spec fn data_op(op: u32, a: u32, b: u32, c: bool) -> DataOp {
    if op == 0x0 {
        logical(a & b, true)
    } else if op == 0x1 {
        logical(a ^ b, true)
    } else if op == 0x2 {
        arithmetic(sub_spec(a, b, true), true)
    } else if op == 0x3 {
        arithmetic(sub_spec(b, a, true), true)
    } else if op == 0x4 {
        arithmetic(add_spec(a, b, false), true)
    } else if op == 0x5 {
        arithmetic(add_spec(a, b, c), true)
    } else if op == 0x6 {
        arithmetic(sub_spec(a, b, c), true)
    } else if op == 0x7 {
        arithmetic(sub_spec(b, a, c), true)
    } else if op == 0x8 {
        logical(a & b, false)
    } else if op == 0x9 {
        logical(a ^ b, false)
    } else if op == 0xA {
        arithmetic(sub_spec(a, b, true), false)
    } else if op == 0xB {
        arithmetic(add_spec(a, b, false), false)
    } else if op == 0xC {
        logical(a | b, true)
    } else if op == 0xD {
        logical(b, true)
    } else if op == 0xE {
        logical(a & !b, true)
    } else {
        logical(!b, true)
    }
}

fn make_logical(value: u32, writes: bool) -> (r: DataOp)
    ensures
        r == logical(value, writes),
{
    DataOp { value, writes, arithmetic: false, carry: false, overflow: false }
}

fn make_arithmetic(out: AluOut, writes: bool) -> (r: DataOp)
    ensures
        r == arithmetic(out, writes),
{
    DataOp { value: out.value, writes, arithmetic: true, carry: out.carry, overflow: out.overflow }
}

/// Computes one of the sixteen data operations.
pub fn compute_data_op(op: u32, a: u32, b: u32, c: bool) -> (r: DataOp)
    ensures
        r == data_op(op, a, b, c),
{
    if op == 0x0 {
        make_logical(a & b, true)
    } else if op == 0x1 {
        make_logical(a ^ b, true)
    } else if op == 0x2 {
        make_arithmetic(sub_with_carry(a, b, true), true)
    } else if op == 0x3 {
        make_arithmetic(sub_with_carry(b, a, true), true)
    } else if op == 0x4 {
        make_arithmetic(add_with_carry(a, b, false), true)
    } else if op == 0x5 {
        make_arithmetic(add_with_carry(a, b, c), true)
    } else if op == 0x6 {
        make_arithmetic(sub_with_carry(a, b, c), true)
    } else if op == 0x7 {
        make_arithmetic(sub_with_carry(b, a, c), true)
    } else if op == 0x8 {
        make_logical(a & b, false)
    } else if op == 0x9 {
        make_logical(a ^ b, false)
    } else if op == 0xA {
        make_arithmetic(sub_with_carry(a, b, true), false)
    } else if op == 0xB {
        make_arithmetic(add_with_carry(a, b, false), false)
    } else if op == 0xC {
        make_logical(a | b, true)
    } else if op == 0xD {
        make_logical(b, true)
    } else if op == 0xE {
        make_logical(a & !b, true)
    } else {
        make_logical(!b, true)
    }
}

/// An eight-bit immediate rotated right by twice its four-bit rotation.
pub open spec fn rotated_immediate(operand2: u32) -> u32 {
    ror(field(operand2, 0, 0xFF), (field(operand2, 8, 0xF) * 2) as u32)
}

/// The second operand of a data operation: a rotated immediate, or a
/// register shifted by an immediate amount or by the low byte of another
/// register.
pub open spec fn operand2_value(c: CpuView, operand2: u32, is_immediate: bool) -> u32 {
    if is_immediate {
        rotated_immediate(operand2)
    } else {
        shift_value(
            shift_kind_of(field(operand2, 5, 0x3)),
            c.operand(field(operand2, 0, 0xF) as int),
            operand2_amount(c, operand2),
        )
    }
}

/// The shift amount of a register operand: five bits of the instruction,
/// or the low byte of another register where bit 4 is set.
pub open spec fn operand2_amount(c: CpuView, operand2: u32) -> u32 {
    if bit(operand2, 4) {
        c.operand(field(operand2, 8, 0xF) as int) & 0xFF
    } else {
        field(operand2, 7, 0x1F)
    }
}

/// The carry that the shifter leaves while it forms the second operand:
/// the last bit shifted out of a register operand, and the carry flag as it
/// was where nothing is shifted or the operand is an immediate.
pub open spec fn operand2_carry(c: CpuView, operand2: u32, is_immediate: bool) -> bool {
    if is_immediate {
        c.c()
    } else {
        shift_carry(
            shift_kind_of(field(operand2, 5, 0x3)),
            c.operand(field(operand2, 0, 0xF) as int),
            operand2_amount(c, operand2),
            c.c(),
        )
    }
}

/// The state after the status register is loaded with `value`: the banks
/// are switched to the mode that `value` names, then every bit is taken
/// from `value`.
pub open spec fn load_status(c: CpuView, value: u32) -> CpuView {
    CpuView { cpsr: value, ..c.set_mode(Mode::spec_from_bits(value)) }
}

/// The state after a return from an exception: the status register is
/// loaded from the current mode's saved one.
pub open spec fn restore_status(c: CpuView) -> CpuView {
    load_status(c, c.spsr())
}

/// The state after a jump to `value` whose lowest bit selects the
/// instruction set.
pub open spec fn exchange_to(c: CpuView, value: u32) -> CpuView {
    c.with_flag(CpsrFlags::THUMB, value % 2 == 1).with_pc(value)
}

/// The controller after the handler was left: the latch released and the
/// master switch on again.
pub open spec fn handler_left(v: InterruptView) -> InterruptView {
    InterruptView { in_interrupt: false, ime: true, ..v }
}

/// The processor and the bus after a return from an exception: the status
/// register is restored, and a return from the interrupt mode tells the
/// controller that the handler was left.
pub open spec fn exception_return(c: CpuView, m: MemoryView) -> (CpuView, MemoryView) {
    (
        restore_status(c),
        if c.mode() == Mode::Irq {
            MemoryView { interrupt: handler_left(m.interrupt), ..m }
        } else {
            m
        },
    )
}

/// A data-processing instruction. Flags are set when the instruction asks
/// for it or only tests: an addition or subtraction decides all four, any
/// other operation negative and zero from the result and carry from the
/// shifter. A result written to R15 is a jump, which is a return from an
/// exception when flags were asked for and else selects the instruction set
/// by the result's lowest bit.
pub open spec fn arm_data_processing(c: CpuView, m: MemoryView, opcode: u32) -> (
    CpuView,
    MemoryView,
    u32,
) {
    let op = field(opcode, 21, 0xF);
    let s = bit(opcode, 20);
    let rn = field(opcode, 16, 0xF) as int;
    let rd = field(opcode, 12, 0xF) as int;
    let d = data_op(
        op,
        c.operand(rn),
        operand2_value(c, opcode & 0xFFF, bit(opcode, 25)),
        c.c(),
    );
    let written = if d.writes {
        c.with_reg(rd, d.value)
    } else {
        c
    };
    let flagged = if !(s || !d.writes) {
        written
    } else if d.arithmetic {
        written.with_nzcv(d.value, d.carry, d.overflow)
    } else {
        written.with_nz(d.value).with_flag(
            CpsrFlags::C,
            operand2_carry(c, opcode & 0xFFF, bit(opcode, 25)),
        )
    };
    if d.writes && rd == 15 {
        if s {
            (
                exception_return(flagged, m).0.with_pc(d.value),
                exception_return(flagged, m).1,
                1,
            )
        } else {
            (exchange_to(flagged, d.value), m, 1)
        }
    } else {
        (flagged.advance(4), m, 1)
    }
}

/// The bytes of the status register that a write may touch, from the four
/// field bits of the instruction.
pub open spec fn status_field_mask(opcode: u32) -> u32 {
    (if bit(opcode, 19) {
        0xFF00_0000u32
    } else {
        0
    }) | (if bit(opcode, 18) {
        0x00FF_0000u32
    } else {
        0
    }) | (if bit(opcode, 17) {
        0x0000_FF00u32
    } else {
        0
    }) | (if bit(opcode, 16) {
        0x0000_00FFu32
    } else {
        0
    })
}

/// A transfer between a register and a status register. Bit 21 tells a
/// write from a read, bit 22 the saved status register from the live one.
/// User mode may write the flag byte only; a write that changes the mode
/// switches the banks.
pub open spec fn arm_psr(c: CpuView, opcode: u32) -> (CpuView, u32) {
    let saved = bit(opcode, 22);
    if !bit(opcode, 21) {
        let rd = field(opcode, 12, 0xF) as int;
        let value = if saved {
            c.spsr()
        } else {
            c.cpsr
        };
        (c.with_reg(rd, value).advance(4), 1)
    } else {
        let value = if bit(opcode, 25) {
            rotated_immediate(opcode & 0xFFF)
        } else {
            c.operand(field(opcode, 0, 0xF) as int)
        };
        let mask = status_field_mask(opcode);
        if saved {
            (c.with_spsr((c.spsr() & !mask) | (value & mask)).advance(4), 1)
        } else {
            let allowed = if c.mode() == Mode::User {
                mask & 0xFF00_0000
            } else {
                mask
            };
            (load_status(c, (c.cpsr & !allowed) | (value & allowed)).advance(4), 1)
        }
    }
}

/// Branch and exchange: a jump to a register's value whose lowest bit
/// selects the instruction set.
pub open spec fn arm_bx(c: CpuView, opcode: u32) -> (CpuView, u32) {
    (exchange_to(c, c.operand(field(opcode, 0, 0xF) as int)), 2)
}

/// The byte distance that a branch encodes: its 24-bit field read as a
/// signed count of words.
pub open spec fn branch_distance(opcode: u32) -> int {
    let words = field(opcode, 0, 0xFF_FFFF);
    if words >= 0x80_0000 {
        (words - 0x100_0000) * 4
    } else {
        words * 4
    }
}

/// Where a branch at `instruction_pc` goes: the encoded distance is counted
/// from the value that R15 reads as, two instructions past the branch.
pub open spec fn branch_target(instruction_pc: u32, opcode: u32) -> u32 {
    wrap32(instruction_pc + 8 + branch_distance(opcode))
}

/// A branch, with the address of the next instruction kept in the link
/// register when bit 24 asks for it.
pub open spec fn arm_branch(c: CpuView, opcode: u32, instruction_pc: u32) -> (CpuView, u32) {
    let linked = if bit(opcode, 24) {
        c.with_reg(14, instruction_pc.wrapping_add(4))
    } else {
        c
    };
    (linked.with_pc(branch_target(instruction_pc, opcode)), 2)
}

/// The offset of a single-register transfer: twelve bits as they stand, or
/// a register shifted by an immediate amount.
pub open spec fn transfer_offset(c: CpuView, opcode: u32) -> u32 {
    if bit(opcode, 25) {
        shift_value(
            shift_kind_of(field(opcode, 5, 0x3)),
            c.operand(field(opcode, 0, 0xF) as int),
            field(opcode, 7, 0x1F),
        )
    } else {
        field(opcode, 0, 0xFFF)
    }
}

/// The offset of a half-word or signed transfer: eight bits split over two
/// nibbles, or a register.
pub open spec fn halfword_offset(c: CpuView, opcode: u32) -> u32 {
    if bit(opcode, 22) {
        (field(opcode, 8, 0xF) * 16 + field(opcode, 0, 0xF)) as u32
    } else {
        c.operand(field(opcode, 0, 0xF) as int)
    }
}

/// The base moved by the offset, up or down as bit 23 says.
pub open spec fn offset_base(opcode: u32, base: u32, offset: u32) -> u32 {
    if bit(opcode, 23) {
        base.wrapping_add(offset)
    } else {
        base.wrapping_sub(offset)
    }
}

/// The address that a transfer uses: the moved base when indexing comes
/// first (bit 24), the base itself when it comes after.
pub open spec fn transfer_address(opcode: u32, base: u32, offset: u32) -> u32 {
    if bit(opcode, 24) {
        offset_base(opcode, base, offset)
    } else {
        base
    }
}

/// The state after the base register took the moved base, which happens
/// when indexing comes after the transfer or write-back is asked for
/// (bit 21).
pub open spec fn write_back(c: CpuView, opcode: u32, offset: u32) -> CpuView {
    let rn = field(opcode, 16, 0xF) as int;
    if !bit(opcode, 24) || bit(opcode, 21) {
        c.with_reg(rn, offset_base(opcode, c.operand(rn), offset))
    } else {
        c
    }
}

/// A load or store of a word or a byte. The base is written back before a
/// loaded value lands, so a load into the base keeps the loaded value; a
/// load into R15 is a jump.
pub open spec fn arm_single_transfer(c: CpuView, m: MemoryView, opcode: u32) -> (
    CpuView,
    MemoryView,
    u32,
) {
    let rn = field(opcode, 16, 0xF) as int;
    let rd = field(opcode, 12, 0xF) as int;
    let offset = transfer_offset(c, opcode);
    let addr = transfer_address(opcode, c.operand(rn), offset);
    let based = write_back(c, opcode, offset);
    if bit(opcode, 20) {
        let value = if bit(opcode, 22) {
            m.read_byte(addr) as u32
        } else {
            m.read_word(addr)
        };
        if rd == 15 {
            (based.with_pc(value), m, 2)
        } else {
            (based.with_reg(rd, value).advance(4), m, 2)
        }
    } else {
        let stored = if bit(opcode, 22) {
            m.write_byte(addr, (c.operand(rd) % 0x100) as u8)
        } else {
            m.write_word(addr, c.operand(rd))
        };
        (based.advance(4), stored, 2)
    }
}

/// A load or store of a half-word, or a load of a signed byte or signed
/// half-word. Bits 6 and 5 of a load select among the three.
pub open spec fn arm_halfword_transfer(c: CpuView, m: MemoryView, opcode: u32) -> (
    CpuView,
    MemoryView,
    u32,
) {
    let rn = field(opcode, 16, 0xF) as int;
    let rd = field(opcode, 12, 0xF) as int;
    let offset = halfword_offset(c, opcode);
    let addr = transfer_address(opcode, c.operand(rn), offset);
    let based = write_back(c, opcode, offset);
    if bit(opcode, 20) {
        let value = if bit(opcode, 6) {
            if bit(opcode, 5) {
                sign_extend(m.read_half(addr) as u32, 0x8000)
            } else {
                sign_extend(m.read_byte(addr) as u32, 0x80)
            }
        } else {
            m.read_half(addr) as u32
        };
        (based.with_reg(rd, value).advance(4), m, 2)
    } else {
        (based.advance(4), m.write_half(addr, (c.operand(rd) % 0x1_0000) as u16), 2)
    }
}

/// Registers `from` up to `end` that are named in `list`, loaded from
/// successive words starting at `addr`.
pub open spec fn load_registers(
    c: CpuView,
    m: MemoryView,
    list: u32,
    from: nat,
    end: nat,
    addr: u32,
) -> CpuView
    decreases end - from,
{
    if from >= end {
        c
    } else if bit(list, from as u32) {
        load_registers(
            c.with_reg(from as int, m.read_word(addr)),
            m,
            list,
            from + 1,
            end,
            addr.wrapping_add(4),
        )
    } else {
        load_registers(c, m, list, from + 1, end, addr)
    }
}

/// Registers `from` up to `end` that are named in `list`, stored to
/// successive words starting at `addr`.
pub open spec fn store_registers(
    c: CpuView,
    m: MemoryView,
    list: u32,
    from: nat,
    end: nat,
    addr: u32,
) -> MemoryView
    decreases end - from,
{
    if from >= end {
        m
    } else if bit(list, from as u32) {
        store_registers(
            c,
            m.write_word(addr, c.operand(from as int)),
            list,
            from + 1,
            end,
            addr.wrapping_add(4),
        )
    } else {
        store_registers(c, m, list, from + 1, end, addr)
    }
}

/// The lowest address that a block transfer of `count` registers touches:
/// increment after starts at the base, increment before one word above,
/// decrement before `count` words below, decrement after one word above
/// that.
pub open spec fn block_start(opcode: u32, base: u32, count: u32) -> u32 {
    let span = (count * 4) as u32;
    if bit(opcode, 23) {
        if bit(opcode, 24) {
            base.wrapping_add(4)
        } else {
            base
        }
    } else {
        if bit(opcode, 24) {
            base.wrapping_sub(span)
        } else {
            base.wrapping_sub(span).wrapping_add(4)
        }
    }
}

/// The base after a block transfer of `count` registers.
pub open spec fn block_end(opcode: u32, base: u32, count: u32) -> u32 {
    let span = (count * 4) as u32;
    if bit(opcode, 23) {
        base.wrapping_add(span)
    } else {
        base.wrapping_sub(span)
    }
}

/// A load or store of several registers. The registers go to ascending
/// addresses in ascending order. A load writes the base back first, so a
/// loaded base keeps the loaded value; a store writes it back last. A load
/// of R15 is a jump: with bit 22 it is a return from an exception, without
/// it the loaded value's lowest bit selects the instruction set.
pub open spec fn arm_block_transfer(c: CpuView, m: MemoryView, opcode: u32) -> (
    CpuView,
    MemoryView,
    u32,
) {
    let rn = field(opcode, 16, 0xF) as int;
    let list = opcode & 0xFFFF;
    let count = count_bits(list, 16) as u32;
    let base = c.operand(rn);
    let start = block_start(opcode, base, count);
    let end = block_end(opcode, base, count);
    if bit(opcode, 20) {
        let based = if bit(opcode, 21) {
            c.with_reg(rn, end)
        } else {
            c
        };
        let loaded = load_registers(based, m, list, 0, 16, start);
        if bit(list, 15) {
            if bit(opcode, 22) {
                (
                    exception_return(loaded, m).0.with_pc(loaded.regs[15]),
                    exception_return(loaded, m).1,
                    3,
                )
            } else {
                (exchange_to(loaded, loaded.regs[15]), m, 3)
            }
        } else {
            (loaded.advance(4), m, 3)
        }
    } else {
        let stored = store_registers(c, m, list, 0, 16, start);
        let based = if bit(opcode, 21) {
            c.with_reg(rn, end)
        } else {
            c
        };
        (based.advance(4), stored, 3)
    }
}

/// The categories of full-word instructions.
#[derive(Debug, Clone, Copy, PartialEq, Eq, Structural)]
pub enum ArmClass {
    BranchExchange,
    HalfwordTransfer,
    StatusTransfer,
    DataProcessing,
    SingleTransfer,
    BlockTransfer,
    Branch,
    SoftwareInterrupt,
}

/// The category of an instruction. Bits 27 and 26 select among data
/// operations, single transfers, block transfers with branches, and the
/// rest; patterns that name nothing fall to the nearest category.
pub open spec fn arm_class(opcode: u32) -> ArmClass {
    let category = field(opcode, 26, 0x3);
    if category == 0 {
        if opcode & 0x0FFF_FFF0 == 0x012F_FF10 {
            ArmClass::BranchExchange
        } else if !bit(opcode, 25) && bit(opcode, 7) && bit(opcode, 4) && field(opcode, 5, 0x3)
            != 0 {
            ArmClass::HalfwordTransfer
        } else if field(opcode, 23, 0x3) == 2 && !bit(opcode, 20) {
            ArmClass::StatusTransfer
        } else {
            ArmClass::DataProcessing
        }
    } else if category == 1 {
        ArmClass::SingleTransfer
    } else if category == 2 {
        if bit(opcode, 25) {
            ArmClass::Branch
        } else {
            ArmClass::BlockTransfer
        }
    } else {
        if field(opcode, 24, 0xF) == 0xF {
            ArmClass::SoftwareInterrupt
        } else {
            ArmClass::Branch
        }
    }
}

/// One full-word instruction at the program counter. An instruction whose
/// condition fails does nothing but step over itself, in one cycle.
pub open spec fn arm_execute(c: CpuView, m: MemoryView, opcode: u32) -> (CpuView, MemoryView, u32) {
    if !c.condition(field(opcode, 28, 0xF) as usize) {
        (c.advance(4), m, 1)
    } else {
        match arm_class(opcode) {
            ArmClass::BranchExchange => (arm_bx(c, opcode).0, m, arm_bx(c, opcode).1),
            ArmClass::HalfwordTransfer => arm_halfword_transfer(c, m, opcode),
            ArmClass::StatusTransfer => (arm_psr(c, opcode).0, m, arm_psr(c, opcode).1),
            ArmClass::DataProcessing => arm_data_processing(c, m, opcode),
            ArmClass::SingleTransfer => arm_single_transfer(c, m, opcode),
            ArmClass::BlockTransfer => arm_block_transfer(c, m, opcode),
            ArmClass::Branch => (
                arm_branch(c, opcode, c.pc()).0,
                m,
                arm_branch(c, opcode, c.pc()).1,
            ),
            ArmClass::SoftwareInterrupt => (
                swi_effect(c, m.has_bios(), opcode & 0xFF_FFFF, 4),
                m,
                6,
            ),
        }
    }
}

/// One step in the full-word instruction set: the word at the program
/// counter is fetched and executed.
pub open spec fn arm_step(c: CpuView, m: MemoryView) -> (CpuView, MemoryView, u32) {
    arm_execute(c, m, m.read_word(c.pc()))
}

impl Cpu {
    /// Decodes the second operand of a data operation.
    pub fn decode_operand2(&self, operand2: u32, is_immediate: bool) -> (r: u32)
        ensures
            r == operand2_value(self@, operand2, is_immediate),
    {
        if is_immediate {
            let imm8 = extract(operand2, 0, 0xFF);
            let rotate = extract(operand2, 8, 0xF) * 2;
            rotate_right(imm8, rotate)
        } else {
            let value = self.operand(extract(operand2, 0, 0xF) as usize);
            let kind = decode_shift_kind(extract(operand2, 5, 0x3));
            shift(kind, value, self.operand2_amount(operand2))
        }
    }

    fn operand2_amount(&self, operand2: u32) -> (r: u32)
        ensures
            r == operand2_amount(self@, operand2),
    {
        if test_bit(operand2, 4) {
            self.operand(extract(operand2, 8, 0xF) as usize) & 0xFF
        } else {
            extract(operand2, 7, 0x1F)
        }
    }

    /// The carry that the shifter leaves while it forms the second operand.
    pub fn decode_operand2_carry(&self, operand2: u32, is_immediate: bool) -> (r: bool)
        ensures
            r == operand2_carry(self@, operand2, is_immediate),
    {
        if is_immediate {
            self.get_flag_c()
        } else {
            carry_of_shift(
                decode_shift_kind(extract(operand2, 5, 0x3)),
                self.operand(extract(operand2, 0, 0xF) as usize),
                self.operand2_amount(operand2),
                self.get_flag_c(),
            )
        }
    }

    /// Returns from an exception.
    pub fn exception_return(&mut self, mem: &mut Memory)
        ensures
            (final(self)@, final(mem)@) == exception_return(old(self)@, old(mem)@),
    {
        let leaving = self.get_mode() == Mode::Irq;
        self.restore_status();
        if leaving {
            mem.interrupt.exit_interrupt();
        }
    }

    /// Loads the status register with `value`, switching banks.
    pub fn load_status(&mut self, value: u32)
        ensures
            final(self)@ == load_status(old(self)@, value),
    {
        self.set_mode(Mode::from_bits(value));
        self.set_cpsr_raw(value);
    }

    /// Loads the status register from the current mode's saved one.
    pub fn restore_status(&mut self)
        ensures
            final(self)@ == restore_status(old(self)@),
    {
        let saved = self.get_spsr();
        self.load_status(saved);
    }

    /// Jumps to `value`; its lowest bit selects the instruction set.
    pub fn exchange_to(&mut self, value: u32)
        ensures
            final(self)@ == exchange_to(old(self)@, value),
    {
        self.set_thumb_mode(value % 2 == 1);
        self.set_pc(value);
    }

    pub fn execute_arm_data_processing(&mut self, opcode: u32, mem: &mut Memory) -> (cycles: u32)
        ensures
            (final(self)@, final(mem)@, cycles) == arm_data_processing(
                old(self)@,
                old(mem)@,
                opcode,
            ),
    {
        let op = extract(opcode, 21, 0xF);
        let s = test_bit(opcode, 20);
        let rn = extract(opcode, 16, 0xF) as usize;
        let rd = extract(opcode, 12, 0xF) as usize;
        let rn_val = self.operand(rn);
        let op2_val = self.decode_operand2(opcode & 0xFFF, test_bit(opcode, 25));
        let shifter_carry = self.decode_operand2_carry(opcode & 0xFFF, test_bit(opcode, 25));
        let d = compute_data_op(op, rn_val, op2_val, self.get_flag_c());
        if d.writes {
            self.set_reg(rd, d.value);
        }
        if s || !d.writes {
            if d.arithmetic {
                self.set_flags_nzcv(d.value, d.carry, d.overflow);
            } else {
                self.set_flags_from_result(d.value);
                self.set_flag_c(shifter_carry);
            }
        }
        if d.writes && rd == 15 {
            if s {
                self.exception_return(mem);
                self.set_pc(d.value);
            } else {
                self.exchange_to(d.value);
            }
        } else {
            self.advance(4);
        }
        1
    }

    pub fn execute_arm_psr(&mut self, opcode: u32, mem: &mut Memory) -> (cycles: u32)
        ensures
            (final(self)@, cycles) == arm_psr(old(self)@, opcode),
            final(mem)@ == old(mem)@,
    {
        let saved = test_bit(opcode, 22);
        if !test_bit(opcode, 21) {
            let rd = extract(opcode, 12, 0xF) as usize;
            let value = if saved {
                self.get_spsr()
            } else {
                self.get_cpsr()
            };
            self.set_reg(rd, value);
        } else {
            let value = if test_bit(opcode, 25) {
                self.decode_operand2(opcode & 0xFFF, true)
            } else {
                self.operand(extract(opcode, 0, 0xF) as usize)
            };
            let mask: u32 = (if test_bit(opcode, 19) {
                0xFF00_0000u32
            } else {
                0
            }) | (if test_bit(opcode, 18) {
                0x00FF_0000u32
            } else {
                0
            }) | (if test_bit(opcode, 17) {
                0x0000_FF00u32
            } else {
                0
            }) | (if test_bit(opcode, 16) {
                0x0000_00FFu32
            } else {
                0
            });
            if saved {
                let current = self.get_spsr();
                self.set_spsr((current & !mask) | (value & mask));
            } else {
                let allowed = if self.get_mode() == Mode::User {
                    mask & 0xFF00_0000
                } else {
                    mask
                };
                let current = self.get_cpsr();
                self.load_status((current & !allowed) | (value & allowed));
            }
        }
        self.advance(4);
        1
    }

    pub fn execute_arm_bx(&mut self, opcode: u32, mem: &mut Memory) -> (cycles: u32)
        ensures
            (final(self)@, cycles) == arm_bx(old(self)@, opcode),
            final(mem)@ == old(mem)@,
    {
        let target = self.operand(extract(opcode, 0, 0xF) as usize);
        self.exchange_to(target);
        2
    }

    pub fn execute_arm_branch(&mut self, opcode: u32, instruction_pc: u32, mem: &mut Memory) -> (cycles:
        u32)
        ensures
            (final(self)@, cycles) == arm_branch(old(self)@, opcode, instruction_pc),
            final(mem)@ == old(mem)@,
    {
        let words = extract(opcode, 0, 0xFF_FFFF);
        let ahead = instruction_pc.wrapping_add(8);
        let target = if words >= 0x80_0000 {
            ahead.wrapping_sub((0x100_0000 - words) * 4)
        } else {
            ahead.wrapping_add(words * 4)
        };
        if test_bit(opcode, 24) {
            self.set_lr(instruction_pc.wrapping_add(4));
        }
        self.set_pc(target);
        2
    }

    fn transfer_offset(&self, opcode: u32) -> (r: u32)
        ensures
            r == transfer_offset(self@, opcode),
    {
        if test_bit(opcode, 25) {
            shift(
                decode_shift_kind(extract(opcode, 5, 0x3)),
                self.operand(extract(opcode, 0, 0xF) as usize),
                extract(opcode, 7, 0x1F),
            )
        } else {
            extract(opcode, 0, 0xFFF)
        }
    }

    fn offset_base(opcode: u32, base: u32, offset: u32) -> (r: u32)
        ensures
            r == offset_base(opcode, base, offset),
    {
        if test_bit(opcode, 23) {
            base.wrapping_add(offset)
        } else {
            base.wrapping_sub(offset)
        }
    }

    fn write_back(&mut self, opcode: u32, offset: u32)
        ensures
            final(self)@ == write_back(old(self)@, opcode, offset),
    {
        let rn = extract(opcode, 16, 0xF) as usize;
        if !test_bit(opcode, 24) || test_bit(opcode, 21) {
            let moved = Self::offset_base(opcode, self.operand(rn), offset);
            self.set_reg(rn, moved);
        }
    }

    fn single_transfer(&mut self, opcode: u32, mem: &mut Memory) -> (cycles: u32)
        ensures
            (final(self)@, final(mem)@, cycles) == arm_single_transfer(
                old(self)@,
                old(mem)@,
                opcode,
            ),
    {
        let rn = extract(opcode, 16, 0xF) as usize;
        let rd = extract(opcode, 12, 0xF) as usize;
        let offset = self.transfer_offset(opcode);
        let base = self.operand(rn);
        let addr = if test_bit(opcode, 24) {
            Self::offset_base(opcode, base, offset)
        } else {
            base
        };
        let store_value = self.operand(rd);
        self.write_back(opcode, offset);
        if test_bit(opcode, 20) {
            let value = if test_bit(opcode, 22) {
                mem.read_byte(addr) as u32
            } else {
                mem.read_word(addr)
            };
            if rd == 15 {
                self.set_pc(value);
            } else {
                self.set_reg(rd, value);
                self.advance(4);
            }
        } else {
            if test_bit(opcode, 22) {
                mem.write_byte(addr, (store_value % 0x100) as u8);
            } else {
                mem.write_word(addr, store_value);
            }
            self.advance(4);
        }
        2
    }

    /// A single-register transfer with an immediate offset.
    pub fn execute_arm_load_store(&mut self, opcode: u32, mem: &mut Memory) -> (cycles: u32)
        ensures
            (final(self)@, final(mem)@, cycles) == arm_single_transfer(
                old(self)@,
                old(mem)@,
                opcode,
            ),
    {
        self.single_transfer(opcode, mem)
    }

    /// A single-register transfer with a shifted register as offset.
    pub fn execute_arm_load_store_register(&mut self, opcode: u32, mem: &mut Memory) -> (cycles:
        u32)
        ensures
            (final(self)@, final(mem)@, cycles) == arm_single_transfer(
                old(self)@,
                old(mem)@,
                opcode,
            ),
    {
        self.single_transfer(opcode, mem)
    }

    pub fn execute_arm_load_store_halfword(&mut self, opcode: u32, mem: &mut Memory) -> (cycles:
        u32)
        ensures
            (final(self)@, final(mem)@, cycles) == arm_halfword_transfer(
                old(self)@,
                old(mem)@,
                opcode,
            ),
    {
        let rn = extract(opcode, 16, 0xF) as usize;
        let rd = extract(opcode, 12, 0xF) as usize;
        let offset = if test_bit(opcode, 22) {
            extract(opcode, 8, 0xF) * 16 + extract(opcode, 0, 0xF)
        } else {
            self.operand(extract(opcode, 0, 0xF) as usize)
        };
        let base = self.operand(rn);
        let addr = if test_bit(opcode, 24) {
            Self::offset_base(opcode, base, offset)
        } else {
            base
        };
        let store_value = self.operand(rd);
        self.write_back(opcode, offset);
        if test_bit(opcode, 20) {
            let value = if test_bit(opcode, 6) {
                if test_bit(opcode, 5) {
                    extend_sign(mem.read_half(addr) as u32, 0x8000)
                } else {
                    extend_sign(mem.read_byte(addr) as u32, 0x80)
                }
            } else {
                mem.read_half(addr) as u32
            };
            self.set_reg(rd, value);
        } else {
            mem.write_half(addr, (store_value % 0x1_0000) as u16);
        }
        self.advance(4);
        2
    }

    /// Loads the registers below `end` that `list` names from successive
    /// words starting at `addr`.
    pub fn load_registers(&mut self, mem: &Memory, list: u32, end: u32, addr: u32)
        requires
            end <= 16,
        ensures
            final(self)@ == load_registers(old(self)@, mem@, list, 0, end as nat, addr),
    {
        let mut i: u32 = 0;
        let mut at: u32 = addr;
        while i < end
            invariant
                i <= end <= 16,
                load_registers(old(self)@, mem@, list, 0, end as nat, addr) == load_registers(
                    self@,
                    mem@,
                    list,
                    i as nat,
                    end as nat,
                    at,
                ),
            decreases end - i,
        {
            if test_bit(list, i) {
                let value = mem.read_word(at);
                self.set_reg(i as usize, value);
                at = at.wrapping_add(4);
            }
            i = i + 1;
        }
    }

    /// Stores the registers below `end` that `list` names to successive
    /// words starting at `addr`.
    pub fn store_registers(&self, mem: &mut Memory, list: u32, end: u32, addr: u32)
        requires
            end <= 16,
        ensures
            final(mem)@ == store_registers(self@, old(mem)@, list, 0, end as nat, addr),
    {
        let mut i: u32 = 0;
        let mut at: u32 = addr;
        while i < end
            invariant
                i <= end <= 16,
                store_registers(self@, old(mem)@, list, 0, end as nat, addr) == store_registers(
                    self@,
                    mem@,
                    list,
                    i as nat,
                    end as nat,
                    at,
                ),
            decreases end - i,
        {
            if test_bit(list, i) {
                mem.write_word(at, self.operand(i as usize));
                at = at.wrapping_add(4);
            }
            i = i + 1;
        }
    }

    pub fn execute_arm_block_data_transfer(&mut self, opcode: u32, mem: &mut Memory) -> (cycles:
        u32)
        ensures
            (final(self)@, final(mem)@, cycles) == arm_block_transfer(
                old(self)@,
                old(mem)@,
                opcode,
            ),
    {
        let rn = extract(opcode, 16, 0xF) as usize;
        let list = opcode & 0xFFFF;
        let count = count_low_bits(list, 16);
        let span: u32 = count * 4;
        let base = self.operand(rn);
        let up = test_bit(opcode, 23);
        let before = test_bit(opcode, 24);
        let start = if up {
            if before {
                base.wrapping_add(4)
            } else {
                base
            }
        } else {
            if before {
                base.wrapping_sub(span)
            } else {
                base.wrapping_sub(span).wrapping_add(4)
            }
        };
        let end = if up {
            base.wrapping_add(span)
        } else {
            base.wrapping_sub(span)
        };
        if test_bit(opcode, 20) {
            if test_bit(opcode, 21) {
                self.set_reg(rn, end);
            }
            self.load_registers(mem, list, 16, start);
            if test_bit(list, 15) {
                let target = self.get_reg(15);
                if test_bit(opcode, 22) {
                    self.exception_return(mem);
                    self.set_pc(target);
                } else {
                    self.exchange_to(target);
                }
            } else {
                self.advance(4);
            }
        } else {
            self.store_registers(mem, list, 16, start);
            if test_bit(opcode, 21) {
                self.set_reg(rn, end);
            }
            self.advance(4);
        }
        3
    }

    /// Finds the category of an instruction.
    pub fn classify_arm(opcode: u32) -> (r: ArmClass)
        ensures
            r == arm_class(opcode),
    {
        let category = extract(opcode, 26, 0x3);
        if category == 0 {
            if opcode & 0x0FFF_FFF0 == 0x012F_FF10 {
                ArmClass::BranchExchange
            } else if !test_bit(opcode, 25) && test_bit(opcode, 7) && test_bit(opcode, 4)
                && extract(opcode, 5, 0x3) != 0 {
                ArmClass::HalfwordTransfer
            } else if extract(opcode, 23, 0x3) == 2 && !test_bit(opcode, 20) {
                ArmClass::StatusTransfer
            } else {
                ArmClass::DataProcessing
            }
        } else if category == 1 {
            ArmClass::SingleTransfer
        } else if category == 2 {
            if test_bit(opcode, 25) {
                ArmClass::Branch
            } else {
                ArmClass::BlockTransfer
            }
        } else {
            if extract(opcode, 24, 0xF) == 0xF {
                ArmClass::SoftwareInterrupt
            } else {
                ArmClass::Branch
            }
        }
    }

    /// Executes one full-word instruction that was fetched from the
    /// program counter.
    pub fn execute_arm_with_pc(&mut self, opcode: u32, mem: &mut Memory) -> (cycles: u32)
        ensures
            (final(self)@, final(mem)@, cycles) == arm_execute(old(self)@, old(mem)@, opcode),
    {
        let cond = extract(opcode, 28, 0xF) as usize;
        if !self.check_condition(cond) {
            self.advance(4);
            return 1;
        }
        match Self::classify_arm(opcode) {
            ArmClass::BranchExchange => self.execute_arm_bx(opcode, mem),
            ArmClass::HalfwordTransfer => self.execute_arm_load_store_halfword(opcode, mem),
            ArmClass::StatusTransfer => self.execute_arm_psr(opcode, mem),
            ArmClass::DataProcessing => self.execute_arm_data_processing(opcode, mem),
            ArmClass::SingleTransfer => {
                if test_bit(opcode, 25) {
                    self.execute_arm_load_store_register(opcode, mem)
                } else {
                    self.execute_arm_load_store(opcode, mem)
                }
            },
            ArmClass::BlockTransfer => self.execute_arm_block_data_transfer(opcode, mem),
            ArmClass::Branch => {
                let instruction_pc = self.get_pc();
                self.execute_arm_branch(opcode, instruction_pc, mem)
            },
            ArmClass::SoftwareInterrupt => self.execute_arm_swi(opcode, mem),
        }
    }

    /// Fetches and executes one full-word instruction.
    pub fn step_arm(&mut self, mem: &mut Memory) -> (cycles: u32)
        ensures
            (final(self)@, final(mem)@, cycles) == arm_step(old(self)@, old(mem)@),
    {
        let opcode = mem.read_word(self.get_pc());
        self.execute_arm_with_pc(opcode, mem)
    }
}

} // verus!
