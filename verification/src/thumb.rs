//! The half-word instruction set: decoding by the top bits and the effect
//! of each format on registers, status and memory.

use vstd::prelude::*;
use crate::alu::{
    add_spec, add_with_carry, carry_of_shift, decode_shift_kind, shift, shift_carry, shift_kind_of,
    shift_value, sub_spec, sub_with_carry, AluOut, ShiftKind,
};
use crate::arm::{exchange_to, load_registers, store_registers};
use crate::bits::{
    bit, count_bits, count_low_bits, extend_sign, extract, field, sign_extend, test_bit, wrap32,
};
use crate::cpu::{Cpu, CpsrFlags, CpuView};
use crate::mem::{Memory, MemoryView};
use crate::swi::swi_effect;

verus! {

/// What a half-word data operation computes, and which flags beside
/// negative and zero it decides.
pub struct ThumbOp {
    pub value: u32,
    /// Whether the result goes to the destination register.
    pub writes: bool,
    pub sets_carry: bool,
    pub carry: bool,
    pub sets_overflow: bool,
    pub overflow: bool,
}

pub open spec fn plain_op(value: u32, writes: bool) -> ThumbOp {
    ThumbOp {
        value,
        writes,
        sets_carry: false,
        carry: false,
        sets_overflow: false,
        overflow: false,
    }
}

pub open spec fn shifted_op(value: u32, carry: bool) -> ThumbOp {
    ThumbOp { value, writes: true, sets_carry: true, carry, sets_overflow: false, overflow: false }
}

pub open spec fn summed_op(out: AluOut, writes: bool) -> ThumbOp {
    ThumbOp {
        value: out.value,
        writes,
        sets_carry: true,
        carry: out.carry,
        sets_overflow: true,
        overflow: out.overflow,
    }
}

/// The state after a data operation on register `rd`: the result written
/// where the operation writes, negative and zero from the result, carry
/// and overflow where the operation decides them.
pub open spec fn apply_op(c: CpuView, rd: int, t: ThumbOp) -> CpuView {
    let written = if t.writes {
        c.with_reg(rd, t.value)
    } else {
        c
    };
    let nz = written.with_nz(t.value);
    let carried = if t.sets_carry {
        nz.with_flag(CpsrFlags::C, t.carry)
    } else {
        nz
    };
    if t.sets_overflow {
        carried.with_flag(CpsrFlags::V, t.overflow)
    } else {
        carried
    }
}

/// A shift by `amount` with the carry it leaves.
pub open spec fn shift_op(kind: ShiftKind, value: u32, amount: u32, carry: bool) -> ThumbOp {
    shifted_op(shift_value(kind, value, amount), shift_carry(kind, value, amount, carry))
}

/// The sixteen register-to-register operations by their code: AND, EOR,
/// LSL, LSR, ASR, ADC, SBC, ROR, TST, NEG, the two comparisons, ORR, MUL,
/// BIC, MVN. `d` is the destination's value, `s` the source's, `c` the
/// carry flag. Shifts go by the low byte of the source.
pub open spec fn thumb_alu(op: u32, d: u32, s: u32, c: bool) -> ThumbOp {
    if op == 0x0 {
        plain_op(d & s, true)
    } else if op == 0x1 {
        plain_op(d ^ s, true)
    } else if op == 0x2 {
        shift_op(ShiftKind::Lsl, d, s & 0xFF, c)
    } else if op == 0x3 {
        shift_op(ShiftKind::Lsr, d, s & 0xFF, c)
    } else if op == 0x4 {
        shift_op(ShiftKind::Asr, d, s & 0xFF, c)
    } else if op == 0x5 {
        summed_op(add_spec(d, s, c), true)
    } else if op == 0x6 {
        summed_op(sub_spec(d, s, c), true)
    } else if op == 0x7 {
        shift_op(ShiftKind::Ror, d, s & 0xFF, c)
    } else if op == 0x8 {
        plain_op(d & s, false)
    } else if op == 0x9 {
        summed_op(sub_spec(0, s, true), true)
    } else if op == 0xA {
        summed_op(sub_spec(d, s, true), false)
    } else if op == 0xB {
        summed_op(add_spec(d, s, false), false)
    } else if op == 0xC {
        plain_op(d | s, true)
    } else if op == 0xD {
        plain_op(d.wrapping_mul(s), true)
    } else if op == 0xE {
        plain_op(d & !s, true)
    } else {
        plain_op(!s, true)
    }
}

fn make_plain(value: u32, writes: bool) -> (r: ThumbOp)
    ensures
        r == plain_op(value, writes),
{
    ThumbOp {
        value,
        writes,
        sets_carry: false,
        carry: false,
        sets_overflow: false,
        overflow: false,
    }
}

fn make_summed(out: AluOut, writes: bool) -> (r: ThumbOp)
    ensures
        r == summed_op(out, writes),
{
    ThumbOp {
        value: out.value,
        writes,
        sets_carry: true,
        carry: out.carry,
        sets_overflow: true,
        overflow: out.overflow,
    }
}

fn make_shift(kind: ShiftKind, value: u32, amount: u32, carry: bool) -> (r: ThumbOp)
    ensures
        r == shift_op(kind, value, amount, carry),
{
    ThumbOp {
        value: shift(kind, value, amount),
        writes: true,
        sets_carry: true,
        carry: carry_of_shift(kind, value, amount, carry),
        sets_overflow: false,
        overflow: false,
    }
}

/// Computes one of the sixteen register-to-register operations.
pub fn compute_thumb_alu(op: u32, d: u32, s: u32, c: bool) -> (r: ThumbOp)
    ensures
        r == thumb_alu(op, d, s, c),
{
    if op == 0x0 {
        make_plain(d & s, true)
    } else if op == 0x1 {
        make_plain(d ^ s, true)
    } else if op == 0x2 {
        make_shift(ShiftKind::Lsl, d, s & 0xFF, c)
    } else if op == 0x3 {
        make_shift(ShiftKind::Lsr, d, s & 0xFF, c)
    } else if op == 0x4 {
        make_shift(ShiftKind::Asr, d, s & 0xFF, c)
    } else if op == 0x5 {
        make_summed(add_with_carry(d, s, c), true)
    } else if op == 0x6 {
        make_summed(sub_with_carry(d, s, c), true)
    } else if op == 0x7 {
        make_shift(ShiftKind::Ror, d, s & 0xFF, c)
    } else if op == 0x8 {
        make_plain(d & s, false)
    } else if op == 0x9 {
        make_summed(sub_with_carry(0, s, true), true)
    } else if op == 0xA {
        make_summed(sub_with_carry(d, s, true), false)
    } else if op == 0xB {
        make_summed(add_with_carry(d, s, false), false)
    } else if op == 0xC {
        make_plain(d | s, true)
    } else if op == 0xD {
        make_plain(d.wrapping_mul(s), true)
    } else if op == 0xE {
        make_plain(d & !s, true)
    } else {
        make_plain(!s, true)
    }
}

/// The low register named by the three bits of `w` that start at `at`.
pub open spec fn low_reg(w: u32, at: u32) -> int {
    field(w, at, 0x7) as int
}

/// A register shifted by a five-bit immediate: LSL, LSR or ASR as bits 12
/// and 11 say. The carry is the last bit shifted out.
pub open spec fn thumb_shift_register(c: CpuView, opcode: u16) -> (CpuView, u32) {
    let w = opcode as u32;
    let t = shift_op(
        shift_kind_of(field(w, 11, 0x3)),
        c.regs[low_reg(w, 3)],
        field(w, 6, 0x1F),
        c.c(),
    );
    (apply_op(c, low_reg(w, 0), t).advance(2), 1)
}

/// A register plus or minus a register or a three-bit immediate. Bit 10
/// selects the immediate, bit 9 the subtraction.
pub open spec fn thumb_add_sub_imm(c: CpuView, opcode: u16) -> (CpuView, u32) {
    let w = opcode as u32;
    let left = c.regs[low_reg(w, 3)];
    let right = if bit(w, 10) {
        field(w, 6, 0x7)
    } else {
        c.regs[low_reg(w, 6)]
    };
    let out = if bit(w, 9) {
        sub_spec(left, right, true)
    } else {
        add_spec(left, right, false)
    };
    (apply_op(c, low_reg(w, 0), summed_op(out, true)).advance(2), 1)
}

/// Move, compare, add or subtract with an eight-bit immediate, as bits 12
/// and 11 say.
pub open spec fn thumb_data_proc_imm(c: CpuView, opcode: u16) -> (CpuView, u32) {
    let w = opcode as u32;
    let op = field(w, 11, 0x3);
    let rd = low_reg(w, 8);
    let imm = field(w, 0, 0xFF);
    let t = if op == 0 {
        plain_op(imm, true)
    } else if op == 1 {
        summed_op(sub_spec(c.regs[rd], imm, true), false)
    } else if op == 2 {
        summed_op(add_spec(c.regs[rd], imm, false), true)
    } else {
        summed_op(sub_spec(c.regs[rd], imm, true), true)
    };
    (apply_op(c, rd, t).advance(2), 1)
}

/// One of the sixteen register-to-register operations on low registers.
pub open spec fn thumb_data_proc_reg(c: CpuView, opcode: u16) -> (CpuView, u32) {
    let w = opcode as u32;
    let rd = low_reg(w, 0);
    let t = thumb_alu(field(w, 6, 0xF), c.regs[rd], c.regs[low_reg(w, 3)], c.c());
    (apply_op(c, rd, t).advance(2), 1)
}

/// The register that a high-register operation names: three bits and the
/// bit that selects the upper half of the register file.
pub open spec fn wide_reg(w: u32, at: u32, high: u32) -> int {
    (field(w, at, 0x7) + if bit(w, high) {
        8u32
    } else {
        0u32
    }) as int
}

/// Add, compare or move over the full register file, or branch and
/// exchange, as bits 9 and 8 say. Only the comparison touches the flags. A
/// result written to R15 is a jump.
pub open spec fn thumb_hi_reg_ops(c: CpuView, opcode: u16) -> (CpuView, u32) {
    let w = opcode as u32;
    let op = field(w, 8, 0x3);
    let rd = wide_reg(w, 0, 7);
    let rs = wide_reg(w, 3, 6);
    let left = c.operand(rd);
    let right = c.operand(rs);
    if op == 3 {
        (exchange_to(c, right), 2)
    } else if op == 1 {
        (apply_op(c, rd, summed_op(sub_spec(left, right, true), false)).advance(2), 1)
    } else {
        let value = if op == 0 {
            left.wrapping_add(right)
        } else {
            right
        };
        if rd == 15 {
            (c.with_pc(value), 2)
        } else {
            (c.with_reg(rd, value).advance(2), 1)
        }
    }
}

/// The value that R15 reads as, aligned down to a word.
pub open spec fn aligned_ahead(c: CpuView) -> u32 {
    (c.operand(15) - c.operand(15) % 4) as u32
}

/// A word loaded from an address relative to the aligned look-ahead
/// program counter.
pub open spec fn thumb_load_pc_rel(c: CpuView, m: MemoryView, opcode: u16) -> (CpuView, u32) {
    let w = opcode as u32;
    let addr = aligned_ahead(c).wrapping_add((field(w, 0, 0xFF) * 4) as u32);
    (c.with_reg(low_reg(w, 8), m.read_word(addr)).advance(2), 2)
}

/// A load or store at a base register plus an offset register. With bit 9
/// clear it moves a word, or a byte where `byte` holds, loading when bit 11
/// is set. With bit 9 set, bits 11 and 10 select among a half-word store, a
/// signed byte load, a half-word load and a signed half-word load.
pub open spec fn thumb_load_store_reg_offset(c: CpuView, m: MemoryView, opcode: u16, byte: bool) -> (
    CpuView,
    MemoryView,
    u32,
) {
    let w = opcode as u32;
    let rd = low_reg(w, 0);
    let addr = c.regs[low_reg(w, 3)].wrapping_add(c.regs[low_reg(w, 6)]);
    if !bit(w, 9) {
        if bit(w, 11) {
            let value = if byte {
                m.read_byte(addr) as u32
            } else {
                m.read_word(addr)
            };
            (c.with_reg(rd, value).advance(2), m, 2)
        } else {
            let stored = if byte {
                m.write_byte(addr, (c.regs[rd] % 0x100) as u8)
            } else {
                m.write_word(addr, c.regs[rd])
            };
            (c.advance(2), stored, 2)
        }
    } else {
        if !bit(w, 11) && !bit(w, 10) {
            (c.advance(2), m.write_half(addr, (c.regs[rd] % 0x1_0000) as u16), 2)
        } else {
            let value = if !bit(w, 11) {
                sign_extend(m.read_byte(addr) as u32, 0x80)
            } else if !bit(w, 10) {
                m.read_half(addr) as u32
            } else {
                sign_extend(m.read_half(addr) as u32, 0x8000)
            };
            (c.with_reg(rd, value).advance(2), m, 2)
        }
    }
}

/// A load or store of a word or byte at a base register plus a five-bit
/// immediate, which counts words for a word and bytes for a byte. Bit 12
/// selects the byte.
pub open spec fn thumb_load_store_word_byte(c: CpuView, m: MemoryView, opcode: u16, load: bool) -> (
    CpuView,
    MemoryView,
    u32,
) {
    let w = opcode as u32;
    let rd = low_reg(w, 0);
    let byte = bit(w, 12);
    let offset = if byte {
        field(w, 6, 0x1F)
    } else {
        (field(w, 6, 0x1F) * 4) as u32
    };
    let addr = c.regs[low_reg(w, 3)].wrapping_add(offset);
    if load {
        let value = if byte {
            m.read_byte(addr) as u32
        } else {
            m.read_word(addr)
        };
        (c.with_reg(rd, value).advance(2), m, 2)
    } else {
        let stored = if byte {
            m.write_byte(addr, (c.regs[rd] % 0x100) as u8)
        } else {
            m.write_word(addr, c.regs[rd])
        };
        (c.advance(2), stored, 2)
    }
}

/// A load or store of a half-word at a base register plus a five-bit
/// immediate that counts half-words.
pub open spec fn thumb_load_store_halfword(c: CpuView, m: MemoryView, opcode: u16, load: bool) -> (
    CpuView,
    MemoryView,
    u32,
) {
    let w = opcode as u32;
    let rd = low_reg(w, 0);
    let addr = c.regs[low_reg(w, 3)].wrapping_add((field(w, 6, 0x1F) * 2) as u32);
    if load {
        (c.with_reg(rd, m.read_half(addr) as u32).advance(2), m, 2)
    } else {
        (c.advance(2), m.write_half(addr, (c.regs[rd] % 0x1_0000) as u16), 2)
    }
}

/// A load or store of a word at the stack pointer plus an eight-bit
/// immediate that counts words.
pub open spec fn thumb_load_store_sp_rel(c: CpuView, m: MemoryView, opcode: u16, load: bool) -> (
    CpuView,
    MemoryView,
    u32,
) {
    let w = opcode as u32;
    let rd = low_reg(w, 8);
    let addr = c.regs[13].wrapping_add((field(w, 0, 0xFF) * 4) as u32);
    if load {
        (c.with_reg(rd, m.read_word(addr)).advance(2), m, 2)
    } else {
        (c.advance(2), m.write_word(addr, c.regs[rd]), 2)
    }
}

/// An address formed from the stack pointer (bit 11) or the aligned
/// look-ahead program counter, plus an eight-bit immediate that counts
/// words.
pub open spec fn thumb_load_addr(c: CpuView, opcode: u16) -> (CpuView, u32) {
    let w = opcode as u32;
    let base = if bit(w, 11) {
        c.regs[13]
    } else {
        aligned_ahead(c)
    };
    (c.with_reg(low_reg(w, 8), base.wrapping_add((field(w, 0, 0xFF) * 4) as u32)).advance(2), 1)
}

/// The stack pointer moved up, or down where bit 7 is set, by a seven-bit
/// immediate that counts words.
pub open spec fn thumb_add_sp(c: CpuView, opcode: u16) -> (CpuView, u32) {
    let w = opcode as u32;
    let offset = (field(w, 0, 0x7F) * 4) as u32;
    let sp = if bit(w, 7) {
        c.regs[13].wrapping_sub(offset)
    } else {
        c.regs[13].wrapping_add(offset)
    };
    (c.with_reg(13, sp).advance(2), 1)
}

/// Cycles of a transfer of `count` registers.
pub open spec fn block_cycles(count: u32) -> u32 {
    if count < 3 {
        3
    } else {
        count
    }
}

/// Push or pop of the low registers that the list names, with the link
/// register pushed last, or the program counter popped last, where bit 8
/// asks for it. The stack grows downwards and the lowest register lies at
/// the lowest address. A popped program counter is a jump.
pub open spec fn thumb_push_pop(c: CpuView, m: MemoryView, opcode: u16, load: bool) -> (
    CpuView,
    MemoryView,
    u32,
) {
    let w = opcode as u32;
    let extra = bit(w, 8);
    let list = w & 0xFF;
    let count = count_bits(list, 8) as u32;
    let total = (count + if extra {
        1u32
    } else {
        0u32
    }) as u32;
    let sp = c.regs[13];
    if load {
        let loaded = load_registers(c, m, list, 0, 8, sp);
        let top = sp.wrapping_add((count * 4) as u32);
        if extra {
            (
                loaded.with_reg(13, top.wrapping_add(4)).with_pc(m.read_word(top)),
                m,
                block_cycles(total),
            )
        } else {
            (loaded.with_reg(13, top).advance(2), m, block_cycles(total))
        }
    } else {
        let bottom = sp.wrapping_sub((total * 4) as u32);
        let stored = store_registers(c, m, list, 0, 8, bottom);
        let with_link = if extra {
            stored.write_word(bottom.wrapping_add((count * 4) as u32), c.regs[14])
        } else {
            stored
        };
        (c.with_reg(13, bottom).advance(2), with_link, block_cycles(total))
    }
}

/// A load or store of the low registers that the list names at ascending
/// addresses from the base register. The base takes the address after the
/// last word unless the list names the base itself.
pub open spec fn thumb_load_store_multiple(c: CpuView, m: MemoryView, opcode: u16, load: bool) -> (
    CpuView,
    MemoryView,
    u32,
) {
    let w = opcode as u32;
    let rb = low_reg(w, 8);
    let list = w & 0xFF;
    let count = count_bits(list, 8) as u32;
    let base = c.regs[rb];
    let after = base.wrapping_add((count * 4) as u32);
    let moved = if load {
        load_registers(c, m, list, 0, 8, base)
    } else {
        c
    };
    let stored = if load {
        m
    } else {
        store_registers(c, m, list, 0, 8, base)
    };
    let based = if bit(list, field(w, 8, 0x7)) {
        moved
    } else {
        moved.with_reg(rb, after)
    };
    (based.advance(2), stored, block_cycles(count))
}

/// Where a half-word branch at `instruction_pc` goes: `offset` half-words,
/// counted as a signed number whose sign bit is `half`, from the value that
/// R15 reads as.
pub open spec fn thumb_target(instruction_pc: u32, offset: u32, half: u32) -> u32 {
    instruction_pc.wrapping_add(4).wrapping_add(sign_extend(offset, half).wrapping_mul(2))
}

/// A branch taken when the condition in bits 11 to 8 holds.
pub open spec fn thumb_branch_cond(c: CpuView, opcode: u16, instruction_pc: u32) -> (CpuView, u32) {
    let w = opcode as u32;
    if c.condition(field(w, 8, 0xF) as usize) {
        (c.with_pc(thumb_target(instruction_pc, field(w, 0, 0xFF), 0x80)), 2)
    } else {
        (c.advance(2), 1)
    }
}

/// An unconditional branch over a signed eleven-bit count of half-words.
pub open spec fn thumb_branch(c: CpuView, opcode: u16, instruction_pc: u32) -> (CpuView, u32) {
    let w = opcode as u32;
    (c.with_pc(thumb_target(instruction_pc, field(w, 0, 0x7FF), 0x400)), 2)
}

/// The first half of a long branch with link: the upper eleven bits of the
/// offset are staged in the link register, at bits 22 to 12.
pub open spec fn thumb_bl_prefix(c: CpuView, opcode: u16, instruction_pc: u32) -> (CpuView, u32) {
    let w = opcode as u32;
    (c.with_reg(14, (field(w, 0, 0x7FF) * 0x1000) as u32).advance(2), 1)
}

/// The 23-bit signed offset of a long branch: the staged upper part and
/// the lower eleven bits, which count half-words.
pub open spec fn long_offset(staged: u32, opcode: u16) -> u32 {
    sign_extend(
        ((staged % 0x80_0000) / 0x1000 * 0x1000 + field(opcode as u32, 0, 0x7FF) * 2) as u32,
        0x40_0000,
    )
}

/// The second half of a long branch with link. The target is the offset
/// from the address after this half-word, which is what R15 read as in the
/// first half. The link register takes the address after this half-word
/// with its lowest bit set. Bit 12 set stays in the half-word set; clear
/// switches to the full-word set.
pub open spec fn thumb_bl_suffix(c: CpuView, opcode: u16, instruction_pc: u32) -> (CpuView, u32) {
    let w = opcode as u32;
    let next = instruction_pc.wrapping_add(2);
    let target = next.wrapping_add(long_offset(c.regs[14], opcode));
    let linked = c.with_reg(14, (next - next % 2 + 1) as u32);
    (linked.with_flag(CpsrFlags::THUMB, bit(w, 12)).with_pc(target), 2)
}

/// The formats of half-word instructions.
#[derive(Debug, Clone, Copy, PartialEq, Eq, Structural)]
pub enum ThumbClass {
    ShiftRegister,
    AddSubtract,
    Immediate,
    AluRegister,
    HighRegister,
    LoadPcRelative,
    TransferRegisterOffset,
    TransferImmediate,
    TransferHalfword,
    TransferSpRelative,
    LoadAddress,
    AddSp,
    PushPop,
    TransferMultiple,
    ConditionalBranch,
    SoftwareInterrupt,
    Branch,
    LongBranchPrefix,
    LongBranchSuffix,
    Undefined,
}

/// The format of an instruction, decided by its top three bits and then by
/// the bits below them.
pub open spec fn thumb_class(opcode: u16) -> ThumbClass {
    let w = opcode as u32;
    let category = field(w, 13, 0x7);
    if category == 0 {
        if field(w, 11, 0x3) == 3 {
            ThumbClass::AddSubtract
        } else {
            ThumbClass::ShiftRegister
        }
    } else if category == 1 {
        ThumbClass::Immediate
    } else if category == 2 {
        if bit(w, 12) {
            ThumbClass::TransferRegisterOffset
        } else if bit(w, 11) {
            ThumbClass::LoadPcRelative
        } else if bit(w, 10) {
            ThumbClass::HighRegister
        } else {
            ThumbClass::AluRegister
        }
    } else if category == 3 {
        ThumbClass::TransferImmediate
    } else if category == 4 {
        if bit(w, 12) {
            ThumbClass::TransferSpRelative
        } else {
            ThumbClass::TransferHalfword
        }
    } else if category == 5 {
        if !bit(w, 12) {
            ThumbClass::LoadAddress
        } else if field(w, 8, 0xF) == 0 {
            ThumbClass::AddSp
        } else if bit(w, 10) && !bit(w, 9) {
            ThumbClass::PushPop
        } else {
            ThumbClass::Undefined
        }
    } else if category == 6 {
        if !bit(w, 12) {
            ThumbClass::TransferMultiple
        } else if field(w, 8, 0xF) == 0xF {
            ThumbClass::SoftwareInterrupt
        } else {
            ThumbClass::ConditionalBranch
        }
    } else {
        if bit(w, 12) {
            if bit(w, 11) {
                ThumbClass::LongBranchSuffix
            } else {
                ThumbClass::LongBranchPrefix
            }
        } else {
            if bit(w, 11) {
                ThumbClass::LongBranchSuffix
            } else {
                ThumbClass::Branch
            }
        }
    }
}

pub open spec fn lift(r: (CpuView, u32), m: MemoryView) -> (CpuView, MemoryView, u32) {
    (r.0, m, r.1)
}

/// One half-word instruction at `instruction_pc`. An undefined pattern
/// steps over itself in one cycle.
pub open spec fn thumb_execute(c: CpuView, m: MemoryView, opcode: u16, instruction_pc: u32) -> (
    CpuView,
    MemoryView,
    u32,
) {
    let w = opcode as u32;
    match thumb_class(opcode) {
        ThumbClass::ShiftRegister => lift(thumb_shift_register(c, opcode), m),
        ThumbClass::AddSubtract => lift(thumb_add_sub_imm(c, opcode), m),
        ThumbClass::Immediate => lift(thumb_data_proc_imm(c, opcode), m),
        ThumbClass::AluRegister => lift(thumb_data_proc_reg(c, opcode), m),
        ThumbClass::HighRegister => lift(thumb_hi_reg_ops(c, opcode), m),
        ThumbClass::LoadPcRelative => lift(thumb_load_pc_rel(c, m, opcode), m),
        ThumbClass::TransferRegisterOffset => thumb_load_store_reg_offset(
            c,
            m,
            opcode,
            bit(w, 10),
        ),
        ThumbClass::TransferImmediate => thumb_load_store_word_byte(c, m, opcode, bit(w, 11)),
        ThumbClass::TransferHalfword => thumb_load_store_halfword(c, m, opcode, bit(w, 11)),
        ThumbClass::TransferSpRelative => thumb_load_store_sp_rel(c, m, opcode, bit(w, 11)),
        ThumbClass::LoadAddress => lift(thumb_load_addr(c, opcode), m),
        ThumbClass::AddSp => lift(thumb_add_sp(c, opcode), m),
        ThumbClass::PushPop => thumb_push_pop(c, m, opcode, bit(w, 11)),
        ThumbClass::TransferMultiple => thumb_load_store_multiple(c, m, opcode, bit(w, 11)),
        ThumbClass::ConditionalBranch => lift(thumb_branch_cond(c, opcode, instruction_pc), m),
        ThumbClass::SoftwareInterrupt => (swi_effect(c, m.has_bios(), c.regs[7], 2), m, 4),
        ThumbClass::Branch => lift(thumb_branch(c, opcode, instruction_pc), m),
        ThumbClass::LongBranchPrefix => lift(thumb_bl_prefix(c, opcode, instruction_pc), m),
        ThumbClass::LongBranchSuffix => lift(thumb_bl_suffix(c, opcode, instruction_pc), m),
        ThumbClass::Undefined => (c.advance(2), m, 1),
    }
}

/// One step in the half-word instruction set: the half-word at the program
/// counter is fetched and executed.
pub open spec fn thumb_step(c: CpuView, m: MemoryView) -> (CpuView, MemoryView, u32) {
    thumb_execute(c, m, m.read_half(c.pc()), c.pc())
}

impl Cpu {
    fn low_reg(w: u32, at: u32) -> (r: usize)
        requires
            at < 32,
        ensures
            r == low_reg(w, at),
            r < 8,
    {
        extract(w, at, 0x7) as usize
    }

    fn wide_reg(w: u32, at: u32, high: u32) -> (r: usize)
        requires
            at < 32,
            high < 32,
        ensures
            r == wide_reg(w, at, high),
            r < 16,
    {
        let low = extract(w, at, 0x7);
        if test_bit(w, high) {
            (low + 8) as usize
        } else {
            low as usize
        }
    }

    /// Applies a data operation to register `rd` and the flags.
    pub fn apply_op(&mut self, rd: usize, t: ThumbOp)
        requires
            rd < 16,
        ensures
            final(self)@ == apply_op(old(self)@, rd as int, t),
    {
        if t.writes {
            self.set_reg(rd, t.value);
        }
        self.set_flags_from_result(t.value);
        if t.sets_carry {
            self.set_flag_c(t.carry);
        }
        if t.sets_overflow {
            self.set_flag_v(t.overflow);
        }
    }

    fn aligned_ahead(&self) -> (r: u32)
        ensures
            r == aligned_ahead(self@),
    {
        let ahead = self.operand(15);
        ahead - ahead % 4
    }

    pub fn thumb_shift_register(&mut self, opcode: u16) -> (cycles: u32)
        ensures
            (final(self)@, cycles) == thumb_shift_register(old(self)@, opcode),
    {
        let w = opcode as u32;
        let kind = decode_shift_kind(extract(w, 11, 0x3));
        let value = self.get_reg(Self::low_reg(w, 3));
        let t = make_shift(kind, value, extract(w, 6, 0x1F), self.get_flag_c());
        self.apply_op(Self::low_reg(w, 0), t);
        self.advance(2);
        1
    }

    pub fn thumb_add_sub_imm(&mut self, opcode: u16) -> (cycles: u32)
        ensures
            (final(self)@, cycles) == thumb_add_sub_imm(old(self)@, opcode),
    {
        let w = opcode as u32;
        let left = self.get_reg(Self::low_reg(w, 3));
        let right = if test_bit(w, 10) {
            extract(w, 6, 0x7)
        } else {
            self.get_reg(Self::low_reg(w, 6))
        };
        let out = if test_bit(w, 9) {
            sub_with_carry(left, right, true)
        } else {
            add_with_carry(left, right, false)
        };
        self.apply_op(Self::low_reg(w, 0), make_summed(out, true));
        self.advance(2);
        1
    }

    pub fn thumb_data_proc_imm(&mut self, opcode: u16) -> (cycles: u32)
        ensures
            (final(self)@, cycles) == thumb_data_proc_imm(old(self)@, opcode),
    {
        let w = opcode as u32;
        let op = extract(w, 11, 0x3);
        let rd = Self::low_reg(w, 8);
        let imm = extract(w, 0, 0xFF);
        let current = self.get_reg(rd);
        let t = if op == 0 {
            make_plain(imm, true)
        } else if op == 1 {
            make_summed(sub_with_carry(current, imm, true), false)
        } else if op == 2 {
            make_summed(add_with_carry(current, imm, false), true)
        } else {
            make_summed(sub_with_carry(current, imm, true), true)
        };
        self.apply_op(rd, t);
        self.advance(2);
        1
    }

    pub fn thumb_data_proc_reg(&mut self, opcode: u16) -> (cycles: u32)
        ensures
            (final(self)@, cycles) == thumb_data_proc_reg(old(self)@, opcode),
    {
        let w = opcode as u32;
        let rd = Self::low_reg(w, 0);
        let t = compute_thumb_alu(
            extract(w, 6, 0xF),
            self.get_reg(rd),
            self.get_reg(Self::low_reg(w, 3)),
            self.get_flag_c(),
        );
        self.apply_op(rd, t);
        self.advance(2);
        1
    }

    pub fn thumb_hi_reg_ops(&mut self, opcode: u16) -> (cycles: u32)
        ensures
            (final(self)@, cycles) == thumb_hi_reg_ops(old(self)@, opcode),
    {
        let w = opcode as u32;
        let op = extract(w, 8, 0x3);
        let rd = Self::wide_reg(w, 0, 7);
        let rs = Self::wide_reg(w, 3, 6);
        let left = self.operand(rd);
        let right = self.operand(rs);
        if op == 3 {
            self.exchange_to(right);
            2
        } else if op == 1 {
            self.apply_op(rd, make_summed(sub_with_carry(left, right, true), false));
            self.advance(2);
            1
        } else {
            let value = if op == 0 {
                left.wrapping_add(right)
            } else {
                right
            };
            if rd == 15 {
                self.set_pc(value);
                2
            } else {
                self.set_reg(rd, value);
                self.advance(2);
                1
            }
        }
    }

    pub fn thumb_load_pc_rel(&mut self, opcode: u16, mem: &mut Memory) -> (cycles: u32)
        ensures
            (final(self)@, cycles) == thumb_load_pc_rel(old(self)@, old(mem)@, opcode),
            final(mem)@ == old(mem)@,
    {
        let w = opcode as u32;
        let addr = self.aligned_ahead().wrapping_add(extract(w, 0, 0xFF) * 4);
        let value = mem.read_word(addr);
        self.set_reg(Self::low_reg(w, 8), value);
        self.advance(2);
        2
    }

    pub fn thumb_load_store_reg_offset(&mut self, opcode: u16, mem: &mut Memory, byte: bool) -> (cycles:
        u32)
        ensures
            (final(self)@, final(mem)@, cycles) == thumb_load_store_reg_offset(
                old(self)@,
                old(mem)@,
                opcode,
                byte,
            ),
    {
        let w = opcode as u32;
        let rd = Self::low_reg(w, 0);
        let addr = self.get_reg(Self::low_reg(w, 3)).wrapping_add(
            self.get_reg(Self::low_reg(w, 6)),
        );
        let current = self.get_reg(rd);
        if !test_bit(w, 9) {
            if test_bit(w, 11) {
                let value = if byte {
                    mem.read_byte(addr) as u32
                } else {
                    mem.read_word(addr)
                };
                self.set_reg(rd, value);
            } else {
                if byte {
                    mem.write_byte(addr, (current % 0x100) as u8);
                } else {
                    mem.write_word(addr, current);
                }
            }
        } else {
            if !test_bit(w, 11) && !test_bit(w, 10) {
                mem.write_half(addr, (current % 0x1_0000) as u16);
            } else {
                let value = if !test_bit(w, 11) {
                    extend_sign(mem.read_byte(addr) as u32, 0x80)
                } else if !test_bit(w, 10) {
                    mem.read_half(addr) as u32
                } else {
                    extend_sign(mem.read_half(addr) as u32, 0x8000)
                };
                self.set_reg(rd, value);
            }
        }
        self.advance(2);
        2
    }

    pub fn thumb_load_store_word_byte(&mut self, opcode: u16, mem: &mut Memory, load: bool) -> (cycles:
        u32)
        ensures
            (final(self)@, final(mem)@, cycles) == thumb_load_store_word_byte(
                old(self)@,
                old(mem)@,
                opcode,
                load,
            ),
    {
        let w = opcode as u32;
        let rd = Self::low_reg(w, 0);
        let byte = test_bit(w, 12);
        let offset = if byte {
            extract(w, 6, 0x1F)
        } else {
            extract(w, 6, 0x1F) * 4
        };
        let addr = self.get_reg(Self::low_reg(w, 3)).wrapping_add(offset);
        if load {
            let value = if byte {
                mem.read_byte(addr) as u32
            } else {
                mem.read_word(addr)
            };
            self.set_reg(rd, value);
        } else {
            let current = self.get_reg(rd);
            if byte {
                mem.write_byte(addr, (current % 0x100) as u8);
            } else {
                mem.write_word(addr, current);
            }
        }
        self.advance(2);
        2
    }

    pub fn thumb_load_store_halfword(&mut self, opcode: u16, mem: &mut Memory, load: bool) -> (cycles:
        u32)
        ensures
            (final(self)@, final(mem)@, cycles) == thumb_load_store_halfword(
                old(self)@,
                old(mem)@,
                opcode,
                load,
            ),
    {
        let w = opcode as u32;
        let rd = Self::low_reg(w, 0);
        let addr = self.get_reg(Self::low_reg(w, 3)).wrapping_add(extract(w, 6, 0x1F) * 2);
        if load {
            let value = mem.read_half(addr) as u32;
            self.set_reg(rd, value);
        } else {
            mem.write_half(addr, (self.get_reg(rd) % 0x1_0000) as u16);
        }
        self.advance(2);
        2
    }

    pub fn thumb_load_store_sp_rel(&mut self, opcode: u16, mem: &mut Memory, load: bool) -> (cycles:
        u32)
        ensures
            (final(self)@, final(mem)@, cycles) == thumb_load_store_sp_rel(
                old(self)@,
                old(mem)@,
                opcode,
                load,
            ),
    {
        let w = opcode as u32;
        let rd = Self::low_reg(w, 8);
        let addr = self.get_sp().wrapping_add(extract(w, 0, 0xFF) * 4);
        if load {
            let value = mem.read_word(addr);
            self.set_reg(rd, value);
        } else {
            mem.write_word(addr, self.get_reg(rd));
        }
        self.advance(2);
        2
    }

    pub fn thumb_load_addr(&mut self, opcode: u16) -> (cycles: u32)
        ensures
            (final(self)@, cycles) == thumb_load_addr(old(self)@, opcode),
    {
        let w = opcode as u32;
        let base = if test_bit(w, 11) {
            self.get_sp()
        } else {
            self.aligned_ahead()
        };
        self.set_reg(Self::low_reg(w, 8), base.wrapping_add(extract(w, 0, 0xFF) * 4));
        self.advance(2);
        1
    }

    pub fn thumb_add_sp(&mut self, opcode: u16) -> (cycles: u32)
        ensures
            (final(self)@, cycles) == thumb_add_sp(old(self)@, opcode),
    {
        let w = opcode as u32;
        let offset = extract(w, 0, 0x7F) * 4;
        let sp = if test_bit(w, 7) {
            self.get_sp().wrapping_sub(offset)
        } else {
            self.get_sp().wrapping_add(offset)
        };
        self.set_sp(sp);
        self.advance(2);
        1
    }

    fn block_cycles(count: u32) -> (r: u32)
        ensures
            r == block_cycles(count),
    {
        if count < 3 {
            3
        } else {
            count
        }
    }

    pub fn thumb_push_pop(&mut self, opcode: u16, mem: &mut Memory, load: bool) -> (cycles: u32)
        ensures
            (final(self)@, final(mem)@, cycles) == thumb_push_pop(
                old(self)@,
                old(mem)@,
                opcode,
                load,
            ),
    {
        let w = opcode as u32;
        let extra = test_bit(w, 8);
        let list = w & 0xFF;
        let count = count_low_bits(list, 8);
        let total: u32 = count + if extra {
            1
        } else {
            0
        };
        let sp = self.get_sp();
        if load {
            self.load_registers(mem, list, 8, sp);
            let top = sp.wrapping_add(count * 4);
            if extra {
                let target = mem.read_word(top);
                self.set_sp(top.wrapping_add(4));
                self.set_pc(target);
            } else {
                self.set_sp(top);
                self.advance(2);
            }
        } else {
            let bottom = sp.wrapping_sub(total * 4);
            self.store_registers(mem, list, 8, bottom);
            if extra {
                mem.write_word(bottom.wrapping_add(count * 4), self.get_lr());
            }
            self.set_sp(bottom);
            self.advance(2);
        }
        Self::block_cycles(total)
    }

    pub fn thumb_load_store_multiple(&mut self, opcode: u16, mem: &mut Memory, load: bool) -> (cycles:
        u32)
        ensures
            (final(self)@, final(mem)@, cycles) == thumb_load_store_multiple(
                old(self)@,
                old(mem)@,
                opcode,
                load,
            ),
    {
        let w = opcode as u32;
        let rb = Self::low_reg(w, 8);
        let list = w & 0xFF;
        let count = count_low_bits(list, 8);
        let base = self.get_reg(rb);
        let after = base.wrapping_add(count * 4);
        if load {
            self.load_registers(mem, list, 8, base);
        } else {
            self.store_registers(mem, list, 8, base);
        }
        if !test_bit(list, extract(w, 8, 0x7)) {
            self.set_reg(rb, after);
        }
        self.advance(2);
        Self::block_cycles(count)
    }

    fn thumb_target(instruction_pc: u32, offset: u32, half: u32) -> (r: u32)
        requires
            0 < half <= 0x8000_0000,
            offset < 2 * half,
        ensures
            r == thumb_target(instruction_pc, offset, half),
    {
        instruction_pc.wrapping_add(4).wrapping_add(extend_sign(offset, half).wrapping_mul(2))
    }

    pub fn thumb_branch_cond(&mut self, opcode: u16, instruction_pc: u32) -> (cycles: u32)
        ensures
            (final(self)@, cycles) == thumb_branch_cond(old(self)@, opcode, instruction_pc),
    {
        let w = opcode as u32;
        if self.check_condition(extract(w, 8, 0xF) as usize) {
            self.set_pc(Self::thumb_target(instruction_pc, extract(w, 0, 0xFF), 0x80));
            2
        } else {
            self.advance(2);
            1
        }
    }

    pub fn thumb_branch(&mut self, opcode: u16, instruction_pc: u32) -> (cycles: u32)
        ensures
            (final(self)@, cycles) == thumb_branch(old(self)@, opcode, instruction_pc),
    {
        let w = opcode as u32;
        self.set_pc(Self::thumb_target(instruction_pc, extract(w, 0, 0x7FF), 0x400));
        2
    }

    pub fn thumb_bl_prefix(&mut self, opcode: u16, instruction_pc: u32) -> (cycles: u32)
        ensures
            (final(self)@, cycles) == thumb_bl_prefix(old(self)@, opcode, instruction_pc),
    {
        let w = opcode as u32;
        self.set_lr(extract(w, 0, 0x7FF) * 0x1000);
        self.advance(2);
        1
    }

    pub fn thumb_bl_suffix(&mut self, opcode: u16, instruction_pc: u32) -> (cycles: u32)
        ensures
            (final(self)@, cycles) == thumb_bl_suffix(old(self)@, opcode, instruction_pc),
    {
        let w = opcode as u32;
        let staged = self.get_lr();
        let upper: u32 = (staged % 0x80_0000) / 0x1000 * 0x1000;
        let offset = extend_sign(upper + extract(w, 0, 0x7FF) * 2, 0x40_0000);
        let next = instruction_pc.wrapping_add(2);
        let target = next.wrapping_add(offset);
        self.set_lr(next - next % 2 + 1);
        self.set_thumb_mode(test_bit(w, 12));
        self.set_pc(target);
        2
    }

    /// Finds the format of an instruction.
    pub fn classify_thumb(opcode: u16) -> (r: ThumbClass)
        ensures
            r == thumb_class(opcode),
    {
        let w = opcode as u32;
        let category = extract(w, 13, 0x7);
        if category == 0 {
            if extract(w, 11, 0x3) == 3 {
                ThumbClass::AddSubtract
            } else {
                ThumbClass::ShiftRegister
            }
        } else if category == 1 {
            ThumbClass::Immediate
        } else if category == 2 {
            if test_bit(w, 12) {
                ThumbClass::TransferRegisterOffset
            } else if test_bit(w, 11) {
                ThumbClass::LoadPcRelative
            } else if test_bit(w, 10) {
                ThumbClass::HighRegister
            } else {
                ThumbClass::AluRegister
            }
        } else if category == 3 {
            ThumbClass::TransferImmediate
        } else if category == 4 {
            if test_bit(w, 12) {
                ThumbClass::TransferSpRelative
            } else {
                ThumbClass::TransferHalfword
            }
        } else if category == 5 {
            if !test_bit(w, 12) {
                ThumbClass::LoadAddress
            } else if extract(w, 8, 0xF) == 0 {
                ThumbClass::AddSp
            } else if test_bit(w, 10) && !test_bit(w, 9) {
                ThumbClass::PushPop
            } else {
                ThumbClass::Undefined
            }
        } else if category == 6 {
            if !test_bit(w, 12) {
                ThumbClass::TransferMultiple
            } else if extract(w, 8, 0xF) == 0xF {
                ThumbClass::SoftwareInterrupt
            } else {
                ThumbClass::ConditionalBranch
            }
        } else {
            if test_bit(w, 12) {
                if test_bit(w, 11) {
                    ThumbClass::LongBranchSuffix
                } else {
                    ThumbClass::LongBranchPrefix
                }
            } else {
                if test_bit(w, 11) {
                    ThumbClass::LongBranchSuffix
                } else {
                    ThumbClass::Branch
                }
            }
        }
    }

    /// Executes one half-word instruction that was fetched from
    /// `instruction_pc`.
    pub fn execute_thumb(&mut self, opcode: u16, mem: &mut Memory, instruction_pc: u32) -> (cycles:
        u32)
        ensures
            (final(self)@, final(mem)@, cycles) == thumb_execute(
                old(self)@,
                old(mem)@,
                opcode,
                instruction_pc,
            ),
    {
        let w = opcode as u32;
        match Self::classify_thumb(opcode) {
            ThumbClass::ShiftRegister => self.thumb_shift_register(opcode),
            ThumbClass::AddSubtract => self.thumb_add_sub_imm(opcode),
            ThumbClass::Immediate => self.thumb_data_proc_imm(opcode),
            ThumbClass::AluRegister => self.thumb_data_proc_reg(opcode),
            ThumbClass::HighRegister => self.thumb_hi_reg_ops(opcode),
            ThumbClass::LoadPcRelative => self.thumb_load_pc_rel(opcode, mem),
            ThumbClass::TransferRegisterOffset => self.thumb_load_store_reg_offset(
                opcode,
                mem,
                test_bit(w, 10),
            ),
            ThumbClass::TransferImmediate => self.thumb_load_store_word_byte(
                opcode,
                mem,
                test_bit(w, 11),
            ),
            ThumbClass::TransferHalfword => self.thumb_load_store_halfword(
                opcode,
                mem,
                test_bit(w, 11),
            ),
            ThumbClass::TransferSpRelative => self.thumb_load_store_sp_rel(
                opcode,
                mem,
                test_bit(w, 11),
            ),
            ThumbClass::LoadAddress => self.thumb_load_addr(opcode),
            ThumbClass::AddSp => self.thumb_add_sp(opcode),
            ThumbClass::PushPop => self.thumb_push_pop(opcode, mem, test_bit(w, 11)),
            ThumbClass::TransferMultiple => self.thumb_load_store_multiple(
                opcode,
                mem,
                test_bit(w, 11),
            ),
            ThumbClass::ConditionalBranch => self.thumb_branch_cond(opcode, instruction_pc),
            ThumbClass::SoftwareInterrupt => self.thumb_software_interrupt(mem),
            ThumbClass::Branch => self.thumb_branch(opcode, instruction_pc),
            ThumbClass::LongBranchPrefix => self.thumb_bl_prefix(opcode, instruction_pc),
            ThumbClass::LongBranchSuffix => self.thumb_bl_suffix(opcode, instruction_pc),
            ThumbClass::Undefined => {
                self.advance(2);
                1
            },
        }
    }

    /// Fetches and executes one half-word instruction.
    pub fn step_thumb(&mut self, mem: &mut Memory) -> (cycles: u32)
        ensures
            (final(self)@, final(mem)@, cycles) == thumb_step(old(self)@, old(mem)@),
    {
        let instruction_pc = self.get_pc();
        let opcode = mem.read_half(instruction_pc);
        self.execute_thumb(opcode, mem, instruction_pc)
    }
}

} // verus!
