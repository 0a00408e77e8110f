//! What holds of the processor and the bus for every state and every
//! input, stated over their views.

use vstd::prelude::*;
use crate::alu::{add_spec, is_negative, sub_spec};
use crate::bits::{
    byte_of, join_halves, le16, le32, lemma_word_of_bytes, rotr32_bytes, signed, wrap32,
};
use crate::cpu::{lemma_flag_bits, lemma_mode_round_trip, Cpu, CpsrFlags, CpuView, Mode};
use crate::interrupt::{law_lowest_set, Interrupt, InterruptView};
use crate::mem::{region_of, Memory, MemoryRegion, MemoryView};

verus! {

/// A register reads as what was last written to it, and a write leaves
/// every other register alone.
pub proof fn law_register_round_trip(c: CpuView, n: int, k: int, x: u32)
    requires
        c.wf(),
        0 <= n < 16,
        0 <= k < 16,
        k != n,
    ensures
        c.with_reg(n, x).regs[n] == x,
        c.with_reg(n, x).regs[k] == c.regs[k],
        c.with_reg(n, x).cpsr == c.cpsr,
{
}

/// The program counter reads as what was written to it, aligned for the
/// instruction set in use.
pub proof fn law_pc_round_trip(c: CpuView, x: u32)
    requires
        c.wf(),
    ensures
        c.with_pc(x).pc() == c.aligned(x),
        !c.thumb() && x % 4 == 0 ==> c.with_pc(x).pc() == x,
        c.thumb() && x % 2 == 0 ==> c.with_pc(x).pc() == x,
{
}

/// A status bit reads as what was last written to it, and a write leaves
/// every bit outside its mask alone.
pub proof fn law_flag_round_trip(c: CpuView, mask: u32, other: u32, val: bool)
    requires
        mask != 0,
        mask & other == 0,
    ensures
        c.with_flag(mask, val).flag(mask) == val,
        c.with_flag(mask, val).flag(other) == c.flag(other),
        c.with_flag(mask, val).regs == c.regs,
{
    lemma_flag_bits(c.cpsr, mask, other);
}

/// The four arithmetic flags, the instruction-set bit and the interrupt
/// bit are independent of each other: each reads as what was last written
/// to it whatever is written to the others.
pub proof fn law_named_flags_round_trip(c: CpuView, val: bool)
    ensures
        c.with_flag(CpsrFlags::N, val).n() == val,
        c.with_flag(CpsrFlags::Z, val).z() == val,
        c.with_flag(CpsrFlags::C, val).c() == val,
        c.with_flag(CpsrFlags::V, val).v() == val,
        c.with_flag(CpsrFlags::THUMB, val).thumb() == val,
        c.with_flag(CpsrFlags::IRQ, !val).interrupts_enabled() == val,
        c.with_flag(CpsrFlags::N, val).z() == c.z(),
        c.with_flag(CpsrFlags::N, val).c() == c.c(),
        c.with_flag(CpsrFlags::N, val).v() == c.v(),
        c.with_flag(CpsrFlags::Z, val).n() == c.n(),
        c.with_flag(CpsrFlags::Z, val).c() == c.c(),
        c.with_flag(CpsrFlags::Z, val).v() == c.v(),
        c.with_flag(CpsrFlags::C, val).n() == c.n(),
        c.with_flag(CpsrFlags::C, val).z() == c.z(),
        c.with_flag(CpsrFlags::C, val).v() == c.v(),
        c.with_flag(CpsrFlags::V, val).n() == c.n(),
        c.with_flag(CpsrFlags::V, val).z() == c.z(),
        c.with_flag(CpsrFlags::V, val).c() == c.c(),
{
    let x = c.cpsr;
    assert(0x8000_0000u32 & 0x7000_0000u32 == 0 && 0x4000_0000u32 & 0xB000_0000u32 == 0
        && 0x2000_0000u32 & 0xD000_0000u32 == 0 && 0x1000_0000u32 & 0xE000_0000u32 == 0
        && 0x20u32 & 0 == 0 && 0x80u32 & 0 == 0) by (bit_vector);
    lemma_flag_bits(x, CpsrFlags::THUMB, 0);
    lemma_flag_bits(x, CpsrFlags::IRQ, 0);
    assert(((x | 0x8000_0000) & 0x8000_0000 != 0) && ((x & !0x8000_0000u32) & 0x8000_0000 == 0) && (
    (x | 0x8000_0000) & 0x4000_0000 == x & 0x4000_0000) && ((x | 0x8000_0000) & 0x2000_0000 == x
        & 0x2000_0000) && ((x | 0x8000_0000) & 0x1000_0000 == x & 0x1000_0000) && ((x
        & !0x8000_0000u32) & 0x4000_0000 == x & 0x4000_0000) && ((x & !0x8000_0000u32) & 0x2000_0000
        == x & 0x2000_0000) && ((x & !0x8000_0000u32) & 0x1000_0000 == x & 0x1000_0000))
        by (bit_vector);
    assert(((x | 0x4000_0000) & 0x4000_0000 != 0) && ((x & !0x4000_0000u32) & 0x4000_0000 == 0) && (
    (x | 0x4000_0000) & 0x8000_0000 == x & 0x8000_0000) && ((x | 0x4000_0000) & 0x2000_0000 == x
        & 0x2000_0000) && ((x | 0x4000_0000) & 0x1000_0000 == x & 0x1000_0000) && ((x
        & !0x4000_0000u32) & 0x8000_0000 == x & 0x8000_0000) && ((x & !0x4000_0000u32) & 0x2000_0000
        == x & 0x2000_0000) && ((x & !0x4000_0000u32) & 0x1000_0000 == x & 0x1000_0000))
        by (bit_vector);
    assert(((x | 0x2000_0000) & 0x2000_0000 != 0) && ((x & !0x2000_0000u32) & 0x2000_0000 == 0) && (
    (x | 0x2000_0000) & 0x8000_0000 == x & 0x8000_0000) && ((x | 0x2000_0000) & 0x4000_0000 == x
        & 0x4000_0000) && ((x | 0x2000_0000) & 0x1000_0000 == x & 0x1000_0000) && ((x
        & !0x2000_0000u32) & 0x8000_0000 == x & 0x8000_0000) && ((x & !0x2000_0000u32) & 0x4000_0000
        == x & 0x4000_0000) && ((x & !0x2000_0000u32) & 0x1000_0000 == x & 0x1000_0000))
        by (bit_vector);
    assert(((x | 0x1000_0000) & 0x1000_0000 != 0) && ((x & !0x1000_0000u32) & 0x1000_0000 == 0) && (
    (x | 0x1000_0000) & 0x8000_0000 == x & 0x8000_0000) && ((x | 0x1000_0000) & 0x4000_0000 == x
        & 0x4000_0000) && ((x | 0x1000_0000) & 0x2000_0000 == x & 0x2000_0000) && ((x
        & !0x1000_0000u32) & 0x8000_0000 == x & 0x8000_0000) && ((x & !0x1000_0000u32) & 0x4000_0000
        == x & 0x4000_0000) && ((x & !0x1000_0000u32) & 0x2000_0000 == x & 0x2000_0000))
        by (bit_vector);
}

/// After the four arithmetic flags were set together, each reads as what
/// it was set to.
pub proof fn law_arithmetic_flags(c: CpuView, result: u32, carry: bool, overflow: bool)
    ensures
        c.with_nzcv(result, carry, overflow).n() == is_negative(result),
        c.with_nzcv(result, carry, overflow).z() == (result == 0),
        c.with_nzcv(result, carry, overflow).c() == carry,
        c.with_nzcv(result, carry, overflow).v() == overflow,
        c.with_nz(result).n() == is_negative(result),
        c.with_nz(result).z() == (result == 0),
        c.with_nz(result).c() == c.c(),
        c.with_nz(result).v() == c.v(),
{
    let c1 = c.with_flag(CpsrFlags::N, is_negative(result));
    let c2 = c1.with_flag(CpsrFlags::Z, result == 0);
    let c3 = c2.with_flag(CpsrFlags::C, carry);
    law_named_flags_round_trip(c, is_negative(result));
    law_named_flags_round_trip(c1, result == 0);
    law_named_flags_round_trip(c2, carry);
    law_named_flags_round_trip(c3, overflow);
}

/// What the conditions mean after a comparison of `a` with `b`: the flags
/// of the subtraction make each condition hold exactly when the relation it
/// is named after holds of the two numbers, unsigned or signed.
pub proof fn law_compare_conditions(c: CpuView, a: u32, b: u32)
    ensures
        ({
            let out = sub_spec(a, b, true);
            let f = c.with_nzcv(out.value, out.carry, out.overflow);
            &&& out.value == wrap32(a - b)
            &&& f.condition(0x0) <==> a == b
            &&& f.condition(0x1) <==> a != b
            &&& f.condition(0x2) <==> a >= b
            &&& f.condition(0x3) <==> a < b
            &&& f.condition(0x8) <==> a > b
            &&& f.condition(0x9) <==> a <= b
            &&& f.condition(0xA) <==> signed(a) >= signed(b)
            &&& f.condition(0xB) <==> signed(a) < signed(b)
            &&& f.condition(0xC) <==> signed(a) > signed(b)
            &&& f.condition(0xD) <==> signed(a) <= signed(b)
            &&& f.condition(0xE)
        }),
{
    let out = sub_spec(a, b, true);
    law_arithmetic_flags(c, out.value, out.carry, out.overflow);
}

/// What an addition leaves: the sum modulo two to the 32, the carry where
/// the sum does not fit, and the overflow where the operands agree in sign
/// and the sum does not.
pub proof fn law_addition_flags(a: u32, b: u32)
    ensures
        add_spec(a, b, false).value == a.wrapping_add(b),
        add_spec(a, b, false).carry <==> a + b > 0xFFFF_FFFF,
        add_spec(a, b, false).overflow <==> (is_negative(a) == is_negative(b) && is_negative(
            add_spec(a, b, false).value,
        ) != is_negative(a)),
        sub_spec(a, b, true).value == a.wrapping_sub(b),
        sub_spec(a, b, true).carry <==> a >= b,
        sub_spec(a, b, true) == add_spec(a, (0xFFFF_FFFF - b) as u32, true),
{
}

/// The mode reads as what was last switched to.
pub proof fn law_mode_round_trip(c: CpuView, mode: Mode)
    ensures
        c.set_mode(mode).mode() == mode,
{
    lemma_mode_round_trip(mode, c.cpsr);
}

/// After a reset the program counter is at the cartridge's entry, the stack
/// pointer at the top of fast RAM, R0 to R12 are zero, the full-word
/// instruction set is selected, and the four flags are clear. The state
/// after a reset does not depend on the state before it, so a second reset
/// changes nothing.
pub proof fn law_reset_state()
    ensures
        CpuView::booted().wf(),
        CpuView::booted().pc() == 0x0800_0000,
        CpuView::booted().regs[13] == 0x0300_7F00,
        forall|i: int| 0 <= i < 13 ==> CpuView::booted().regs[i] == 0,
        !CpuView::booted().thumb(),
        !CpuView::booted().n(),
        !CpuView::booted().z(),
        !CpuView::booted().c(),
        !CpuView::booted().v(),
        CpuView::booted().mode() == Mode::System,
{
    assert(0xDFu32 & 0x8000_0000 == 0 && 0xDFu32 & 0x4000_0000 == 0 && 0xDFu32 & 0x2000_0000 == 0
        && 0xDFu32 & 0x1000_0000 == 0 && 0xDFu32 & 0x20 == 0 && 0xDFu32 & 0x1F == 0x1F)
        by (bit_vector);
}

/// A stack pointer written in User mode is found again after a visit to
/// the interrupt mode, whatever was written to the stack pointer there.
pub proof fn law_mode_banking(c: CpuView, user_sp: u32, irq_sp: u32)
    requires
        c.wf(),
        c.mode() == Mode::User,
    ensures
        c.with_reg(13, user_sp).set_mode(Mode::Irq).with_reg(13, irq_sp).set_mode(
            Mode::User,
        ).regs[13] == user_sp,
        c.with_reg(13, user_sp).set_mode(Mode::Irq).with_reg(13, irq_sp).set_mode(
            Mode::User,
        ).mode() == Mode::User,
        c.with_reg(13, user_sp).set_mode(Mode::Irq).with_reg(13, irq_sp).regs[13] == irq_sp,
{
    let c1 = c.with_reg(13, user_sp);
    let c2 = c1.set_mode(Mode::Irq);
    lemma_mode_round_trip(Mode::Irq, c1.cpsr);
    assert(c2.mode() == Mode::Irq);
    let c3 = c2.with_reg(13, irq_sp);
    assert(c3.mode() == Mode::Irq);
    lemma_mode_round_trip(Mode::User, c3.cpsr);
}

/// No interrupt is pending while the master switch is off, whatever is
/// enabled and requested; with the switch on one is pending exactly when an
/// enabled source is requested. The pending interrupt is then one source,
/// enabled and requested, and no source below it is both.
pub proof fn law_interrupt_gating(v: InterruptView)
    ensures
        !v.ime ==> v.pending().is_none(),
        v.ime ==> (v.pending().is_some() <==> v.ie & v.if_raw != 0),
        v.ime && v.active() != 0 && v.active() & Interrupt::ALL == v.active() ==> {
            let p = v.pending().unwrap();
            &&& p != 0
            &&& p & ((p - 1) as u16) == 0
            &&& v.active() & p == p
            &&& v.active() & ((p - 1) as u16) == 0
        },
{
    law_lowest_set(v.active());
}

/// The stack pointer of any processor in User mode survives a visit to the
/// interrupt mode.
pub proof fn law_processor_banking(cpu: &Cpu, user_sp: u32, irq_sp: u32)
    requires
        cpu@.mode() == Mode::User,
    ensures
        cpu@.with_reg(13, user_sp).set_mode(Mode::Irq).with_reg(13, irq_sp).set_mode(
            Mode::User,
        ).regs[13] == user_sp,
{
    cpu.lemma_view_wf();
    law_mode_banking(cpu@, user_sp, irq_sp);
}

/// A word written to any bus at an aligned address of general work RAM
/// reads back as itself.
pub proof fn law_bus_round_trip(mem: &Memory, addr: u32, val: u32)
    requires
        aligned_wram(addr),
    ensures
        mem@.write_word(addr, val).read_word(addr) == val,
        mem@.write_word(addr, val).read_half(addr) == val % 0x1_0000,
        mem@.write_word(addr, val).read_half((addr + 2) as u32) == val / 0x1_0000,
        mem@.write_word(addr, val).read_byte(addr) == val % 0x100,
{
    mem.lemma_view_wf();
    law_memory_round_trip(mem@, addr, val);
}

/// A byte of the cartridge image is seen at the same offset in each of the
/// three cartridge windows.
pub proof fn law_rom_mirroring(m: MemoryView, offset: u32)
    requires
        offset < m.rom.len(),
        offset < 0x0200_0000,
    ensures
        m.read_byte((0x0800_0000 + offset) as u32) == m.rom[offset as int],
        m.read_byte((0x0A00_0000 + offset) as u32) == m.rom[offset as int],
        m.read_byte((0x0C00_0000 + offset) as u32) == m.rom[offset as int],
{
    let len = m.rom.len() as int;
    let o = offset as int;
    assert(o % 0x0200_0000 == o);
    assert((0x0200_0000 + o) % 0x0200_0000 == o);
    assert((0x0400_0000 + o) % 0x0200_0000 == o);
    vstd::arithmetic::div_mod::lemma_small_mod(offset as nat, m.rom.len());
    assert(o % len == o);
}

/// Whether an address is a multiple of four inside the window of general
/// work RAM.
pub open spec fn aligned_wram(addr: u32) -> bool {
    0x0200_0000 <= addr <= 0x020F_FFFC && addr % 4 == 0
}

/// A byte stored in general work RAM is found at every address that
/// resolves to its place, and leaves every other place of that RAM alone.
pub proof fn lemma_wram_store(m: MemoryView, addr: u32, val: u8, other: u32)
    requires
        m.wf(),
        region_of(addr) == MemoryRegion::Wram,
        region_of(other) == MemoryRegion::Wram,
    ensures
        m.store_byte(addr, val).wf(),
        m.store_byte(addr, val).rom == m.rom,
        m.store_byte(addr, val).read_byte(other) == if m.offset(other) == m.offset(addr) {
            val
        } else {
            m.read_byte(other)
        },
{
}

/// The bus after the four byte stores of a word write, one at a time.
pub open spec fn stored(m: MemoryView, addr: u32, val: u32, count: int) -> MemoryView {
    let m1 = m.store_byte(addr, byte_of(val, 0));
    let m2 = m1.store_byte(addr.wrapping_add(1), byte_of(val, 1));
    let m3 = m2.store_byte(addr.wrapping_add(2), byte_of(val, 2));
    if count <= 0 {
        m
    } else if count == 1 {
        m1
    } else if count == 2 {
        m2
    } else if count == 3 {
        m3
    } else {
        m3.store_byte(addr.wrapping_add(3), byte_of(val, 3))
    }
}

/// What a byte of general work RAM reads as after a word was written
/// inside that RAM's window: the byte of the word that was stored at its
/// place last, or what it read as before.
pub proof fn lemma_wram_word_store(m: MemoryView, addr: u32, val: u32, other: u32)
    requires
        m.wf(),
        0x0200_0000 <= addr <= 0x020F_FFFC,
        region_of(other) == MemoryRegion::Wram,
    ensures
        m.write_word(addr, val) == stored(m, addr, val, 4),
        m.write_word(addr, val).wf(),
        m.write_word(addr, val).rom == m.rom,
        m.write_word(addr, val).read_byte(other) == if m.offset(other) == m.offset(
            (addr + 3) as u32,
        ) {
            byte_of(val, 3)
        } else if m.offset(other) == m.offset((addr + 2) as u32) {
            byte_of(val, 2)
        } else if m.offset(other) == m.offset((addr + 1) as u32) {
            byte_of(val, 1)
        } else if m.offset(other) == m.offset(addr) {
            byte_of(val, 0)
        } else {
            m.read_byte(other)
        },
{
    let m1 = stored(m, addr, val, 1);
    let m2 = stored(m, addr, val, 2);
    let m3 = stored(m, addr, val, 3);
    let m4 = stored(m, addr, val, 4);
    assert(addr.wrapping_add(1) == addr + 1);
    assert(addr.wrapping_add(2) == addr + 2);
    assert(addr.wrapping_add(3) == addr + 3);
    lemma_wram_store(m, addr, byte_of(val, 0), other);
    lemma_wram_store(m1, (addr + 1) as u32, byte_of(val, 1), other);
    lemma_wram_store(m2, (addr + 2) as u32, byte_of(val, 2), other);
    lemma_wram_store(m3, (addr + 3) as u32, byte_of(val, 3), other);
}

/// Where the bytes from an aligned address of general work RAM lie.
pub proof fn lemma_wram_offsets(m: MemoryView, addr: u32)
    requires
        aligned_wram(addr),
    ensures
        0 <= m.offset(addr) <= 0x3FFFC,
        m.offset((addr + 1) as u32) == m.offset(addr) + 1,
        m.offset((addr + 2) as u32) == m.offset(addr) + 2,
        m.offset((addr + 3) as u32) == m.offset(addr) + 3,
        addr <= 0x020F_FFF8 ==> m.offset((addr + 4) as u32) == (m.offset(addr) + 4) % 0x40000,
        addr <= 0x020F_FFF8 ==> m.offset((addr + 4) as u32) != m.offset(addr),
        addr <= 0x020F_FFF8 ==> m.offset((addr + 4) as u32) != m.offset(addr) + 1,
        addr <= 0x020F_FFF8 ==> m.offset((addr + 4) as u32) != m.offset(addr) + 2,
        addr <= 0x020F_FFF8 ==> m.offset((addr + 4) as u32) != m.offset(addr) + 3,
{
    let d = addr - 0x0200_0000;
    let o = d % 0x40000;
    assert(o % 4 == 0);
    assert((d + 1) % 0x40000 == o + 1);
    assert((d + 2) % 0x40000 == o + 2);
    assert((d + 3) % 0x40000 == o + 3);
    assert((d + 4) % 0x40000 == (o + 4) % 0x40000);
}

/// A word written at an aligned address of general work RAM reads back as
/// itself, as its four bytes in order, and as its two halves in order.
pub proof fn law_memory_round_trip(m: MemoryView, addr: u32, val: u32)
    requires
        m.wf(),
        aligned_wram(addr),
    ensures
        m.write_word(addr, val).read_word(addr) == val,
        m.write_word(addr, val).read_byte(addr) == byte_of(val, 0),
        m.write_word(addr, val).read_byte((addr + 1) as u32) == byte_of(val, 1),
        m.write_word(addr, val).read_byte((addr + 2) as u32) == byte_of(val, 2),
        m.write_word(addr, val).read_byte((addr + 3) as u32) == byte_of(val, 3),
        m.write_word(addr, val).read_half(addr) == val % 0x1_0000,
        m.write_word(addr, val).read_half((addr + 2) as u32) == val / 0x1_0000,
{
    lemma_wram_offsets(m, addr);
    lemma_wram_word_store(m, addr, val, addr);
    lemma_wram_word_store(m, addr, val, (addr + 1) as u32);
    lemma_wram_word_store(m, addr, val, (addr + 2) as u32);
    lemma_wram_word_store(m, addr, val, (addr + 3) as u32);
    let w = m.write_word(addr, val);
    assert(w.aligned_word(addr) == le32(
        byte_of(val, 0),
        byte_of(val, 1),
        byte_of(val, 2),
        byte_of(val, 3),
    ));
    crate::bits::lemma_bytes_of_word(val);
    assert(w.aligned_half(addr) == le16(byte_of(val, 0), byte_of(val, 1)));
    assert(w.aligned_half((addr + 2) as u32) == le16(byte_of(val, 2), byte_of(val, 3)));
}

/// A word read one byte above an aligned address is the two aligned
/// half-words that it overlaps, joined and rotated right by one byte. After
/// a write at that same address the read finds the three low bytes of what
/// was written, and above them the byte that lies at the aligned address.
pub proof fn law_unaligned_round_trip(m: MemoryView, addr: u32, val: u32)
    requires
        m.wf(),
        aligned_wram(addr),
        addr <= 0x020F_FFF8,
    ensures
        m.write_word((addr + 1) as u32, val).read_word((addr + 1) as u32) == rotr32_bytes(
            join_halves(
                m.write_word((addr + 1) as u32, val).read_half(addr),
                m.write_word((addr + 1) as u32, val).read_half((addr + 2) as u32),
            ),
            1,
        ),
        byte_of(m.write_word((addr + 1) as u32, val).read_word((addr + 1) as u32), 0) == byte_of(
            val,
            0,
        ),
        byte_of(m.write_word((addr + 1) as u32, val).read_word((addr + 1) as u32), 1) == byte_of(
            val,
            1,
        ),
        byte_of(m.write_word((addr + 1) as u32, val).read_word((addr + 1) as u32), 2) == byte_of(
            val,
            2,
        ),
        byte_of(m.write_word((addr + 1) as u32, val).read_word((addr + 1) as u32), 3) == m.read_byte(
            addr,
        ),
{
    let at = (addr + 1) as u32;
    let w = m.write_word(at, val);
    lemma_wram_offsets(m, addr);
    lemma_wram_word_store(m, at, val, addr);
    lemma_wram_word_store(m, at, val, (addr + 1) as u32);
    lemma_wram_word_store(m, at, val, (addr + 2) as u32);
    lemma_wram_word_store(m, at, val, (addr + 3) as u32);
    let b0 = w.read_byte(addr);
    let b1 = w.read_byte((addr + 1) as u32);
    let b2 = w.read_byte((addr + 2) as u32);
    let b3 = w.read_byte((addr + 3) as u32);
    assert(b0 == m.read_byte(addr));
    assert(b1 == byte_of(val, 0));
    assert(b2 == byte_of(val, 1));
    assert(b3 == byte_of(val, 2));
    lemma_unaligned_read(w, addr);
    lemma_word_of_bytes(b0, b1, b2, b3);
    crate::bits::lemma_rotr32_one_byte(le32(b0, b1, b2, b3));
}

/// A word read one byte above a multiple of four is the aligned word
/// rotated right by one byte, and the aligned word is its two aligned
/// halves joined.
pub proof fn lemma_unaligned_read(w: MemoryView, addr: u32)
    requires
        addr % 4 == 0,
        addr <= 0xFFFF_FFF8,
    ensures
        w.read_word((addr + 1) as u32) == rotr32_bytes(w.aligned_word(addr), 1),
        w.aligned_word(addr) == join_halves(w.read_half(addr), w.read_half((addr + 2) as u32)),
        w.aligned_word(addr) == le32(
            w.read_byte(addr),
            w.read_byte((addr + 1) as u32),
            w.read_byte((addr + 2) as u32),
            w.read_byte((addr + 3) as u32),
        ),
{
    let at = (addr + 1) as u32;
    assert(at % 4 == 1);
    assert((at - at % 4) as u32 == addr);
    assert(w.aligned_word(at) == w.aligned_word(addr));
    assert(w.aligned_half(addr) == le16(w.read_byte(addr), w.read_byte((addr + 1) as u32)));
    assert(w.aligned_half((addr + 2) as u32) == le16(
        w.read_byte((addr + 2) as u32),
        w.read_byte((addr + 3) as u32),
    ));
}

} // verus!
