//! Behaviour of the processor, the bus and the interrupt controller on
//! chosen values.

use rgba::{Cpu, Interrupt, InterruptController, Memory, Mode};

fn rom_with_words(words: &[u32]) -> Vec<u8> {
    let mut rom = vec![0u8; 0x400];
    for (i, w) in words.iter().enumerate() {
        rom[i * 4..i * 4 + 4].copy_from_slice(&w.to_le_bytes());
    }
    rom
}

fn rom_with_halves(halves: &[u16]) -> Vec<u8> {
    let mut rom = vec![0u8; 0x400];
    for (i, h) in halves.iter().enumerate() {
        rom[i * 2..i * 2 + 2].copy_from_slice(&h.to_le_bytes());
    }
    rom
}

fn arm_machine(words: &[u32]) -> (Cpu, Memory) {
    let mut cpu = Cpu::new();
    let mut mem = Memory::new();
    mem.load_rom(rom_with_words(words));
    cpu.set_pc(0x0800_0000);
    (cpu, mem)
}

fn thumb_machine(halves: &[u16]) -> (Cpu, Memory) {
    let mut cpu = Cpu::new();
    let mut mem = Memory::new();
    mem.load_rom(rom_with_halves(halves));
    cpu.set_thumb_mode(true);
    cpu.set_pc(0x0800_0000);
    (cpu, mem)
}

#[test]
fn registers_read_back_what_was_written() {
    let mut cpu = Cpu::new();
    for n in 0..15 {
        cpu.set_reg(n, 0x1000_0000 + n as u32);
    }
    for n in 0..15 {
        assert_eq!(cpu.get_reg(n), 0x1000_0000 + n as u32);
    }
    cpu.set_sp(0x0300_7F00);
    cpu.set_lr(0x0800_1234);
    assert_eq!(cpu.get_sp(), 0x0300_7F00);
    assert_eq!(cpu.get_lr(), 0x0800_1234);
    assert_eq!(cpu.get_reg(13), 0x0300_7F00);
    assert_eq!(cpu.get_reg(14), 0x0800_1234);
}

#[test]
fn program_counter_is_aligned_for_the_instruction_set() {
    let mut cpu = Cpu::new();
    cpu.set_pc(0x0800_0007);
    assert_eq!(cpu.get_pc(), 0x0800_0004);
    cpu.set_thumb_mode(true);
    cpu.set_pc(0x0800_0007);
    assert_eq!(cpu.get_pc(), 0x0800_0006);
}

#[test]
fn flags_read_back_what_was_written_and_leave_each_other_alone() {
    let mut cpu = Cpu::new();
    for pattern in 0..64u32 {
        let n = pattern & 1 != 0;
        let z = pattern & 2 != 0;
        let c = pattern & 4 != 0;
        let v = pattern & 8 != 0;
        let t = pattern & 16 != 0;
        let i = pattern & 32 != 0;
        cpu.set_flag_n(n);
        cpu.set_flag_z(z);
        cpu.set_flag_c(c);
        cpu.set_flag_v(v);
        cpu.set_thumb_mode(t);
        cpu.set_interrupts_enabled(i);
        assert_eq!(cpu.get_flag_n(), n);
        assert_eq!(cpu.get_flag_z(), z);
        assert_eq!(cpu.get_flag_c(), c);
        assert_eq!(cpu.get_flag_v(), v);
        assert_eq!(cpu.is_thumb_mode(), t);
        assert_eq!(cpu.are_interrupts_enabled(), i);
        assert_eq!(cpu.get_mode(), Mode::System);
    }
}

#[test]
fn status_register_bits_lie_where_they_belong() {
    let mut cpu = Cpu::new();
    assert_eq!(cpu.get_cpsr(), 0x0000_001F);
    cpu.set_flag_n(true);
    assert_eq!(cpu.get_cpsr(), 0x8000_001F);
    cpu.set_flag_z(true);
    cpu.set_flag_c(true);
    cpu.set_flag_v(true);
    assert_eq!(cpu.get_cpsr(), 0xF000_001F);
    cpu.set_thumb_mode(true);
    cpu.set_interrupts_enabled(false);
    assert_eq!(cpu.get_cpsr(), 0xF000_00BF);
}

#[test]
fn modes_read_back_and_decode_from_their_codes() {
    let all = [
        (Mode::User, 0x10),
        (Mode::Fiq, 0x11),
        (Mode::Irq, 0x12),
        (Mode::Supervisor, 0x13),
        (Mode::Abort, 0x17),
        (Mode::Undefined, 0x1B),
        (Mode::System, 0x1F),
    ];
    let mut cpu = Cpu::new();
    for (mode, code) in all {
        assert_eq!(mode.bits(), code);
        assert_eq!(Mode::from_bits(code), mode);
        assert_eq!(Mode::from_bits(code | 0xFFFF_FF00), mode);
        cpu.set_mode(mode);
        assert_eq!(cpu.get_mode(), mode);
        assert_eq!(cpu.get_cpsr() & 0x1F, code);
    }
    assert_eq!(Mode::from_bits(0), Mode::System);
    assert_eq!(Mode::from_bits(0x14), Mode::System);
}

#[test]
fn reset_gives_the_boot_state() {
    let mut cpu = Cpu::new();
    for n in 0..16 {
        cpu.set_reg(n, 0xDEAD_BEEF);
    }
    cpu.set_flag_n(true);
    cpu.set_flag_z(true);
    cpu.set_flag_c(true);
    cpu.set_flag_v(true);
    cpu.set_thumb_mode(true);
    cpu.set_mode(Mode::Irq);
    cpu.reset();
    assert_eq!(cpu.get_pc(), 0x0800_0000);
    assert_eq!(cpu.get_sp(), 0x0300_7F00);
    assert_eq!(cpu.get_lr(), 0x0800_0004);
    for n in 0..13 {
        assert_eq!(cpu.get_reg(n), 0);
    }
    assert_eq!(cpu.is_thumb_mode(), false);
    assert_eq!(cpu.get_flag_n(), false);
    assert_eq!(cpu.get_flag_z(), false);
    assert_eq!(cpu.get_flag_c(), false);
    assert_eq!(cpu.get_flag_v(), false);
    assert_eq!(cpu.get_mode(), Mode::System);
    assert_eq!(cpu.get_cpsr(), 0x0000_00DF);
    cpu.reset();
    assert_eq!(cpu.get_pc(), 0x0800_0000);
    assert_eq!(cpu.get_cpsr(), 0x0000_00DF);
    cpu.set_mode(Mode::Irq);
    assert_eq!(cpu.get_sp(), 0);
}

#[test]
fn conditions_follow_the_truth_table() {
    let mut cpu = Cpu::new();
    for pattern in 0..16u32 {
        let n = pattern & 8 != 0;
        let z = pattern & 4 != 0;
        let c = pattern & 2 != 0;
        let v = pattern & 1 != 0;
        cpu.set_flag_n(n);
        cpu.set_flag_z(z);
        cpu.set_flag_c(c);
        cpu.set_flag_v(v);
        let expected = [
            z,
            !z,
            c,
            !c,
            n,
            !n,
            v,
            !v,
            c && !z,
            !c || z,
            n == v,
            n != v,
            !z && n == v,
            z || n != v,
            true,
            false,
        ];
        for cond in 0..16usize {
            assert_eq!(cpu.check_condition(cond), expected[cond], "cond {} flags {}", cond, pattern);
        }
        assert_eq!(cpu.check_condition(16), false);
    }
}

#[test]
fn add_with_flags_wraps_to_zero_with_carry() {
    // ADDS R0, R1, R2
    let (mut cpu, mut mem) = arm_machine(&[0xE091_0002]);
    cpu.set_reg(1, 0xFFFF_FFFF);
    cpu.set_reg(2, 1);
    let cycles = cpu.step(&mut mem);
    assert_eq!(cycles, 1);
    assert_eq!(cpu.get_reg(0), 0);
    assert_eq!(cpu.get_flag_z(), true);
    assert_eq!(cpu.get_flag_c(), true);
    assert_eq!(cpu.get_flag_n(), false);
    assert_eq!(cpu.get_flag_v(), false);
    assert_eq!(cpu.get_pc(), 0x0800_0004);
}

#[test]
fn add_without_flag_bit_leaves_flags_alone() {
    // ADD R0, R1, R2
    let (mut cpu, mut mem) = arm_machine(&[0xE081_0002]);
    cpu.set_reg(1, 0xFFFF_FFFF);
    cpu.set_reg(2, 1);
    cpu.step(&mut mem);
    assert_eq!(cpu.get_reg(0), 0);
    assert_eq!(cpu.get_flag_z(), false);
    assert_eq!(cpu.get_flag_c(), false);
}

#[test]
fn signed_overflow_is_flagged() {
    // ADDS R0, R1, R2 then SUBS R3, R4, R5 then CMP R6, R7
    let (mut cpu, mut mem) = arm_machine(&[0xE091_0002, 0xE054_3005, 0xE156_0007]);
    cpu.set_reg(1, 0x7FFF_FFFF);
    cpu.set_reg(2, 1);
    cpu.step(&mut mem);
    assert_eq!(cpu.get_reg(0), 0x8000_0000);
    assert_eq!(cpu.get_flag_n(), true);
    assert_eq!(cpu.get_flag_v(), true);
    assert_eq!(cpu.get_flag_c(), false);
    assert_eq!(cpu.get_flag_z(), false);
    cpu.set_reg(4, 0x8000_0000);
    cpu.set_reg(5, 1);
    cpu.step(&mut mem);
    assert_eq!(cpu.get_reg(3), 0x7FFF_FFFF);
    assert_eq!(cpu.get_flag_v(), true);
    assert_eq!(cpu.get_flag_c(), true);
    assert_eq!(cpu.get_flag_n(), false);
    cpu.set_reg(6, 5);
    cpu.set_reg(7, 7);
    cpu.step(&mut mem);
    assert_eq!(cpu.get_reg(6), 5);
    assert_eq!(cpu.get_flag_n(), true);
    assert_eq!(cpu.get_flag_c(), false);
    assert_eq!(cpu.get_flag_v(), false);
    assert_eq!(cpu.get_flag_z(), false);
}

#[test]
fn add_and_subtract_with_carry_use_the_carry_flag() {
    // ADC R0, R1, R2 ; SBC R3, R1, R2
    let (mut cpu, mut mem) = arm_machine(&[0xE0A1_0002, 0xE0C1_3002]);
    cpu.set_reg(1, 10);
    cpu.set_reg(2, 3);
    cpu.set_flag_c(true);
    cpu.step(&mut mem);
    assert_eq!(cpu.get_reg(0), 14);
    cpu.set_flag_c(false);
    cpu.step(&mut mem);
    assert_eq!(cpu.get_reg(3), 6);
}

#[test]
fn logical_operations_compute_and_set_negative_and_zero() {
    // ANDS R0,R1,R2 ; EORS R3,R1,R2 ; ORR R4,R1,R2 ; BIC R5,R1,R2 ; MVN R6,R2 ; MOVS R7,#0
    let (mut cpu, mut mem) = arm_machine(&[
        0xE011_0002,
        0xE031_3002,
        0xE181_4002,
        0xE1C1_5002,
        0xE1E0_6002,
        0xE3B0_7000,
    ]);
    cpu.set_reg(1, 0xF0F0_00FF);
    cpu.set_reg(2, 0x8000_00F0);
    cpu.set_flag_c(true);
    cpu.step(&mut mem);
    assert_eq!(cpu.get_reg(0), 0x8000_00F0);
    assert_eq!(cpu.get_flag_n(), true);
    assert_eq!(cpu.get_flag_z(), false);
    assert_eq!(cpu.get_flag_c(), true);
    cpu.step(&mut mem);
    assert_eq!(cpu.get_reg(3), 0x70F0_000F);
    assert_eq!(cpu.get_flag_n(), false);
    cpu.step(&mut mem);
    assert_eq!(cpu.get_reg(4), 0xF0F0_00FF);
    cpu.step(&mut mem);
    assert_eq!(cpu.get_reg(5), 0x70F0_000F);
    cpu.step(&mut mem);
    assert_eq!(cpu.get_reg(6), 0x7FFF_FF0F);
    cpu.step(&mut mem);
    assert_eq!(cpu.get_reg(7), 0);
    assert_eq!(cpu.get_flag_z(), true);
    assert_eq!(cpu.get_pc(), 0x0800_0018);
}

#[test]
fn second_operand_is_rotated_or_shifted() {
    // MOV R0,#0xFF000000 ; MOV R1,R2,LSL #4 ; MOV R3,R2,LSR #4 ; MOV R4,R5,ASR #4 ;
    // MOV R6,R2,ROR #4 ; MOV R7,R2,LSL R8
    let (mut cpu, mut mem) = arm_machine(&[
        0xE3A0_04FF,
        0xE1A0_1202,
        0xE1A0_3222,
        0xE1A0_4245,
        0xE1A0_6262,
        0xE1A0_7812,
    ]);
    cpu.set_reg(2, 0x0000_12F3);
    cpu.set_reg(5, 0x8000_0010);
    cpu.set_reg(8, 0x0000_0108);
    cpu.step(&mut mem);
    assert_eq!(cpu.get_reg(0), 0xFF00_0000);
    cpu.step(&mut mem);
    assert_eq!(cpu.get_reg(1), 0x0001_2F30);
    cpu.step(&mut mem);
    assert_eq!(cpu.get_reg(3), 0x0000_012F);
    cpu.step(&mut mem);
    assert_eq!(cpu.get_reg(4), 0xF800_0001);
    cpu.step(&mut mem);
    assert_eq!(cpu.get_reg(6), 0x3000_012F);
    cpu.step(&mut mem);
    assert_eq!(cpu.get_reg(7), 0x0012_F300);
}

#[test]
fn register_fifteen_reads_two_instructions_ahead() {
    // MOV R0, PC
    let (mut cpu, mut mem) = arm_machine(&[0xE1A0_000F]);
    cpu.step(&mut mem);
    assert_eq!(cpu.get_reg(0), 0x0800_0008);
    // MOV R0, PC in the half-word set: 0100 0110 0 1 111 000
    let (mut cpu, mut mem) = thumb_machine(&[0x4678]);
    cpu.step(&mut mem);
    assert_eq!(cpu.get_reg(0), 0x0800_0004);
}

#[test]
fn failed_condition_only_steps_over() {
    // ADDEQ R0, R1, R2 with Z clear
    let (mut cpu, mut mem) = arm_machine(&[0x0081_0002]);
    cpu.set_reg(1, 10);
    cpu.set_reg(2, 5);
    let cycles = cpu.step(&mut mem);
    assert_eq!(cycles, 1);
    assert_eq!(cpu.get_reg(0), 0);
    assert_eq!(cpu.get_pc(), 0x0800_0004);
    assert_eq!(cpu.get_cpsr(), 0x0000_001F);
}

#[test]
fn branch_counts_from_the_look_ahead_program_counter() {
    // A branch over +0x14 words whose look-ahead program counter is
    // 0x08000000 lies at 0x07FFFFF8.
    let mut cpu = Cpu::new();
    let mut mem = Memory::new();
    cpu.set_pc(0x07FF_FFF8);
    let cycles = cpu.execute_arm_with_pc(0xEA00_0014, &mut mem);
    assert_eq!(cycles, 2);
    assert_eq!(cpu.get_pc(), 0x0800_0050);
    assert_eq!(cpu.get_lr(), 0);

    // The same branch fetched from 0x08000000.
    let (mut cpu, mut mem) = arm_machine(&[0xEA00_0014]);
    cpu.step(&mut mem);
    assert_eq!(cpu.get_pc(), 0x0800_0058);

    // Backwards by two words, with link.
    let (mut cpu, mut mem) = arm_machine(&[0, 0, 0, 0, 0xEBFF_FFFE]);
    cpu.set_pc(0x0800_0010);
    cpu.step(&mut mem);
    assert_eq!(cpu.get_pc(), 0x0800_0010);
    assert_eq!(cpu.get_lr(), 0x0800_0014);
}

#[test]
fn branch_and_exchange_selects_the_instruction_set() {
    // BX R0
    let (mut cpu, mut mem) = arm_machine(&[0xE12F_FF10]);
    cpu.set_reg(0, 0x0800_0101);
    let cycles = cpu.step(&mut mem);
    assert_eq!(cycles, 2);
    assert_eq!(cpu.is_thumb_mode(), true);
    assert_eq!(cpu.get_pc(), 0x0800_0100);

    // BX R1 in the half-word set: 0100 0111 0 0 001 000
    let (mut cpu, mut mem) = thumb_machine(&[0x4708]);
    cpu.set_reg(1, 0x0800_0200);
    cpu.step(&mut mem);
    assert_eq!(cpu.is_thumb_mode(), false);
    assert_eq!(cpu.get_pc(), 0x0800_0200);
}

#[test]
fn single_transfers_index_and_write_back() {
    // STR R1,[R0,#4]! ; LDR R2,[R0],#-4 ; STRB R1,[R0] ; LDRB R3,[R0]
    let (mut cpu, mut mem) = arm_machine(&[0xE5A0_1004, 0xE410_2004, 0xE5C0_1000, 0xE5D0_3000]);
    cpu.set_reg(0, 0x0200_0000);
    cpu.set_reg(1, 0xCAFE_BABE);
    assert_eq!(cpu.step(&mut mem), 2);
    assert_eq!(cpu.get_reg(0), 0x0200_0004);
    assert_eq!(mem.read_word(0x0200_0004), 0xCAFE_BABE);
    cpu.step(&mut mem);
    assert_eq!(cpu.get_reg(2), 0xCAFE_BABE);
    assert_eq!(cpu.get_reg(0), 0x0200_0000);
    cpu.step(&mut mem);
    assert_eq!(mem.read_word(0x0200_0000), 0x0000_00BE);
    cpu.step(&mut mem);
    assert_eq!(cpu.get_reg(3), 0xBE);
}

#[test]
fn register_offset_transfer_shifts_the_offset() {
    // LDR R2,[R0,R1,LSL #2]
    let (mut cpu, mut mem) = arm_machine(&[0xE790_2101]);
    cpu.set_reg(0, 0x0200_0000);
    cpu.set_reg(1, 3);
    mem.write_word(0x0200_000C, 0x1122_3344);
    cpu.step(&mut mem);
    assert_eq!(cpu.get_reg(2), 0x1122_3344);
}

#[test]
fn halfword_and_signed_transfers() {
    // STRH R1,[R0] ; LDRH R2,[R0] ; LDRSH R3,[R0] ; LDRSB R4,[R0] ; LDRH R5,[R0,#-2]
    let (mut cpu, mut mem) = arm_machine(&[
        0xE1C0_10B0,
        0xE1D0_20B0,
        0xE1D0_30F0,
        0xE1D0_40D0,
        0xE150_50B2,
    ]);
    cpu.set_reg(0, 0x0200_0010);
    cpu.set_reg(1, 0x1234_F681);
    mem.write_half(0x0200_000E, 0x0BAD);
    assert_eq!(cpu.step(&mut mem), 2);
    assert_eq!(mem.read_word(0x0200_0010), 0x0000_F681);
    cpu.step(&mut mem);
    assert_eq!(cpu.get_reg(2), 0x0000_F681);
    cpu.step(&mut mem);
    assert_eq!(cpu.get_reg(3), 0xFFFF_F681);
    cpu.step(&mut mem);
    assert_eq!(cpu.get_reg(4), 0xFFFF_FF81);
    cpu.step(&mut mem);
    assert_eq!(cpu.get_reg(5), 0x0000_0BAD);
}

#[test]
fn block_transfers_in_all_four_addressing_modes() {
    // STMIA R0!,{R1,R2} ; STMIB R0,{R1,R2} ; STMDB R0!,{R1,R2} ; STMDA R0,{R1,R2}
    let (mut cpu, mut mem) = arm_machine(&[0xE8A0_0006, 0xE980_0006, 0xE920_0006, 0xE800_0006]);
    cpu.set_reg(0, 0x0200_0100);
    cpu.set_reg(1, 0x1111_1111);
    cpu.set_reg(2, 0x2222_2222);
    assert_eq!(cpu.step(&mut mem), 3);
    assert_eq!(mem.read_word(0x0200_0100), 0x1111_1111);
    assert_eq!(mem.read_word(0x0200_0104), 0x2222_2222);
    assert_eq!(cpu.get_reg(0), 0x0200_0108);
    cpu.step(&mut mem);
    assert_eq!(mem.read_word(0x0200_010C), 0x1111_1111);
    assert_eq!(mem.read_word(0x0200_0110), 0x2222_2222);
    assert_eq!(cpu.get_reg(0), 0x0200_0108);
    cpu.set_reg(0, 0x0200_0200);
    cpu.step(&mut mem);
    assert_eq!(mem.read_word(0x0200_01F8), 0x1111_1111);
    assert_eq!(mem.read_word(0x0200_01FC), 0x2222_2222);
    assert_eq!(cpu.get_reg(0), 0x0200_01F8);
    cpu.set_reg(0, 0x0200_0300);
    cpu.step(&mut mem);
    assert_eq!(mem.read_word(0x0200_02FC), 0x1111_1111);
    assert_eq!(mem.read_word(0x0200_0300), 0x2222_2222);
    assert_eq!(cpu.get_reg(0), 0x0200_0300);
}

#[test]
fn load_multiple_with_program_counter_jumps_and_selects_the_set() {
    // LDMIA R0!,{R1,PC}
    let (mut cpu, mut mem) = arm_machine(&[0xE8B0_8002]);
    cpu.set_reg(0, 0x0200_0000);
    mem.write_word(0x0200_0000, 0xAAAA_5555);
    mem.write_word(0x0200_0004, 0x0800_0201);
    assert_eq!(cpu.step(&mut mem), 3);
    assert_eq!(cpu.get_reg(1), 0xAAAA_5555);
    assert_eq!(cpu.get_reg(0), 0x0200_0008);
    assert_eq!(cpu.is_thumb_mode(), true);
    assert_eq!(cpu.get_pc(), 0x0800_0200);
}

#[test]
fn status_transfers_read_and_write_with_a_field_mask() {
    // MRS R0,CPSR ; MSR CPSR_f,R1 ; MSR CPSR_c,R2 ; MRS R3,SPSR ; MSR SPSR_fc,R4 ; MRS R5,SPSR
    let (mut cpu, mut mem) = arm_machine(&[
        0xE10F_0000,
        0xE128_F001,
        0xE121_F002,
        0xE14F_3000,
        0xE169_F004,
        0xE14F_5000,
    ]);
    cpu.set_flag_c(true);
    cpu.set_reg(1, 0x9000_00FF);
    cpu.set_reg(2, 0x0000_0012);
    cpu.set_reg(4, 0xA000_0010);
    cpu.set_sp(0x0300_1000);
    assert_eq!(cpu.step(&mut mem), 1);
    assert_eq!(cpu.get_reg(0), 0x2000_001F);
    cpu.step(&mut mem);
    assert_eq!(cpu.get_cpsr(), 0x9000_001F);
    cpu.step(&mut mem);
    assert_eq!(cpu.get_mode(), Mode::Irq);
    assert_eq!(cpu.get_cpsr(), 0x9000_0012);
    assert_eq!(cpu.get_sp(), 0);
    cpu.step(&mut mem);
    assert_eq!(cpu.get_reg(3), 0);
    cpu.step(&mut mem);
    cpu.step(&mut mem);
    assert_eq!(cpu.get_reg(5), 0xA000_0010);
    cpu.set_mode(Mode::System);
    assert_eq!(cpu.get_sp(), 0x0300_1000);
}

#[test]
fn user_mode_may_write_the_flags_only() {
    // MSR CPSR_fc,R1
    let (mut cpu, mut mem) = arm_machine(&[0xE129_F001]);
    cpu.set_mode(Mode::User);
    cpu.set_reg(1, 0xF000_001F);
    cpu.step(&mut mem);
    assert_eq!(cpu.get_cpsr(), 0xF000_0010);
    assert_eq!(cpu.get_mode(), Mode::User);
}

#[test]
fn saved_status_outside_privileged_modes_is_the_live_one() {
    let mut cpu = Cpu::new();
    cpu.set_flag_n(true);
    assert_eq!(cpu.get_spsr(), cpu.get_cpsr());
    cpu.set_spsr(0x1234_5678);
    assert_eq!(cpu.get_spsr(), 0x8000_001F);
    cpu.set_mode(Mode::Supervisor);
    cpu.set_spsr(0x1234_5678);
    assert_eq!(cpu.get_spsr(), 0x1234_5678);
}

#[test]
fn return_from_exception_restores_status_and_banks() {
    // MOVS PC,LR in interrupt mode
    let (mut cpu, mut mem) = arm_machine(&[0xE1B0_F00E]);
    cpu.set_mode(Mode::User);
    cpu.set_sp(0x0300_0F00);
    cpu.set_flag_z(true);
    let user_status = cpu.get_cpsr();
    cpu.set_mode(Mode::Irq);
    cpu.set_spsr(user_status);
    cpu.set_lr(0x0800_0100);
    cpu.set_flag_z(false);
    assert_eq!(cpu.step(&mut mem), 1);
    assert_eq!(cpu.get_mode(), Mode::User);
    assert_eq!(cpu.get_cpsr(), user_status);
    assert_eq!(cpu.get_sp(), 0x0300_0F00);
    assert_eq!(cpu.get_pc(), 0x0800_0100);
}

#[test]
fn mode_switch_banks_stack_pointer_and_link_register() {
    let mut cpu = Cpu::new();
    cpu.set_mode(Mode::User);
    cpu.set_reg(13, 0x0300_7F00);
    cpu.set_reg(14, 0x0800_0040);
    cpu.set_mode(Mode::Irq);
    cpu.set_reg(13, 0x0300_7FA0);
    cpu.set_reg(14, 0x0000_0128);
    cpu.set_mode(Mode::User);
    assert_eq!(cpu.get_reg(13), 0x0300_7F00);
    assert_eq!(cpu.get_reg(14), 0x0800_0040);
    cpu.set_mode(Mode::Irq);
    assert_eq!(cpu.get_reg(13), 0x0300_7FA0);
    assert_eq!(cpu.get_reg(14), 0x0000_0128);
    cpu.set_mode(Mode::System);
    assert_eq!(cpu.get_reg(13), 0x0300_7F00);
}

#[test]
fn fast_interrupt_mode_owns_r8_to_r12() {
    let mut cpu = Cpu::new();
    for n in 8..13 {
        cpu.set_reg(n, 0x100 + n as u32);
    }
    cpu.set_reg(7, 77);
    cpu.set_mode(Mode::Fiq);
    assert_eq!(cpu.get_reg(7), 77);
    for n in 8..13 {
        assert_eq!(cpu.get_reg(n), 0);
        cpu.set_reg(n, 0x200 + n as u32);
    }
    cpu.set_mode(Mode::Supervisor);
    for n in 8..13 {
        assert_eq!(cpu.get_reg(n), 0x100 + n as u32);
    }
    cpu.set_mode(Mode::Fiq);
    for n in 8..13 {
        assert_eq!(cpu.get_reg(n), 0x200 + n as u32);
    }
}

#[test]
fn interrupt_entry_follows_the_sequence() {
    let mut cpu = Cpu::new();
    let mut mem = Memory::new();
    cpu.set_pc(0x0800_0100);
    cpu.set_flag_c(true);
    cpu.set_sp(0x0300_7F00);
    let before = cpu.get_cpsr();
    cpu.take_interrupt(&mut mem);
    assert_eq!(cpu.get_mode(), Mode::Irq);
    assert_eq!(cpu.get_spsr(), before);
    assert_eq!(cpu.get_lr(), 0x0800_0104);
    assert_eq!(cpu.are_interrupts_enabled(), false);
    assert_eq!(cpu.get_pc(), 0x0000_0018);
    assert_eq!(cpu.get_sp(), 0);
    assert_eq!(cpu.get_flag_c(), true);
}

#[test]
fn software_division_and_square_root() {
    // SWI 6 ; SWI 6 ; SWI 0x0E ; SWI 8
    let (mut cpu, mut mem) = arm_machine(&[0xEF00_0006, 0xEF00_0006, 0xEF00_000E, 0xEF00_0008]);
    cpu.set_reg(0, 100);
    cpu.set_reg(1, 7);
    assert_eq!(cpu.step(&mut mem), 6);
    assert_eq!(cpu.get_reg(0), 14);
    assert_eq!(cpu.get_reg(3), 2);
    assert_eq!(cpu.get_pc(), 0x0800_0004);
    cpu.set_reg(0, 1234);
    cpu.set_reg(1, 0);
    cpu.step(&mut mem);
    assert_eq!(cpu.get_reg(0), 0xFFFF_FFFF);
    assert_eq!(cpu.get_reg(3), 1234);
    cpu.set_reg(0, 0xFFFF_FFFF);
    cpu.step(&mut mem);
    assert_eq!(cpu.get_reg(0), 0xFFFF);
    cpu.set_reg(0, 0xFFFF_FFFF);
    cpu.set_reg(1, 0x1_0000);
    cpu.step(&mut mem);
    assert_eq!(cpu.get_reg(0), 0xFFFF);
    assert_eq!(cpu.get_reg(3), 0xFFFF);
}

#[test]
fn square_root_rounds_down() {
    for (x, r) in [(0u32, 0u32), (1, 1), (3, 1), (4, 2), (24, 4), (25, 5), (26, 5), (0x4000_0000, 0x8000)] {
        let (mut cpu, mut mem) = arm_machine(&[0xEF00_000E]);
        cpu.set_reg(0, x);
        cpu.step(&mut mem);
        assert_eq!(cpu.get_reg(0), r, "root of {}", x);
    }
}

#[test]
fn service_calls_without_work_return_at_once() {
    for function in 1..=5u32 {
        let (mut cpu, mut mem) = arm_machine(&[0xEF00_0000 | function]);
        cpu.set_reg(0, 7);
        assert_eq!(cpu.step(&mut mem), 6);
        assert_eq!(cpu.get_pc(), 0x0800_0004);
        assert_eq!(cpu.get_reg(0), 7);
        assert_eq!(cpu.get_mode(), Mode::System);
    }
}

#[test]
fn soft_reset_call_resets_the_processor() {
    let (mut cpu, mut mem) = arm_machine(&[0, 0xEF00_0000]);
    cpu.set_pc(0x0800_0004);
    cpu.set_reg(5, 55);
    cpu.set_flag_n(true);
    cpu.step(&mut mem);
    assert_eq!(cpu.get_reg(5), 0);
    assert_eq!(cpu.get_pc(), 0x0800_0000);
    assert_eq!(cpu.get_sp(), 0x0300_7F00);
    assert_eq!(cpu.get_cpsr(), 0x0000_00DF);
}

#[test]
fn unknown_service_call_without_boot_image_is_a_no_op() {
    let (mut cpu, mut mem) = arm_machine(&[0xEF00_0042]);
    assert_eq!(mem.has_bios(), false);
    cpu.set_reg(0, 9);
    let status = cpu.get_cpsr();
    assert_eq!(cpu.step(&mut mem), 6);
    assert_eq!(cpu.get_pc(), 0x0800_0004);
    assert_eq!(cpu.get_cpsr(), status);
    assert_eq!(cpu.get_reg(0), 9);
}

#[test]
fn unknown_service_call_traps_into_a_boot_image() {
    let (mut cpu, mut mem) = arm_machine(&[0xEF00_0042]);
    mem.load_bios(vec![0x1E, 0xFF, 0x2F, 0xE1]);
    assert_eq!(mem.has_bios(), true);
    cpu.set_flag_z(true);
    let status = cpu.get_cpsr();
    cpu.step(&mut mem);
    assert_eq!(cpu.get_mode(), Mode::Supervisor);
    assert_eq!(cpu.get_spsr(), status);
    assert_eq!(cpu.get_lr(), 0x0800_0004);
    assert_eq!(cpu.get_pc(), 0x0000_0008);
    assert_eq!(cpu.are_interrupts_enabled(), false);
}

#[test]
fn thumb_service_call_takes_its_number_from_r7() {
    let (mut cpu, mut mem) = thumb_machine(&[0xDF00]);
    cpu.set_reg(7, 6);
    cpu.set_reg(0, 9);
    cpu.set_reg(1, 2);
    assert_eq!(cpu.step(&mut mem), 4);
    assert_eq!(cpu.get_reg(0), 4);
    assert_eq!(cpu.get_reg(3), 1);
    assert_eq!(cpu.get_pc(), 0x0800_0002);
    assert_eq!(cpu.is_thumb_mode(), true);
}

#[test]
fn thumb_immediate_and_register_arithmetic() {
    // MOV R0,#5 ; ADD R0,#3 ; LSL R1,R0,#1 ; ADD R2,R0,R1 ; SUB R3,R2,#7 ; CMP R0,#8 ; SUB R0,#9
    let (mut cpu, mut mem) = thumb_machine(&[0x2005, 0x3003, 0x0041, 0x1842, 0x1FD3, 0x2808, 0x3809]);
    assert_eq!(cpu.step(&mut mem), 1);
    assert_eq!(cpu.get_reg(0), 5);
    cpu.step(&mut mem);
    assert_eq!(cpu.get_reg(0), 8);
    cpu.step(&mut mem);
    assert_eq!(cpu.get_reg(1), 16);
    cpu.step(&mut mem);
    assert_eq!(cpu.get_reg(2), 24);
    cpu.step(&mut mem);
    assert_eq!(cpu.get_reg(3), 17);
    cpu.step(&mut mem);
    assert_eq!(cpu.get_flag_z(), true);
    assert_eq!(cpu.get_flag_c(), true);
    cpu.step(&mut mem);
    assert_eq!(cpu.get_reg(0), 0xFFFF_FFFF);
    assert_eq!(cpu.get_flag_n(), true);
    assert_eq!(cpu.get_flag_c(), false);
    assert_eq!(cpu.get_pc(), 0x0800_000E);
}

#[test]
fn thumb_shifts_leave_the_last_bit_in_carry() {
    // LSL R1,R0,#1 ; LSR R2,R0,#1 ; ASR R3,R0,#4
    let (mut cpu, mut mem) = thumb_machine(&[0x0041, 0x0842, 0x1103]);
    cpu.set_reg(0, 0x8000_0009);
    cpu.step(&mut mem);
    assert_eq!(cpu.get_reg(1), 0x0000_0012);
    assert_eq!(cpu.get_flag_c(), true);
    cpu.step(&mut mem);
    assert_eq!(cpu.get_reg(2), 0x4000_0004);
    assert_eq!(cpu.get_flag_c(), true);
    cpu.step(&mut mem);
    assert_eq!(cpu.get_reg(3), 0xF800_0000);
    assert_eq!(cpu.get_flag_c(), true);
    assert_eq!(cpu.get_flag_n(), true);
}

#[test]
fn thumb_register_operations() {
    // AND R0,R1 ; EOR R0,R1 ; LSL R0,R2 ; NEG R3,R1 ; MUL R4,R1 ; MVN R5,R1 ; ROR R6,R2 ; TST R1,R7
    let (mut cpu, mut mem) = thumb_machine(&[
        0x4008, 0x4048, 0x4090, 0x424B, 0x434C, 0x43CD, 0x41D6, 0x4239,
    ]);
    cpu.set_reg(0, 0xFF);
    cpu.set_reg(1, 0x0F);
    cpu.set_reg(2, 4);
    cpu.set_reg(4, 3);
    cpu.set_reg(6, 0x0000_00F1);
    cpu.set_reg(7, 0xF0);
    cpu.step(&mut mem);
    assert_eq!(cpu.get_reg(0), 0x0F);
    cpu.step(&mut mem);
    assert_eq!(cpu.get_reg(0), 0);
    assert_eq!(cpu.get_flag_z(), true);
    cpu.set_reg(0, 0x1000_0001);
    cpu.step(&mut mem);
    assert_eq!(cpu.get_reg(0), 0x0000_0010);
    assert_eq!(cpu.get_flag_c(), true);
    cpu.step(&mut mem);
    assert_eq!(cpu.get_reg(3), 0xFFFF_FFF1);
    assert_eq!(cpu.get_flag_c(), false);
    cpu.step(&mut mem);
    assert_eq!(cpu.get_reg(4), 45);
    cpu.step(&mut mem);
    assert_eq!(cpu.get_reg(5), 0xFFFF_FFF0);
    cpu.step(&mut mem);
    assert_eq!(cpu.get_reg(6), 0x1000_000F);
    cpu.step(&mut mem);
    assert_eq!(cpu.get_flag_z(), true);
    assert_eq!(cpu.get_reg(1), 0x0F);
}

#[test]
fn thumb_high_register_operations_leave_flags_alone() {
    // MOV R8,R0 ; ADD R1,R8 ; CMP R8,R0
    let (mut cpu, mut mem) = thumb_machine(&[0x4680, 0x4441, 0x4580]);
    cpu.set_reg(0, 0);
    cpu.set_reg(1, 5);
    cpu.set_flag_n(true);
    cpu.step(&mut mem);
    assert_eq!(cpu.get_reg(8), 0);
    assert_eq!(cpu.get_flag_z(), false);
    assert_eq!(cpu.get_flag_n(), true);
    cpu.step(&mut mem);
    assert_eq!(cpu.get_reg(1), 5);
    cpu.step(&mut mem);
    assert_eq!(cpu.get_flag_z(), true);
    assert_eq!(cpu.get_flag_n(), false);
    assert_eq!(cpu.get_flag_c(), true);
}

#[test]
fn thumb_loads_and_stores() {
    // STR R1,[R0,#4] ; LDR R2,[R0,#4] ; STRB R1,[R0,#1] ; LDRB R3,[R0,#1] ; STRH R1,[R0,#2] ;
    // LDRH R4,[R0,#2] ; STR R1,[R0,R5] ; LDRSB R6,[R0,R5] ; LDRSH R7,[R0,R5]
    let (mut cpu, mut mem) = thumb_machine(&[
        0x6041, 0x6842, 0x7041, 0x7843, 0x8041, 0x8844, 0x5141, 0x5746, 0x5F47,
    ]);
    cpu.set_reg(0, 0x0300_0000);
    cpu.set_reg(1, 0x1234_8B9C);
    cpu.set_reg(5, 8);
    assert_eq!(cpu.step(&mut mem), 2);
    assert_eq!(mem.read_word(0x0300_0004), 0x1234_8B9C);
    cpu.step(&mut mem);
    assert_eq!(cpu.get_reg(2), 0x1234_8B9C);
    cpu.step(&mut mem);
    assert_eq!(mem.read_byte(0x0300_0001), 0x9C);
    cpu.step(&mut mem);
    assert_eq!(cpu.get_reg(3), 0x9C);
    cpu.step(&mut mem);
    assert_eq!(mem.read_half(0x0300_0002), 0x8B9C);
    cpu.step(&mut mem);
    assert_eq!(cpu.get_reg(4), 0x8B9C);
    cpu.step(&mut mem);
    assert_eq!(mem.read_word(0x0300_0008), 0x1234_8B9C);
    cpu.step(&mut mem);
    assert_eq!(cpu.get_reg(6), 0xFFFF_FF9C);
    cpu.step(&mut mem);
    assert_eq!(cpu.get_reg(7), 0xFFFF_8B9C);
}

#[test]
fn thumb_relative_addressing() {
    // LDR R0,[PC,#4] ; ADD R1,PC,#8 ; ADD R2,SP,#4 ; ADD SP,#-8 ; STR R0,[SP,#4] ; LDR R3,[SP,#4]
    let (mut cpu, mut mem) = thumb_machine(&[
        0x4801, 0xA102, 0xAA01, 0xB082, 0x9001, 0x9B01, 0x5678, 0x1234,
    ]);
    cpu.set_sp(0x0300_0100);
    assert_eq!(cpu.step(&mut mem), 2);
    assert_eq!(cpu.get_reg(0), 0x9B01_9001);
    assert_eq!(cpu.step(&mut mem), 1);
    assert_eq!(cpu.get_reg(1), 0x0800_000C);
    cpu.step(&mut mem);
    assert_eq!(cpu.get_reg(2), 0x0300_0104);
    cpu.step(&mut mem);
    assert_eq!(cpu.get_sp(), 0x0300_00F8);
    cpu.step(&mut mem);
    assert_eq!(mem.read_word(0x0300_00FC), 0x9B01_9001);
    cpu.step(&mut mem);
    assert_eq!(cpu.get_reg(3), 0x9B01_9001);
}

#[test]
fn thumb_push_and_pop() {
    // PUSH {R0,R1,LR} ; POP {R2,R3,PC}
    let (mut cpu, mut mem) = thumb_machine(&[0xB503, 0xBD0C]);
    cpu.set_sp(0x0300_0100);
    cpu.set_reg(0, 0xAAAA_0000);
    cpu.set_reg(1, 0xBBBB_1111);
    cpu.set_lr(0x0800_0041);
    assert_eq!(cpu.step(&mut mem), 3);
    assert_eq!(cpu.get_sp(), 0x0300_00F4);
    assert_eq!(mem.read_word(0x0300_00F4), 0xAAAA_0000);
    assert_eq!(mem.read_word(0x0300_00F8), 0xBBBB_1111);
    assert_eq!(mem.read_word(0x0300_00FC), 0x0800_0041);
    assert_eq!(cpu.step(&mut mem), 3);
    assert_eq!(cpu.get_reg(2), 0xAAAA_0000);
    assert_eq!(cpu.get_reg(3), 0xBBBB_1111);
    assert_eq!(cpu.get_pc(), 0x0800_0040);
    assert_eq!(cpu.get_sp(), 0x0300_0100);
    assert_eq!(cpu.is_thumb_mode(), true);
}

#[test]
fn thumb_multiple_transfer_updates_the_base() {
    // STMIA R0!,{R1,R2,R3,R4} ; LDMIA R5!,{R6,R7} ; LDMIA R5!,{R5}
    let (mut cpu, mut mem) = thumb_machine(&[0xC01E, 0xCDC0, 0xCD20]);
    cpu.set_reg(0, 0x0200_0000);
    for n in 1..5 {
        cpu.set_reg(n, n as u32 * 0x11);
    }
    cpu.set_reg(5, 0x0200_0004);
    assert_eq!(cpu.step(&mut mem), 4);
    assert_eq!(cpu.get_reg(0), 0x0200_0010);
    assert_eq!(mem.read_word(0x0200_000C), 0x44);
    assert_eq!(cpu.step(&mut mem), 3);
    assert_eq!(cpu.get_reg(6), 0x22);
    assert_eq!(cpu.get_reg(7), 0x33);
    assert_eq!(cpu.get_reg(5), 0x0200_000C);
    cpu.step(&mut mem);
    assert_eq!(cpu.get_reg(5), 0x44);
}

#[test]
fn thumb_branches() {
    // B +4 half-words past the look-ahead
    let (mut cpu, mut mem) = thumb_machine(&[0xE002]);
    assert_eq!(cpu.step(&mut mem), 2);
    assert_eq!(cpu.get_pc(), 0x0800_0008);
    // B backwards by one half-word: offset -1
    let (mut cpu, mut mem) = thumb_machine(&[0, 0, 0xE7FF]);
    cpu.set_pc(0x0800_0004);
    cpu.step(&mut mem);
    assert_eq!(cpu.get_pc(), 0x0800_0006);
    // BEQ taken and not taken
    let (mut cpu, mut mem) = thumb_machine(&[0xD0FE, 0xD0FE]);
    assert_eq!(cpu.step(&mut mem), 1);
    assert_eq!(cpu.get_pc(), 0x0800_0002);
    cpu.set_flag_z(true);
    assert_eq!(cpu.step(&mut mem), 2);
    assert_eq!(cpu.get_pc(), 0x0800_0002);
}

#[test]
fn thumb_long_branch_with_link() {
    // BL over +0x1020 bytes, staged in two half-words
    let (mut cpu, mut mem) = thumb_machine(&[0xF001, 0xF810]);
    assert_eq!(cpu.step(&mut mem), 1);
    assert_eq!(cpu.get_lr(), 0x0000_1000);
    assert_eq!(cpu.get_pc(), 0x0800_0002);
    assert_eq!(cpu.step(&mut mem), 2);
    assert_eq!(cpu.get_pc(), 0x0800_1024);
    assert_eq!(cpu.get_lr(), 0x0800_0005);
    assert_eq!(cpu.is_thumb_mode(), true);

    // Backwards by 4 bytes: offset -4 is 0x7FFFFC in 23 bits
    let (mut cpu, mut mem) = thumb_machine(&[0, 0, 0xF7FF, 0xFFFE]);
    cpu.set_pc(0x0800_0004);
    cpu.step(&mut mem);
    cpu.step(&mut mem);
    assert_eq!(cpu.get_pc(), 0x0800_0004);
    assert_eq!(cpu.get_lr(), 0x0800_0009);

    // With bit 12 clear the second half switches to the full-word set.
    let (mut cpu, mut mem) = thumb_machine(&[0xF000, 0xE803]);
    cpu.step(&mut mem);
    cpu.step(&mut mem);
    assert_eq!(cpu.is_thumb_mode(), false);
    assert_eq!(cpu.get_pc(), 0x0800_0008);
    assert_eq!(cpu.get_lr(), 0x0800_0005);
}

#[test]
fn undefined_thumb_pattern_is_a_one_cycle_no_op() {
    let (mut cpu, mut mem) = thumb_machine(&[0xB100]);
    let status = cpu.get_cpsr();
    assert_eq!(cpu.step(&mut mem), 1);
    assert_eq!(cpu.get_pc(), 0x0800_0002);
    assert_eq!(cpu.get_cpsr(), status);
}

#[test]
fn word_written_to_work_ram_reads_back_in_every_width() {
    let mut mem = Memory::new();
    for addr in [0x0200_0000u32, 0x0200_0010, 0x0203_FFFC, 0x0204_0000, 0x020F_FFFC] {
        mem.write_word(addr, 0x1234_5678);
        assert_eq!(mem.read_word(addr), 0x1234_5678);
        assert_eq!(mem.read_byte(addr), 0x78);
        assert_eq!(mem.read_byte(addr + 1), 0x56);
        assert_eq!(mem.read_byte(addr + 2), 0x34);
        assert_eq!(mem.read_byte(addr + 3), 0x12);
        assert_eq!(mem.read_half(addr), 0x5678);
        assert_eq!(mem.read_half(addr + 2), 0x1234);
    }
}

#[test]
fn unaligned_reads_rotate_the_aligned_value() {
    let mut mem = Memory::new();
    let base = 0x0200_0000;
    mem.write_word(base, 0x1234_5678);
    assert_eq!(mem.read_word(base + 1), 0x7812_3456);
    assert_eq!(mem.read_word(base + 2), 0x5678_1234);
    assert_eq!(mem.read_word(base + 3), 0x3456_7812);
    assert_eq!(mem.read_half(base + 1), 0x7856);
    assert_eq!(mem.read_half(base + 3), 0x3412);
}

#[test]
fn unaligned_write_lands_byte_by_byte_and_reads_back_rotated() {
    let mut mem = Memory::new();
    let base = 0x0200_0020;
    mem.write_word(base, 0xAABB_CCDD);
    mem.write_word(base + 4, 0x1122_3344);
    mem.write_word(base + 1, 0x1234_5678);
    assert_eq!(mem.read_byte(base), 0xDD);
    assert_eq!(mem.read_byte(base + 1), 0x78);
    assert_eq!(mem.read_byte(base + 2), 0x56);
    assert_eq!(mem.read_byte(base + 3), 0x34);
    assert_eq!(mem.read_byte(base + 4), 0x12);
    assert_eq!(mem.read_byte(base + 5), 0x33);
    let low = mem.read_half(base) as u32;
    let high = mem.read_half(base + 2) as u32;
    assert_eq!(mem.read_word(base + 1), (low | (high << 16)).rotate_right(8));
    assert_eq!(mem.read_word(base + 1), 0xDD34_5678);
}

#[test]
fn work_ram_is_mirrored_across_its_window() {
    let mut mem = Memory::new();
    mem.write_byte(0x0200_0005, 0x5A);
    assert_eq!(mem.read_byte(0x0204_0005), 0x5A);
    assert_eq!(mem.read_byte(0x020C_0005), 0x5A);
    mem.write_byte(0x0300_8001, 0xA5);
    assert_eq!(mem.read_byte(0x0300_0001), 0xA5);
    assert_eq!(mem.read_byte(0x030F_8001), 0xA5);
}

#[test]
fn cartridge_is_seen_in_all_three_windows() {
    let mut mem = Memory::new();
    let mut rom = vec![0u8; 0x100];
    rom[0x42] = 0x99;
    rom[0xFF] = 0x77;
    mem.load_rom(rom);
    for window in [0x0800_0000u32, 0x0A00_0000, 0x0C00_0000] {
        assert_eq!(mem.read_byte(window + 0x42), 0x99);
        assert_eq!(mem.read_byte(window + 0xFF), 0x77);
        assert_eq!(mem.read_byte(window + 0x142), 0x99);
        assert_eq!(mem.read_byte(window + 0x01FF_FF42), 0x99);
    }
}

#[test]
fn read_only_and_unmapped_regions() {
    let mut mem = Memory::new();
    mem.load_rom(vec![1, 2, 3, 4]);
    mem.write_word(0x0800_0000, 0xFFFF_FFFF);
    assert_eq!(mem.read_word(0x0800_0000), 0x0403_0201);
    mem.load_bios(vec![9, 8, 7]);
    mem.write_byte(0x0000_0000, 0xFF);
    assert_eq!(mem.read_byte(0x0000_0000), 9);
    assert_eq!(mem.read_byte(0x0000_0002), 7);
    assert_eq!(mem.read_byte(0x0000_0003), 0);
    assert_eq!(mem.read_byte(0x0000_4000), 0);
    mem.write_word(0x1000_0000, 0x1234_5678);
    assert_eq!(mem.read_word(0x1000_0000), 0);
    assert_eq!(mem.read_word(0xFFFF_FFFC), 0);
    assert_eq!(mem.read_half(0x0E00_0000), 0);
    let empty = Memory::new();
    assert_eq!(empty.read_byte(0x0800_0000), 0);
}

#[test]
fn boot_image_is_cut_to_its_size() {
    let mut mem = Memory::new();
    assert_eq!(mem.has_bios(), false);
    let mut image = vec![0u8; 0x5000];
    image[0x3FFF] = 0x11;
    image[0x4000] = 0x22;
    mem.load_bios(image);
    assert_eq!(mem.has_bios(), true);
    assert_eq!(mem.read_byte(0x3FFF), 0x11);
    mem.load_bios(vec![0u8; 16]);
    assert_eq!(mem.has_bios(), false);
    mem.reset();
    assert_eq!(mem.has_bios(), false);
}

#[test]
fn byte_writes_to_video_memories() {
    let mut mem = Memory::new();
    mem.write_half(0x0500_0010, 0x1234);
    mem.write_byte(0x0500_0011, 0xAB);
    assert_eq!(mem.read_half(0x0500_0010), 0xABAB);
    mem.write_half(0x0600_0020, 0x1234);
    mem.write_byte(0x0600_0020, 0xCD);
    assert_eq!(mem.read_half(0x0600_0020), 0xCDCD);
    mem.write_half(0x0700_0008, 0x1234);
    mem.write_byte(0x0700_0008, 0xEF);
    assert_eq!(mem.read_half(0x0700_0008), 0x1234);
    assert_eq!(mem.vram()[0x20], 0xCD);
    assert_eq!(mem.vram().len(), 0x18000);
    assert_eq!(mem.io().len(), 0x400);
}

#[test]
fn palette_entries_are_read_by_table_and_index() {
    let mut mem = Memory::new();
    mem.write_half(0x0500_0002, 0x03E0);
    mem.write_half(0x0500_0202, 0x7C00);
    mem.write_half(0x0500_03FE, 0x001F);
    assert_eq!(mem.read_palette_color(0, 1), 0x03E0);
    assert_eq!(mem.read_palette_color(1, 1), 0x7C00);
    assert_eq!(mem.read_palette_color(1, 255), 0x001F);
    assert_eq!(mem.read_palette_color(0, 511), 0x001F);
    assert_eq!(mem.read_palette_color(1, 257), 0x7C00);
}

#[test]
fn register_block_quirks() {
    let mut mem = Memory::new();
    assert_eq!(mem.read_byte(0x0400_0000), 0x80);
    assert_eq!(mem.read_half(0x0400_0130), 0xFFFF);
    mem.write_half(0x0400_0010, 0xBEEF);
    assert_eq!(mem.read_half(0x0400_0010), 0xBEEF);
    assert_eq!(mem.io()[0x10], 0xEF);
    mem.io_mut()[0x20] = 0x5C;
    assert_eq!(mem.read_byte(0x0400_0020), 0x5C);
    mem.write_byte(0x0400_03FF, 0x11);
    assert_eq!(mem.read_byte(0x0400_03FF), 0x11);
    mem.write_byte(0x0400_0400, 0x22);
    assert_eq!(mem.read_byte(0x0400_0400), 0);
}

#[test]
fn wait_control_sets_cartridge_timing() {
    let mut mem = Memory::new();
    assert_eq!(mem.get_access_cycles(0x0800_0000, false), 3);
    mem.write_byte(0x0400_0204, 0b0000_1001);
    assert_eq!(mem.get_access_cycles(0x0800_0000, false), 2);
    assert_eq!(mem.get_access_cycles(0x0800_0000, true), 1);
    assert_eq!(mem.get_access_cycles(0x0A00_0000, false), 3);
    mem.write_byte(0x0400_0204, 0b0110_0000);
    assert_eq!(mem.get_access_cycles(0x0A00_0000, false), 1);
    assert_eq!(mem.get_access_cycles(0x0A00_0000, true), 2);
    assert_eq!(mem.get_access_cycles(0x0C00_0000, true), 3);
    assert_eq!(mem.get_access_cycles(0x0E00_0000, true), 1);
    assert_eq!(mem.get_rom_waitstates(3, true), 3);
}

#[test]
fn interrupt_register_offsets() {
    assert_eq!(Memory::is_interrupt_register(0x0400_0000), true);
    assert_eq!(Memory::is_interrupt_register(0x0400_0208), true);
    assert_eq!(Memory::is_interrupt_register(0x0400_0209), false);
    assert_eq!(Memory::is_interrupt_register(0x03FF_FFFF), false);
    assert_eq!(Memory::get_interrupt_register_offset(0x0400_0000), Some(0x000));
    assert_eq!(Memory::get_interrupt_register_offset(0x0400_0001), Some(0x000));
    assert_eq!(Memory::get_interrupt_register_offset(0x0400_0003), Some(0x002));
    assert_eq!(Memory::get_interrupt_register_offset(0x0400_0208), Some(0x208));
    assert_eq!(Memory::get_interrupt_register_offset(0x0400_0004), None);
}

#[test]
fn no_interrupt_is_pending_while_the_master_switch_is_off() {
    let mut ic = InterruptController::new();
    ic.write_register(0x000, 0x3FFF);
    ic.request(Interrupt::from_bits_truncate(Interrupt::VBLANK | Interrupt::TIMER0));
    assert_eq!(ic.get_pending(), None);
    assert_eq!(ic.should_take_interrupt(), false);
    ic.write_register(0x208, 1);
    assert_eq!(ic.get_pending(), Some(Interrupt::from_bits_truncate(Interrupt::VBLANK)));
    assert_eq!(ic.should_take_interrupt(), true);
}

#[test]
fn pending_interrupt_is_the_lowest_enabled_request() {
    let mut ic = InterruptController::new();
    ic.write_register(0x208, 1);
    assert_eq!(ic.get_pending(), None);
    ic.write_register(0x000, Interrupt::TIMER0 | Interrupt::TIMER1);
    ic.request(Interrupt::from_bits_truncate(Interrupt::TIMER1 | Interrupt::TIMER2));
    assert_eq!(ic.get_pending().map(|i| i.bits()), Some(Interrupt::TIMER1));
    ic.request(Interrupt::from_bits_truncate(Interrupt::VBLANK));
    assert_eq!(ic.get_pending().map(|i| i.bits()), Some(Interrupt::TIMER1));
    ic.write_register(0x000, 0x3FFF);
    assert_eq!(ic.get_pending().map(|i| i.bits()), Some(Interrupt::VBLANK));
    ic.acknowledge(Interrupt::from_bits_truncate(Interrupt::VBLANK));
    assert_eq!(ic.get_pending().map(|i| i.bits()), Some(Interrupt::TIMER1));
    ic.write_register(0x000, Interrupt::GAMEPAK);
    ic.request(Interrupt::from_bits_truncate(Interrupt::GAMEPAK));
    assert_eq!(ic.get_pending().map(|i| i.bits()), Some(0x2000));
}

#[test]
fn interrupt_registers_and_write_one_to_clear() {
    let mut ic = InterruptController::new();
    ic.write_register(0x000, 0xFFFF);
    assert_eq!(ic.read_register(0x000), 0x3FFF);
    ic.request(Interrupt::from_bits_truncate(0x00FF));
    assert_eq!(ic.read_register(0x002), 0x00FF);
    ic.write_register(0x002, 0x0F0F);
    assert_eq!(ic.read_register(0x002), 0x00F0);
    ic.write_register(0x002, 0x0000);
    assert_eq!(ic.read_register(0x002), 0x00F0);
    ic.write_register(0x200, 0x0003);
    assert_eq!(ic.read_register(0x200), 0x0003);
    assert_eq!(ic.read_register(0x208), 0);
    ic.write_register(0x208, 0x8000);
    assert_eq!(ic.read_register(0x208), 1);
    assert_eq!(ic.read_register(0x004), 0);
    ic.write_register(0x004, 0xFFFF);
    assert_eq!(ic.read_register(0x000), 0x3FFF);
    ic.reset();
    assert_eq!(ic.read_register(0x000), 0);
    assert_eq!(ic.read_register(0x002), 0);
    assert_eq!(ic.read_register(0x208), 0);
}

#[test]
fn handler_latch_prevents_a_second_entry() {
    let mut ic = InterruptController::new();
    ic.write_register(0x000, 1);
    ic.write_register(0x208, 1);
    ic.request(Interrupt::from_bits_truncate(1));
    assert_eq!(ic.should_take_interrupt(), true);
    ic.enter_interrupt();
    assert_eq!(ic.ime, false);
    assert_eq!(ic.should_take_interrupt(), false);
    ic.write_register(0x208, 1);
    assert_eq!(ic.should_take_interrupt(), false);
    ic.exit_interrupt();
    assert_eq!(ic.ime, true);
    assert_eq!(ic.should_take_interrupt(), true);
}

#[test]
fn interrupt_registers_are_reached_through_the_bus() {
    let mut mem = Memory::new();
    mem.write_half(0x0400_0200, 0x1005);
    assert_eq!(mem.interrupt.ie.bits(), 0x1005);
    assert_eq!(mem.read_half(0x0400_0200), 0x1005);
    mem.write_byte(0x0400_0201, 0x00);
    assert_eq!(mem.interrupt.ie.bits(), 0x0005);
    mem.interrupt.request(Interrupt::from_bits_truncate(0x0305));
    assert_eq!(mem.read_half(0x0400_0202), 0x0305);
    mem.write_byte(0x0400_0202, 0x01);
    assert_eq!(mem.read_half(0x0400_0202), 0x0304);
    mem.write_half(0x0400_0202, 0x0100);
    assert_eq!(mem.read_half(0x0400_0202), 0x0204);
    assert_eq!(mem.read_byte(0x0400_0208), 0);
    mem.write_byte(0x0400_0208, 1);
    assert_eq!(mem.interrupt.ime, true);
    assert_eq!(mem.read_byte(0x0400_0208), 1);
    assert_eq!(mem.interrupt.get_pending().map(|i| i.bits()), Some(Interrupt::VCOUNT));
}

#[test]
fn logical_operations_take_carry_from_the_shifter() {
    // MOVS R0,R1,LSL #1 ; MOVS R2,R1,LSR #1 ; MOVS R3,R1 ; ANDS R4,R1,#0xFF
    let (mut cpu, mut mem) = arm_machine(&[0xE1B0_0081, 0xE1B0_20A1, 0xE1B0_3001, 0xE211_40FF]);
    cpu.set_reg(1, 0x8000_0002);
    cpu.step(&mut mem);
    assert_eq!(cpu.get_reg(0), 4);
    assert_eq!(cpu.get_flag_c(), true);
    cpu.step(&mut mem);
    assert_eq!(cpu.get_reg(2), 0x4000_0001);
    assert_eq!(cpu.get_flag_c(), false);
    cpu.set_flag_c(true);
    cpu.step(&mut mem);
    assert_eq!(cpu.get_reg(3), 0x8000_0002);
    assert_eq!(cpu.get_flag_c(), true);
    assert_eq!(cpu.get_flag_n(), true);
    cpu.step(&mut mem);
    assert_eq!(cpu.get_reg(4), 2);
    assert_eq!(cpu.get_flag_c(), true);
}

#[test]
fn return_from_the_interrupt_mode_releases_the_controller() {
    // SUBS PC,LR,#4 entered from the interrupt vector
    let (mut cpu, mut mem) = arm_machine(&[0xE25E_F004]);
    mem.write_half(0x0400_0200, 1);
    mem.write_byte(0x0400_0208, 1);
    mem.interrupt.request(Interrupt::from_bits_truncate(1));
    cpu.set_pc(0x0800_0100);
    let before = cpu.get_cpsr();
    cpu.take_interrupt(&mut mem);
    mem.interrupt.enter_interrupt();
    mem.interrupt.acknowledge(Interrupt::from_bits_truncate(1));
    assert_eq!(mem.interrupt.ime, false);
    assert_eq!(cpu.get_lr(), 0x0800_0104);
    cpu.set_pc(0x0800_0000);
    cpu.step(&mut mem);
    assert_eq!(cpu.get_cpsr(), before);
    assert_eq!(cpu.get_pc(), 0x0800_0100);
    assert_eq!(mem.interrupt.ime, true);
    mem.interrupt.request(Interrupt::from_bits_truncate(1));
    assert_eq!(mem.interrupt.should_take_interrupt(), true);

    // A return from Supervisor mode leaves the controller alone.
    let (mut cpu, mut mem) = arm_machine(&[0xE1B0_F00E]);
    cpu.set_mode(Mode::Supervisor);
    cpu.set_spsr(0x0000_001F);
    cpu.set_lr(0x0800_0040);
    cpu.step(&mut mem);
    assert_eq!(cpu.get_mode(), Mode::System);
    assert_eq!(mem.interrupt.ime, false);
}

#[test]
fn load_multiple_with_status_restore_returns_from_the_handler() {
    // LDMIA SP!,{R0,PC}^
    let (mut cpu, mut mem) = arm_machine(&[0xE8FD_8001]);
    cpu.set_mode(Mode::Irq);
    cpu.set_spsr(0x4000_0030);
    cpu.set_sp(0x0300_0000);
    mem.write_word(0x0300_0000, 0x1234);
    mem.write_word(0x0300_0004, 0x0800_0203);
    mem.interrupt.enter_interrupt();
    assert_eq!(cpu.step(&mut mem), 3);
    assert_eq!(cpu.get_reg(0), 0x1234);
    assert_eq!(cpu.get_mode(), Mode::User);
    assert_eq!(cpu.is_thumb_mode(), true);
    assert_eq!(cpu.get_flag_z(), true);
    assert_eq!(cpu.get_pc(), 0x0800_0202);
    assert_eq!(mem.interrupt.ime, true);
    cpu.set_mode(Mode::Irq);
    assert_eq!(cpu.get_sp(), 0x0300_0008);
}
