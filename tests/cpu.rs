use snes_cpu::address_mode::AddressMode;
use snes_cpu::cpu::{RunState, CPU};
use snes_cpu::memory::{Mem, SimpleMemory};
use snes_cpu::op_codes::{decode, Instruction};
use snes_cpu::status::{Flags, StatusFlags};

fn machine_at(pc: u16, program: &[u8]) -> (CPU, SimpleMemory) {
    let mut mem = SimpleMemory::new();
    for (i, b) in program.iter().enumerate() {
        mem.store(0, pc + i as u16, *b);
    }
    let mut cpu = CPU::new();
    cpu.regs.pc = pc;
    (cpu, mem)
}

#[test]
fn lda_immediate_one_step() {
    let (mut cpu, mut mem) = machine_at(0x8000, &[0xA9, 0x05]);
    cpu.regs.p.accumulator_width = true;
    let entry = cpu.step(&mut mem).unwrap();
    assert_eq!(entry.instruction, Instruction::Lda);
    assert_eq!(cpu.a() & 0xFF, 5);
    assert!(!cpu.regs.p.zero);
    assert!(!cpu.regs.p.negative);
    assert_eq!(cpu.pc(), 0x8002);
}

#[test]
fn inc_accumulator_wraps_at_16_bits() {
    let (mut cpu, mut mem) = machine_at(0x8000, &[0x1A]);
    cpu.regs.p.accumulator_width = false;
    cpu.regs.a = 0xFFFF;
    cpu.step(&mut mem);
    assert_eq!(cpu.a(), 0x0000);
    assert!(cpu.regs.p.zero);
    assert!(!cpu.regs.p.negative);
}

#[test]
fn inc_accumulator_8_bit_keeps_high_byte() {
    let (mut cpu, mut mem) = machine_at(0x8000, &[0x1A]);
    cpu.regs.p.accumulator_width = true;
    cpu.regs.a = 0x12FF;
    cpu.step(&mut mem);
    assert_eq!(cpu.a(), 0x1200);
    assert!(cpu.regs.p.zero);
}

fn emulation_cpu() -> CPU {
    let mut cpu = CPU::new();
    cpu.regs.p.emulation_mode = true;
    cpu.regs.p.accumulator_width = true;
    cpu.regs.p.index_width = true;
    cpu.regs.sp = 0x01FF;
    cpu
}

#[test]
fn direct_emulation_unaligned_adds_d() {
    let mut mem = SimpleMemory::new();
    mem.store(0, 0x8000, 0x10);
    let mut cpu = emulation_cpu();
    cpu.regs.pc = 0x8000;
    cpu.regs.d = 0x1234;
    let at = AddressMode::Direct(0xA5).get_address_8(&mut cpu, &mem);
    assert_eq!(at, (0, 0x1244));
    assert_eq!(cpu.pc(), 0x8001);
}

#[test]
fn direct_indexed_emulation_aligned_stays_in_page() {
    let mut mem = SimpleMemory::new();
    mem.store(0, 0x8000, 0xF0);
    let mut cpu = emulation_cpu();
    cpu.regs.pc = 0x8000;
    cpu.regs.d = 0x1200;
    cpu.regs.x = 0x20;
    let at = AddressMode::DirectIndexedX.get_address_8(&mut cpu, &mem);
    assert_eq!(at, (0, 0x1210));

    let mut native = CPU::new();
    native.regs.pc = 0x8000;
    native.regs.d = 0x1200;
    native.regs.x = 0x20;
    let at = AddressMode::DirectIndexedX.get_address_8(&mut native, &mem);
    assert_eq!(at, (0, 0x1310));
}

#[test]
fn mvn_copies_count_plus_one_bytes() {
    let (mut cpu, mut mem) = machine_at(0x8000, &[0x54, 0x7E, 0x7F]);
    cpu.regs.a = 2;
    cpu.regs.x = 0x1000;
    cpu.regs.y = 0x2000;
    for (i, b) in [0xAAu8, 0xBB, 0xCC].iter().enumerate() {
        mem.store(0x7F, 0x1000 + i as u16, *b);
    }
    let mut steps = 0;
    while cpu.pc() != 0x8003 {
        cpu.step(&mut mem);
        steps += 1;
        assert!(steps <= 3);
    }
    assert_eq!(steps, 3);
    assert_eq!(cpu.x(), 0x1003);
    assert_eq!(cpu.y(), 0x2003);
    assert_eq!(cpu.a(), 0xFFFF);
    assert_eq!(cpu.dbr(), 0x7E);
    assert_eq!(mem.load(0x7E, 0x2000), 0xAA);
    assert_eq!(mem.load(0x7E, 0x2001), 0xBB);
    assert_eq!(mem.load(0x7E, 0x2002), 0xCC);
}

#[test]
fn mvp_counts_down() {
    let (mut cpu, mut mem) = machine_at(0x8000, &[0x44, 0x01, 0x02]);
    cpu.regs.a = 1;
    cpu.regs.x = 0x1001;
    cpu.regs.y = 0x2001;
    mem.store(0x02, 0x1000, 0x11);
    mem.store(0x02, 0x1001, 0x22);
    cpu.step(&mut mem);
    assert_eq!(cpu.pc(), 0x8000);
    cpu.step(&mut mem);
    assert_eq!(cpu.pc(), 0x8003);
    assert_eq!(cpu.x(), 0x0FFF);
    assert_eq!(cpu.y(), 0x1FFF);
    assert_eq!(mem.load(0x01, 0x2000), 0x11);
    assert_eq!(mem.load(0x01, 0x2001), 0x22);
}

#[test]
fn adc_binary_8_bit_carry_out() {
    let mut cpu = CPU::new();
    cpu.regs.p.accumulator_width = true;
    cpu.regs.a = 0x34FF;
    cpu.adc_8(0x01);
    assert_eq!(cpu.a(), 0x3400);
    assert!(cpu.regs.p.carry);
    assert!(cpu.regs.p.zero);
    cpu.adc_8(0x10);
    assert_eq!(cpu.a(), 0x3411);
    assert!(!cpu.regs.p.carry);
}

#[test]
fn adc_binary_16_bit_sum_and_overflow() {
    let mut cpu = CPU::new();
    cpu.regs.a = 0x7FFF;
    cpu.regs.p.carry = true;
    cpu.adc_16(0x0000);
    assert_eq!(cpu.a(), 0x8000);
    assert!(!cpu.regs.p.carry);
    assert!(cpu.regs.p.overflow);
    assert!(cpu.regs.p.negative);
    cpu.adc_16(0x8000);
    assert_eq!(cpu.a(), 0x0000);
    assert!(cpu.regs.p.carry);
    assert!(cpu.regs.p.zero);
}

#[test]
fn adc_decimal_8_bit() {
    let mut cpu = CPU::new();
    cpu.regs.p.accumulator_width = true;
    cpu.regs.p.decimal_mode = true;
    cpu.regs.a = 0x45;
    cpu.adc_8(0x38);
    assert_eq!(cpu.a(), 0x83);
    assert!(!cpu.regs.p.carry);
    cpu.adc_8(0x17);
    assert_eq!(cpu.a(), 0x00);
    assert!(cpu.regs.p.carry);
    assert!(cpu.regs.p.zero);
}

#[test]
fn adc_decimal_16_bit() {
    let mut cpu = CPU::new();
    cpu.regs.p.decimal_mode = true;
    cpu.regs.a = 0x1234;
    cpu.adc_16(0x8766);
    assert_eq!(cpu.a(), 0x0000);
    assert!(cpu.regs.p.carry);
    cpu.regs.a = 0x0999;
    cpu.adc_16(0x0001);
    assert_eq!(cpu.a(), 0x1001);
    assert!(!cpu.regs.p.carry);
}

#[test]
fn sbc_binary_and_decimal() {
    let mut cpu = CPU::new();
    cpu.regs.p.accumulator_width = true;
    cpu.regs.p.carry = true;
    cpu.regs.a = 0x05;
    cpu.sbc_8(0x06);
    assert_eq!(cpu.a() & 0xFF, 0xFF);
    assert!(!cpu.regs.p.carry);
    assert!(cpu.regs.p.negative);

    let mut cpu = CPU::new();
    cpu.regs.p.decimal_mode = true;
    cpu.regs.p.carry = true;
    cpu.regs.a = 0x1000;
    cpu.sbc_16(0x0001);
    assert_eq!(cpu.a(), 0x0999);
    assert!(cpu.regs.p.carry);
}

#[test]
fn sbc_16_binary_borrow() {
    let mut cpu = CPU::new();
    cpu.regs.a = 0x0000;
    cpu.regs.p.carry = true;
    cpu.sbc_16(0x0001);
    assert_eq!(cpu.a(), 0xFFFF);
    assert!(!cpu.regs.p.carry);
    assert!(!cpu.regs.p.overflow);
}

#[test]
fn cmp_unsigned_flags() {
    // CMP #$03 with A = 5, then CMP #$FF with A = 1 (8-bit).
    let (mut cpu, mut mem) = machine_at(0x8000, &[0xC9, 0x03, 0xC9, 0xFF, 0xC9, 0x01]);
    cpu.regs.p.accumulator_width = true;
    cpu.regs.a = 0x05;
    cpu.step(&mut mem);
    assert!(cpu.regs.p.carry);
    assert!(!cpu.regs.p.zero);
    assert!(!cpu.regs.p.negative);
    cpu.regs.a = 0x01;
    cpu.step(&mut mem);
    assert!(!cpu.regs.p.carry);
    assert!(!cpu.regs.p.zero);
    // 0x01 - 0xFF = 0x02: the negative flag is the high bit of the difference.
    assert!(!cpu.regs.p.negative);
    cpu.step(&mut mem);
    assert!(cpu.regs.p.carry);
    assert!(cpu.regs.p.zero);
    assert_eq!(cpu.a(), 0x01);
}

#[test]
fn cpx_16_bit() {
    let (mut cpu, mut mem) = machine_at(0x8000, &[0xE0, 0x00, 0x90]);
    cpu.regs.x = 0x9000;
    cpu.step(&mut mem);
    assert!(cpu.regs.p.carry);
    assert!(cpu.regs.p.zero);
    assert_eq!(cpu.pc(), 0x8003);
}

#[test]
fn pha_pla_round_trip() {
    let (mut cpu, mut mem) = machine_at(0x8000, &[0x48, 0x68]);
    cpu.regs.p.accumulator_width = true;
    cpu.regs.sp = 0x1FFF;
    cpu.regs.a = 0x0080;
    cpu.regs.p.zero = true;
    cpu.regs.p.negative = false;
    cpu.step(&mut mem);
    assert_eq!(cpu.regs.sp, 0x1FFE);
    cpu.regs.a = 0x0000;
    cpu.step(&mut mem);
    assert_eq!(cpu.a(), 0x0080);
    assert_eq!(cpu.regs.sp, 0x1FFF);
    assert!(cpu.regs.p.negative);
    assert!(!cpu.regs.p.zero);
}

#[test]
fn pha_pla_16_bit_round_trip() {
    let (mut cpu, mut mem) = machine_at(0x8000, &[0x48, 0x68]);
    cpu.regs.sp = 0x1FFF;
    cpu.regs.a = 0x1234;
    cpu.step(&mut mem);
    assert_eq!(mem.load(0, 0x1FFF), 0x12);
    assert_eq!(mem.load(0, 0x1FFE), 0x34);
    cpu.regs.a = 0;
    cpu.step(&mut mem);
    assert_eq!(cpu.a(), 0x1234);
    assert_eq!(cpu.regs.sp, 0x1FFF);
}

#[test]
fn resolving_twice_gives_same_address() {
    let mut mem = SimpleMemory::new();
    mem.store(0, 0x8000, 0xFF);
    mem.store(0, 0x8001, 0xFF);
    let mut cpu = CPU::new();
    cpu.regs.pc = 0x8000;
    cpu.regs.dbr = 0x12;
    cpu.regs.x = 2;
    let start = cpu;
    let first = AddressMode::AbsoluteIndexedX.get_address_8(&mut cpu, &mem);
    let after = cpu;
    let mut again = start;
    let second = AddressMode::AbsoluteIndexedX.get_address_8(&mut again, &mem);
    assert_eq!(first, second);
    assert_eq!(after, again);
    assert_eq!(first, (0x13, 0x0001));
    assert_eq!(after.pc(), 0x8002);
}

#[test]
fn absolute_indexed_pair_crosses_bank() {
    let mut mem = SimpleMemory::new();
    mem.store(0, 0x8000, 0xFE);
    mem.store(0, 0x8001, 0xFF);
    let mut cpu = CPU::new();
    cpu.regs.pc = 0x8000;
    cpu.regs.dbr = 0x7E;
    cpu.regs.x = 1;
    let pair = AddressMode::AbsoluteIndexedX.get_address_16(&mut cpu, &mem);
    assert_eq!(pair, ((0x7E, 0xFFFF), (0x7F, 0x0000)));
}

#[test]
fn direct_pair_wraps_within_bank() {
    let mut mem = SimpleMemory::new();
    mem.store(0, 0x8000, 0xFF);
    let mut cpu = CPU::new();
    cpu.regs.pc = 0x8000;
    cpu.regs.d = 0xFF00;
    let pair = AddressMode::Direct(0xA5).get_address_16(&mut cpu, &mem);
    assert_eq!(pair, ((0, 0xFFFF), (0, 0x0000)));
}

#[test]
fn indirect_modes_read_pointers() {
    let mut mem = SimpleMemory::new();
    // (dir): pointer at D + 0x10 holds 0x3456, data bank 0x7E.
    mem.store(0, 0x8000, 0x10);
    mem.store(0, 0x0110, 0x56);
    mem.store(0, 0x0111, 0x34);
    let mut cpu = CPU::new();
    cpu.regs.pc = 0x8000;
    cpu.regs.d = 0x0100;
    cpu.regs.dbr = 0x7E;
    assert_eq!(AddressMode::DirectIndirect.get_address_8(&mut cpu, &mem), (0x7E, 0x3456));
    // (dir),Y with Y = 0x10.
    cpu.regs.pc = 0x8000;
    cpu.regs.y = 0x10;
    assert_eq!(AddressMode::DirectIndirectIndexed.get_address_8(&mut cpu, &mem), (0x7E, 0x3466));
    // [abs]: three-byte pointer in bank 0.
    mem.store(0, 0x9000, 0x00);
    mem.store(0, 0x9001, 0x20);
    mem.store(0, 0x2000, 0xCD);
    mem.store(0, 0x2001, 0xAB);
    mem.store(0, 0x2002, 0x05);
    cpu.regs.pc = 0x9000;
    assert_eq!(AddressMode::AbsoluteIndirectLong.get_address_8(&mut cpu, &mem), (0x05, 0xABCD));
}

#[test]
fn relative_branch_targets() {
    // BRA +2 at 0x8000 lands at 0x8004; BRA -2 at 0x8004 loops to itself.
    let (mut cpu, mut mem) = machine_at(0x8000, &[0x80, 0x02, 0xEA, 0xEA, 0x80, 0xFE]);
    cpu.step(&mut mem);
    assert_eq!(cpu.pc(), 0x8004);
    cpu.step(&mut mem);
    assert_eq!(cpu.pc(), 0x8004);
}

#[test]
fn conditional_branch_not_taken_skips_operand() {
    let (mut cpu, mut mem) = machine_at(0x8000, &[0xF0, 0x10]);
    cpu.regs.p.zero = false;
    cpu.step(&mut mem);
    assert_eq!(cpu.pc(), 0x8002);
    let (mut cpu, mut mem) = machine_at(0x8000, &[0xF0, 0x10]);
    cpu.regs.p.zero = true;
    cpu.step(&mut mem);
    assert_eq!(cpu.pc(), 0x8012);
}

#[test]
fn jsr_rts_round_trip() {
    let (mut cpu, mut mem) = machine_at(0x8000, &[0x20, 0x00, 0x90]);
    mem.store(0, 0x9000, 0x60);
    cpu.regs.sp = 0x01FF;
    cpu.step(&mut mem);
    assert_eq!(cpu.pc(), 0x9000);
    assert_eq!(mem.load(0, 0x01FF), 0x80);
    assert_eq!(mem.load(0, 0x01FE), 0x02);
    cpu.step(&mut mem);
    assert_eq!(cpu.pc(), 0x8003);
    assert_eq!(cpu.regs.sp, 0x01FF);
}

#[test]
fn jsl_rtl_round_trip() {
    let (mut cpu, mut mem) = machine_at(0x8000, &[0x22, 0x34, 0x12, 0x05]);
    mem.store(0x05, 0x1234, 0x6B);
    cpu.regs.sp = 0x01FF;
    cpu.step(&mut mem);
    assert_eq!((cpu.pbr(), cpu.pc()), (0x05, 0x1234));
    assert_eq!(mem.load(0, 0x01FF), 0x00);
    cpu.step(&mut mem);
    assert_eq!((cpu.pbr(), cpu.pc()), (0x00, 0x8004));
}

#[test]
fn brk_native_pushes_frame_and_vectors() {
    let (mut cpu, mut mem) = machine_at(0x8000, &[0x00, 0xEA]);
    cpu.regs.sp = 0x01FF;
    cpu.regs.pbr = 0x00;
    cpu.regs.p.carry = true;
    cpu.regs.p.decimal_mode = true;
    cpu.step(&mut mem);
    assert_eq!(cpu.pbr(), 0);
    assert_eq!(cpu.pc(), 0xFFE6);
    assert_eq!(cpu.regs.sp, 0x01FB);
    assert_eq!(mem.load(0, 0x01FF), 0x00);
    assert_eq!(mem.load(0, 0x01FE), 0x80);
    assert_eq!(mem.load(0, 0x01FD), 0x02);
    assert_eq!(mem.load(0, 0x01FC), 0x09);
    assert!(cpu.regs.p.interrupt_disable);
    assert!(!cpu.regs.p.decimal_mode);
}

#[test]
fn cop_native_vector_and_rti() {
    let (mut cpu, mut mem) = machine_at(0x8000, &[0x02, 0x00]);
    mem.store(0, 0xFFE4, 0x40);
    cpu.regs.sp = 0x01FF;
    cpu.regs.p.carry = true;
    cpu.step(&mut mem);
    assert_eq!(cpu.pc(), 0xFFE4);
    cpu.step(&mut mem);
    assert_eq!(cpu.pc(), 0x8002);
    assert_eq!(cpu.regs.sp, 0x01FF);
    assert!(cpu.regs.p.carry);
    assert!(!cpu.regs.p.interrupt_disable);
}

#[test]
fn brk_emulation_uses_emulation_vector() {
    let mut mem = SimpleMemory::new();
    mem.store(0, 0x8000, 0x00);
    let mut cpu = emulation_cpu();
    cpu.regs.pc = 0x8000;
    cpu.step(&mut mem);
    assert_eq!(cpu.pc(), 0xFFFE);
    assert_eq!(cpu.regs.sp, 0x01FC);
    assert_eq!(mem.load(0, 0x01FD) & 0x10, 0x10);
}

#[test]
fn rep_sep_in_native_and_emulation() {
    let (mut cpu, mut mem) = machine_at(0x8000, &[0xE2, 0x30, 0xC2, 0x31]);
    cpu.step(&mut mem);
    assert!(cpu.regs.p.accumulator_width);
    assert!(cpu.regs.p.index_width);
    cpu.regs.p.carry = true;
    cpu.step(&mut mem);
    assert!(!cpu.regs.p.accumulator_width);
    assert!(!cpu.regs.p.index_width);
    assert!(!cpu.regs.p.carry);

    let mut mem = SimpleMemory::new();
    mem.store(0, 0x8000, 0xC2);
    mem.store(0, 0x8001, 0x30);
    let mut cpu = emulation_cpu();
    cpu.regs.pc = 0x8000;
    cpu.step(&mut mem);
    assert!(cpu.regs.p.accumulator_width);
    assert!(cpu.regs.p.index_width);
    assert_eq!(cpu.regs.p.to_status().bits, 0x30);
}

#[test]
fn rep_sep_emulation_keep_bits_four_and_five() {
    let mut mem = SimpleMemory::new();
    for (i, b) in [0xC2u8, 0x10, 0xE2, 0x01, 0xC2, 0xFF].iter().enumerate() {
        mem.store(0, 0x8000 + i as u16, *b);
    }
    let mut cpu = emulation_cpu();
    cpu.regs.pc = 0x8000;
    cpu.regs.p.negative = true;
    cpu.step(&mut mem);
    assert_eq!(cpu.regs.p.to_status().bits, 0xB0);
    cpu.step(&mut mem);
    assert_eq!(cpu.regs.p.to_status().bits, 0xB1);
    assert!(cpu.regs.p.carry);
    cpu.step(&mut mem);
    assert_eq!(cpu.regs.p.to_status().bits, 0x30);
    assert!(cpu.regs.p.emulation_mode);
}

#[test]
fn opcode_lengths_and_cycles() {
    assert_eq!((decode(0xA9).len, decode(0xA9).cycles), (2, 2));
    assert_eq!((decode(0x22).len, decode(0x22).cycles), (4, 8));
    assert_eq!((decode(0xFE).len, decode(0xFE).cycles), (3, 7));
    assert_eq!((decode(0xEA).len, decode(0xEA).cycles), (1, 2));
    assert_eq!((decode(0xF4).len, decode(0xF4).cycles), (3, 5));
    let (mut cpu, mut mem) = machine_at(0x8000, &[0xA9, 0x05, 0xEE, 0x00, 0x20]);
    cpu.regs.p.accumulator_width = true;
    assert_eq!(cpu.cycles, 64);
    cpu.step(&mut mem);
    assert_eq!(cpu.cycles, 62);
    cpu.step(&mut mem);
    assert_eq!(cpu.cycles, 56);
}

#[test]
fn xce_enters_emulation() {
    let (mut cpu, mut mem) = machine_at(0x8000, &[0xFB]);
    cpu.regs.p.carry = true;
    cpu.regs.x = 0x1234;
    cpu.regs.y = 0xABCD;
    cpu.regs.sp = 0x1FF0;
    cpu.step(&mut mem);
    assert!(cpu.regs.p.emulation_mode);
    assert!(!cpu.regs.p.carry);
    assert!(cpu.regs.p.accumulator_width && cpu.regs.p.index_width);
    assert_eq!(cpu.x(), 0x34);
    assert_eq!(cpu.y(), 0xCD);
    assert_eq!(cpu.regs.sp, 0x01F0);
}

#[test]
fn emulation_stack_wraps_in_page_one() {
    let (_, mut mem) = machine_at(0x8000, &[0x48]);
    let mut cpu = emulation_cpu();
    cpu.regs.pc = 0x8000;
    cpu.regs.sp = 0x0100;
    cpu.regs.a = 0x42;
    cpu.step(&mut mem);
    assert_eq!(mem.load(0, 0x0100), 0x42);
    assert_eq!(cpu.regs.sp, 0x01FF);
}

#[test]
fn shifts_and_rotates() {
    let mut mem = SimpleMemory::new();
    let mut cpu = CPU::new();
    cpu.regs.p.accumulator_width = true;
    cpu.regs.a = 0x0081;
    cpu.asl(AddressMode::Accumulator, &mut mem);
    assert_eq!(cpu.a(), 0x0002);
    assert!(cpu.regs.p.carry);
    cpu.ror(AddressMode::Accumulator, &mut mem);
    assert_eq!(cpu.a(), 0x0081);
    assert!(!cpu.regs.p.carry);
    assert!(cpu.regs.p.negative);
    cpu.lsr(AddressMode::Accumulator, &mut mem);
    assert_eq!(cpu.a(), 0x0040);
    assert!(cpu.regs.p.carry);
    cpu.rol(AddressMode::Accumulator, &mut mem);
    assert_eq!(cpu.a(), 0x0081);
    assert!(!cpu.regs.p.carry);
}

#[test]
fn read_modify_write_on_memory() {
    let (mut cpu, mut mem) = machine_at(0x8000, &[0xEE, 0x00, 0x20, 0x0E, 0x00, 0x20]);
    cpu.regs.p.accumulator_width = true;
    cpu.regs.dbr = 0x7E;
    mem.store(0x7E, 0x2000, 0x7F);
    cpu.step(&mut mem);
    assert_eq!(mem.load(0x7E, 0x2000), 0x80);
    assert!(cpu.regs.p.negative);
    cpu.step(&mut mem);
    assert_eq!(mem.load(0x7E, 0x2000), 0x00);
    assert!(cpu.regs.p.carry);
    assert!(cpu.regs.p.zero);
}

#[test]
fn tsb_trb_set_and_clear_bits() {
    let (mut cpu, mut mem) = machine_at(0x8000, &[0x04, 0x10, 0x14, 0x10]);
    cpu.regs.p.accumulator_width = true;
    cpu.regs.a = 0x0F;
    mem.store(0, 0x0010, 0xF0);
    cpu.step(&mut mem);
    assert_eq!(mem.load(0, 0x0010), 0xFF);
    assert!(cpu.regs.p.zero);
    cpu.step(&mut mem);
    assert_eq!(mem.load(0, 0x0010), 0xF0);
    assert!(!cpu.regs.p.zero);
}

#[test]
fn bit_immediate_sets_only_zero() {
    let (mut cpu, mut mem) = machine_at(0x8000, &[0x89, 0xC0, 0x24, 0x10]);
    cpu.regs.p.accumulator_width = true;
    cpu.regs.a = 0x01;
    mem.store(0, 0x0010, 0xC0);
    cpu.step(&mut mem);
    assert!(cpu.regs.p.zero);
    assert!(!cpu.regs.p.negative);
    assert!(!cpu.regs.p.overflow);
    cpu.step(&mut mem);
    assert!(cpu.regs.p.negative);
    assert!(cpu.regs.p.overflow);
}

#[test]
fn logic_and_stores() {
    let (mut cpu, mut mem) = machine_at(0x8000, &[0x29, 0x0F, 0x09, 0x80, 0x49, 0xFF, 0x85, 0x20, 0x64, 0x21]);
    cpu.regs.p.accumulator_width = true;
    cpu.regs.a = 0xAB3C;
    mem.store(0, 0x0021, 0x99);
    cpu.step(&mut mem);
    assert_eq!(cpu.a(), 0xAB0C);
    cpu.step(&mut mem);
    assert_eq!(cpu.a(), 0xAB8C);
    assert!(cpu.regs.p.negative);
    cpu.step(&mut mem);
    assert_eq!(cpu.a(), 0xAB73);
    cpu.step(&mut mem);
    assert_eq!(mem.load(0, 0x0020), 0x73);
    cpu.step(&mut mem);
    assert_eq!(mem.load(0, 0x0021), 0x00);
}

#[test]
fn sta_16_bit_writes_both_bytes() {
    let (mut cpu, mut mem) = machine_at(0x8000, &[0x8D, 0x00, 0x30]);
    cpu.regs.a = 0xBEEF;
    cpu.regs.dbr = 0x01;
    cpu.step(&mut mem);
    assert_eq!(mem.load(0x01, 0x3000), 0xEF);
    assert_eq!(mem.load(0x01, 0x3001), 0xBE);
}

#[test]
fn transfers_respect_widths() {
    let mut cpu = CPU::new();
    cpu.regs.p.index_width = true;
    cpu.regs.a = 0x1280;
    cpu.regs.x = 0x0000;
    cpu.tax();
    assert_eq!(cpu.x(), 0x0080);
    assert!(cpu.regs.p.negative);
    cpu.regs.p.index_width = false;
    cpu.tay();
    assert_eq!(cpu.y(), 0x1280);
    cpu.xba();
    assert_eq!(cpu.a(), 0x8012);
    cpu.tcd();
    assert_eq!(cpu.d(), 0x8012);
    assert_eq!(cpu.dl(), 0x12);
    assert_eq!(cpu.dh(), 0x80);
    cpu.txs();
    assert_eq!(cpu.regs.sp, 0x0080);
}

#[test]
fn index_counting() {
    let mut cpu = CPU::new();
    cpu.regs.p.index_width = true;
    cpu.regs.x = 0x00FF;
    cpu.inx();
    assert_eq!(cpu.x(), 0x0000);
    assert!(cpu.regs.p.zero);
    cpu.dey();
    assert_eq!(cpu.y(), 0x00FF);
    assert!(cpu.regs.p.negative);
    cpu.regs.p.index_width = false;
    cpu.iny();
    assert_eq!(cpu.y(), 0x0100);
    cpu.dex();
    assert_eq!(cpu.x(), 0xFFFF);
}

#[test]
fn flag_instructions() {
    let (mut cpu, mut mem) = machine_at(0x8000, &[0x38, 0xF8, 0x78, 0x18, 0xD8, 0x58, 0xB8]);
    cpu.regs.p.overflow = true;
    cpu.step(&mut mem);
    cpu.step(&mut mem);
    cpu.step(&mut mem);
    assert!(cpu.regs.p.carry && cpu.regs.p.decimal_mode && cpu.regs.p.interrupt_disable);
    for _ in 0..4 {
        cpu.step(&mut mem);
    }
    assert!(!cpu.regs.p.carry && !cpu.regs.p.decimal_mode && !cpu.regs.p.interrupt_disable);
    assert!(!cpu.regs.p.overflow);
}

#[test]
fn php_plp_round_trip() {
    let (mut cpu, mut mem) = machine_at(0x8000, &[0x08, 0x18, 0x28]);
    cpu.regs.sp = 0x01FF;
    cpu.regs.p.carry = true;
    cpu.regs.p.negative = true;
    cpu.step(&mut mem);
    assert_eq!(mem.load(0, 0x01FF), 0x81);
    cpu.step(&mut mem);
    assert!(!cpu.regs.p.carry);
    cpu.step(&mut mem);
    assert!(cpu.regs.p.carry);
    assert!(cpu.regs.p.negative);
}

#[test]
fn push_effective_addresses() {
    let (mut cpu, mut mem) = machine_at(0x8000, &[0xF4, 0x34, 0x12, 0x62, 0x10, 0x00]);
    cpu.regs.sp = 0x01FF;
    cpu.step(&mut mem);
    assert_eq!(mem.load(0, 0x01FF), 0x12);
    assert_eq!(mem.load(0, 0x01FE), 0x34);
    cpu.step(&mut mem);
    // PER at 0x8003: target 0x8006 + 0x0010.
    assert_eq!(mem.load(0, 0x01FD), 0x80);
    assert_eq!(mem.load(0, 0x01FC), 0x16);
}

#[test]
fn stp_halts_and_resume_rearms() {
    let (mut cpu, mut mem) = machine_at(0x8000, &[0xDB, 0xEA]);
    cpu.step(&mut mem);
    assert_eq!(cpu.state, RunState::HaltedAwaitingInterrupt);
    assert!(cpu.step(&mut mem).is_none());
    assert_eq!(cpu.pc(), 0x8001);
    cpu.resume();
    assert_eq!(cpu.state, RunState::Running);
    assert!(cpu.step(&mut mem).is_some());
    assert_eq!(cpu.pc(), 0x8002);
}

#[test]
fn exit_request_honoured_at_budget_boundary() {
    // NOP costs two cycles: the budget of 64 runs out on the 32nd one.
    let mut mem = SimpleMemory::new();
    for i in 0..64u16 {
        mem.store(0, i, 0xEA);
    }
    let mut cpu = CPU::new();
    cpu.request_exit();
    let state = cpu.run(&mut mem, 100);
    assert_eq!(state, RunState::Terminated);
    assert_eq!(cpu.pc(), 32);
}

#[test]
fn run_stops_after_step_limit() {
    let mut mem = SimpleMemory::new();
    for i in 0..10u16 {
        mem.store(0, i, 0xEA);
    }
    let mut cpu = CPU::new();
    let state = cpu.run(&mut mem, 10);
    assert_eq!(state, RunState::Running);
    assert_eq!(cpu.pc(), 10);
}

#[test]
fn decode_covers_every_opcode() {
    for op in 0..=255u8 {
        assert_eq!(decode(op).op, op);
    }
    assert_eq!(decode(0xA9).instruction, Instruction::Lda);
    assert_eq!(decode(0xA9).mode, AddressMode::Immediate);
    assert_eq!(decode(0x5C).mode, AddressMode::AbsoluteLong);
    assert_eq!(decode(0xFB).instruction, Instruction::Xce);
}

#[test]
fn status_byte_round_trip() {
    let mut f = Flags::new();
    f.carry = true;
    f.overflow = true;
    f.index_width = true;
    let s = f.to_status();
    assert_eq!(s.bits, 0x51);
    assert!(s.carry() && s.overflow() && s.index_width());
    assert!(!s.zero() && !s.negative() && !s.decimal());
    let mut g = Flags::new();
    g.break_flag = false;
    g.load_status(s);
    assert_eq!(g, f);
}

#[test]
fn status_flags_setters() {
    let mut s = StatusFlags::new();
    s.set_carry(true);
    s.set_negative_from_data_8(0x80);
    s.set_zero_from_data(0);
    s.set_accumulator_width(true);
    assert_eq!(s.bits, 0xA3);
    s.set_negative_from_data_16(0x7FFF);
    s.set_zero(false);
    s.set_break_flag(true);
    assert_eq!(s.bits, 0x31);
    assert!(s.break_flag());
    s.set_index_width(false);
    s.set_interrupt_disable(true);
    s.set_decimal(true);
    s.set_overflow(true);
    assert_eq!(s.bits, 0x6D);
    assert!(s.interrupt_disable() && s.decimal() && s.accumulator_width());
    s.set_negative(true);
    assert!(s.negative());
}

#[test]
fn memory_load_image_places_bytes() {
    let mut mem = SimpleMemory::new();
    mem.load_image(&vec![1, 2, 3], 0x00, 0xFFFF);
    assert_eq!(mem.load(0x00, 0xFFFF), 1);
    assert_eq!(mem.load(0x01, 0x0000), 2);
    assert_eq!(mem.load(0x01, 0x0001), 3);
    assert_eq!(mem.load(0x01, 0x0002), 0);
}

#[test]
fn new_cpu_is_reset() {
    let cpu = CPU::new();
    assert_eq!((cpu.a(), cpu.x(), cpu.y(), cpu.pc(), cpu.dbr(), cpu.pbr(), cpu.d()), (0, 0, 0, 0, 0, 0, 0));
    assert_eq!(cpu.state, RunState::Running);
    assert!(!cpu.regs.p.emulation_mode);
}

#[test]
fn load_and_store_through_modes() {
    let (mut cpu, mut mem) = machine_at(0x8000, &[0x00, 0x40, 0x00, 0x40, 0x00, 0x50, 0x00, 0x50]);
    cpu.regs.dbr = 0x02;
    cpu.store_8(&AddressMode::Absolute(0x8D), &mut mem, 0x5A);
    assert_eq!(mem.load(0x02, 0x4000), 0x5A);
    assert_eq!(cpu.load_8(&AddressMode::Absolute(0xAD), &mem), 0x5A);
    cpu.store_16(&AddressMode::Absolute(0x8D), &mut mem, 0x1234);
    assert_eq!(mem.load(0x02, 0x5000), 0x34);
    assert_eq!(mem.load(0x02, 0x5001), 0x12);
    assert_eq!(cpu.load_16(&AddressMode::Absolute(0xAD), &mem), 0x1234);
    assert_eq!(cpu.pc(), 0x8008);
}

#[test]
fn immediate_reads_operand_then_advances() {
    let (mut cpu, mem) = machine_at(0x8000, &[0x34, 0x12]);
    assert_eq!(cpu.next_b(&mem), 0x34);
    assert_eq!(cpu.pc(), 0x8001);
    cpu.increment_pc();
    assert_eq!(cpu.pc(), 0x8002);
    let (mut cpu, mem) = machine_at(0x8000, &[0x34, 0x12]);
    assert_eq!(cpu.load_16(&AddressMode::Immediate, &mem), 0x1234);
    assert_eq!(cpu.pc(), 0x8002);
}

#[test]
fn halted_processor_still_honours_exit() {
    let (mut cpu, mut mem) = machine_at(0x8000, &[0xCB]);
    cpu.step(&mut mem);
    assert_eq!(cpu.state, RunState::HaltedAwaitingInterrupt);
    cpu.request_exit();
    // WAI left 61 cycles; each halted tick spends 3, so the 21st runs out.
    let mut ticks = 0;
    while cpu.state != RunState::Terminated {
        assert!(cpu.step(&mut mem).is_none());
        ticks += 1;
        assert!(ticks <= 21);
    }
    assert_eq!(ticks, 21);
    assert!(cpu.step(&mut mem).is_none());
    assert_eq!(cpu.state, RunState::Terminated);
    assert_eq!(cpu.pc(), 0x8001);
}

#[test]
fn run_one_instruction_lda_immediate() {
    let (mut cpu, mut mem) = machine_at(0x8000, &[0xA9, 0x05]);
    cpu.regs.p.accumulator_width = true;
    cpu.regs.a = 0x1200;
    let state = cpu.run(&mut mem, 1);
    assert_eq!(state, RunState::Running);
    assert_eq!(cpu.a(), 0x1205);
    assert!(!cpu.regs.p.zero);
    assert!(!cpu.regs.p.negative);
    assert_eq!(cpu.pc(), 0x8002);
}

#[test]
fn run_ends_halted_processor_on_exit_request() {
    let (mut cpu, mut mem) = machine_at(0x8000, &[0xCB]);
    let state = cpu.run(&mut mem, 5);
    assert_eq!(state, RunState::HaltedAwaitingInterrupt);
    cpu.request_exit();
    let state = cpu.run(&mut mem, 100);
    assert_eq!(state, RunState::Terminated);
    assert_eq!(cpu.pc(), 0x8001);
}

#[test]
fn run_increments_through_inc_opcodes() {
    let (mut cpu, mut mem) = machine_at(0x8000, &[0x1A, 0xE8, 0xC8, 0xE6, 0x10, 0xEE, 0x00, 0x30]);
    cpu.regs.p.accumulator_width = true;
    cpu.regs.p.index_width = true;
    mem.store(0, 0x0010, 0x41);
    mem.store(0, 0x3000, 0x7F);
    cpu.run(&mut mem, 5);
    assert_eq!(cpu.a(), 1);
    assert_eq!(cpu.x(), 1);
    assert_eq!(cpu.y(), 1);
    assert_eq!(mem.load(0, 0x0010), 0x42);
    assert_eq!(mem.load(0, 0x3000), 0x80);
}

#[test]
fn load_image_leaves_other_bytes() {
    let mut mem = SimpleMemory::new();
    mem.store(0x01, 0x0003, 0x77);
    mem.store(0x00, 0xFFFE, 0x66);
    mem.load_image(&vec![1, 2, 3], 0x00, 0xFFFF);
    assert_eq!(mem.load(0x01, 0x0003), 0x77);
    assert_eq!(mem.load(0x00, 0xFFFE), 0x66);
}

#[test]
fn compare_flags_are_unsigned() {
    let mut cpu = CPU::new();
    cpu.regs.a = 0x1234;
    cpu.set_flags_for_cmp(0x0001, 0x8000, true);
    assert!(!cpu.regs.p.carry);
    assert!(!cpu.regs.p.zero);
    assert!(cpu.regs.p.negative);
    cpu.set_flags_for_cmp(0x80, 0x01, false);
    assert!(cpu.regs.p.carry);
    assert!(!cpu.regs.p.negative);
    assert_eq!(cpu.a(), 0x1234);
}
