use nesmu::bus::Bus;
use nesmu::cpu::{Cpu, Operand};
use nesmu::opcode::{AddressMode, Instruction, Opcode};
use nesmu::registers::{Registers, StatusFlag};

/// A CPU whose program starts at `at` in work RAM, with P = 0x24.
fn cpu_with(at: u16, program: &[u8]) -> Cpu {
    let mut cpu = Cpu::new(Bus::default(), Registers::default());
    for (i, b) in program.iter().enumerate() {
        cpu.write(at + i as u16, *b);
    }
    cpu.reg.pc = at;
    cpu.reg.sp = 0xFD;
    cpu.reg.p = 0x24;
    cpu
}

fn flag(cpu: &Cpu, f: StatusFlag) -> bool {
    cpu.reg.get_flag(f)
}

#[test]
fn lda_immediate_after_reset() {
    let mut prg = vec![0u8; 0x8000];
    prg[0] = 0xA9;
    prg[1] = 0xFF;
    prg[2] = 0x00;
    prg[0x7FFC] = 0x00;
    prg[0x7FFD] = 0x80;
    let bus = Bus::with_prg(&prg).unwrap();
    let mut cpu = Cpu::new(bus, Registers::default());
    cpu.reset();
    assert_eq!(cpu.reg.pc, 0x8000);
    assert_eq!(cpu.reg.p, 0x24);
    assert_eq!(cpu.reg.sp, 0xFD);
    assert_eq!(cpu.cycle_count, 7);
    cpu.execute_instruction();
    assert_eq!(cpu.reg.a, 0xFF);
    assert!(flag(&cpu, StatusFlag::Negative));
    assert!(!flag(&cpu, StatusFlag::Zero));
    assert_eq!(cpu.reg.pc, 0x8002);
    assert_eq!(cpu.cycle_count, 9);
}

#[test]
fn adc_with_overflow() {
    let mut cpu = cpu_with(0x0200, &[0x69, 0x50]);
    cpu.reg.a = 0x50;
    cpu.execute_instruction();
    assert_eq!(cpu.reg.a, 0xA0);
    assert!(!flag(&cpu, StatusFlag::Carry));
    assert!(!flag(&cpu, StatusFlag::Zero));
    assert!(flag(&cpu, StatusFlag::Negative));
    assert!(flag(&cpu, StatusFlag::Overflow));
}

#[test]
fn sbc_with_borrow() {
    let mut cpu = cpu_with(0x0200, &[0xE9, 0xF0]);
    cpu.reg.a = 0x50;
    cpu.reg.set_flag(StatusFlag::Carry, true);
    cpu.execute_instruction();
    assert_eq!(cpu.reg.a, 0x60);
    assert!(!flag(&cpu, StatusFlag::Carry));
    assert!(!flag(&cpu, StatusFlag::Zero));
    assert!(!flag(&cpu, StatusFlag::Negative));
    assert!(!flag(&cpu, StatusFlag::Overflow));
}

#[test]
fn branch_taken_with_page_cross() {
    let mut cpu = cpu_with(0x00F0, &[0xF0, 0x20]);
    cpu.reg.set_flag(StatusFlag::Zero, true);
    let before = cpu.cycle_count;
    cpu.execute_instruction();
    assert_eq!(cpu.reg.pc, 0x0112);
    assert_eq!(cpu.cycle_count - before, 4);
}

#[test]
fn branch_not_taken_costs_base_cycles() {
    let mut cpu = cpu_with(0x00F0, &[0xF0, 0x20]);
    let before = cpu.cycle_count;
    cpu.execute_instruction();
    assert_eq!(cpu.reg.pc, 0x00F2);
    assert_eq!(cpu.cycle_count - before, 2);
}

#[test]
fn branch_backwards_on_same_page() {
    let mut cpu = cpu_with(0x0250, &[0xD0, 0xFC]);
    let before = cpu.cycle_count;
    cpu.execute_instruction();
    assert_eq!(cpu.reg.pc, 0x024E);
    assert_eq!(cpu.cycle_count - before, 3);
}

#[test]
fn jmp_indirect_page_wrap() {
    let mut cpu = cpu_with(0x0400, &[0x6C, 0xFF, 0x02]);
    cpu.write(0x02FF, 0x00);
    cpu.write(0x0200, 0x40);
    cpu.write(0x0300, 0x80);
    cpu.execute_instruction();
    assert_eq!(cpu.reg.pc, 0x4000);
}

#[test]
fn adc_without_carry_concrete() {
    let mut cpu = cpu_with(0x0200, &[0x69, 0xD0]);
    cpu.reg.a = 0x90;
    cpu.execute_instruction();
    assert_eq!(cpu.reg.a, 0x60);
    assert!(flag(&cpu, StatusFlag::Carry));
    assert!(flag(&cpu, StatusFlag::Overflow));
    assert!(!flag(&cpu, StatusFlag::Negative));
}

#[test]
fn push_pull_round_trip() {
    // PHA, LDA #$00, PLA
    let mut cpu = cpu_with(0x0200, &[0x48, 0xA9, 0x00, 0x68]);
    cpu.reg.a = 0x42;
    let sp = cpu.reg.sp;
    cpu.execute_instruction();
    assert_eq!(cpu.reg.sp, sp.wrapping_sub(1));
    assert_eq!(cpu.read(0x0100 + sp as u16), 0x42);
    cpu.execute_instruction();
    assert_eq!(cpu.reg.a, 0);
    cpu.execute_instruction();
    assert_eq!(cpu.reg.a, 0x42);
    assert_eq!(cpu.reg.sp, sp);
}

#[test]
fn stack_wraps_within_page_one() {
    let mut cpu = cpu_with(0x0200, &[0x48, 0x68]);
    cpu.reg.sp = 0x00;
    cpu.reg.a = 0x99;
    cpu.execute_instruction();
    assert_eq!(cpu.reg.sp, 0xFF);
    assert_eq!(cpu.read(0x0100), 0x99);
    cpu.reg.a = 0;
    cpu.execute_instruction();
    assert_eq!(cpu.reg.sp, 0x00);
    assert_eq!(cpu.reg.a, 0x99);
}

#[test]
fn base_cycles_and_pc_advance() {
    // LDA $0300 ; STA $0301,X ; INC $10 ; NOP
    let mut cpu = cpu_with(0x0200, &[0xAD, 0x00, 0x03, 0x9D, 0x01, 0x03, 0xE6, 0x10, 0xEA]);
    let c0 = cpu.cycle_count;
    cpu.execute_instruction();
    assert_eq!(cpu.reg.pc, 0x0203);
    assert_eq!(cpu.cycle_count - c0, 4);
    cpu.execute_instruction();
    assert_eq!(cpu.reg.pc, 0x0206);
    assert_eq!(cpu.cycle_count - c0, 9);
    cpu.execute_instruction();
    assert_eq!(cpu.reg.pc, 0x0208);
    assert_eq!(cpu.cycle_count - c0, 14);
    cpu.execute_instruction();
    assert_eq!(cpu.reg.pc, 0x0209);
    assert_eq!(cpu.cycle_count - c0, 16);
}

#[test]
fn page_cross_penalty_only_for_reads() {
    // LDA $02FF,X with X = 1 crosses; STA $02FF,X does not pay
    let mut cpu = cpu_with(0x0200, &[0xBD, 0xFF, 0x02, 0x9D, 0xFF, 0x02]);
    cpu.reg.x = 1;
    cpu.write(0x0300, 0x77);
    let c0 = cpu.cycle_count;
    cpu.execute_instruction();
    assert_eq!(cpu.reg.a, 0x77);
    assert_eq!(cpu.cycle_count - c0, 5);
    cpu.execute_instruction();
    assert_eq!(cpu.cycle_count - c0, 10);
}

#[test]
fn jsr_and_rts() {
    let mut cpu = cpu_with(0x0200, &[0x20, 0x00, 0x03]);
    cpu.write(0x0300, 0x60);
    cpu.execute_instruction();
    assert_eq!(cpu.reg.pc, 0x0300);
    assert_eq!(cpu.read(0x01FD), 0x02);
    assert_eq!(cpu.read(0x01FC), 0x02);
    assert_eq!(cpu.cycle_count, 6);
    cpu.execute_instruction();
    assert_eq!(cpu.reg.pc, 0x0203);
    assert_eq!(cpu.reg.sp, 0xFD);
}

#[test]
fn php_and_plp_handle_break_and_unused() {
    let mut cpu = cpu_with(0x0200, &[0x08, 0x28]);
    cpu.reg.p = 0x01;
    cpu.execute_instruction();
    assert_eq!(cpu.read(0x01FD), 0x31);
    assert_eq!(cpu.reg.p, 0x01);
    cpu.write(0x01FD, 0xFF);
    cpu.execute_instruction();
    assert_eq!(cpu.reg.p, 0xEF);
}

#[test]
fn shifts_and_rotates() {
    // ASL A ; ROR A ; LSR A ; ROL A
    let mut cpu = cpu_with(0x0200, &[0x0A, 0x6A, 0x4A, 0x2A]);
    cpu.reg.a = 0x81;
    cpu.execute_instruction();
    assert_eq!(cpu.reg.a, 0x02);
    assert!(flag(&cpu, StatusFlag::Carry));
    cpu.execute_instruction();
    assert_eq!(cpu.reg.a, 0x81);
    assert!(!flag(&cpu, StatusFlag::Carry));
    assert!(flag(&cpu, StatusFlag::Negative));
    cpu.execute_instruction();
    assert_eq!(cpu.reg.a, 0x40);
    assert!(flag(&cpu, StatusFlag::Carry));
    cpu.execute_instruction();
    assert_eq!(cpu.reg.a, 0x81);
    assert!(!flag(&cpu, StatusFlag::Carry));
}

#[test]
fn ror_on_memory_uses_the_operand() {
    let mut cpu = cpu_with(0x0200, &[0x66, 0x10]);
    cpu.write(0x0010, 0x03);
    cpu.reg.a = 0xF0;
    cpu.reg.set_flag(StatusFlag::Carry, true);
    cpu.execute_instruction();
    assert_eq!(cpu.read(0x0010), 0x81);
    assert_eq!(cpu.reg.a, 0xF0);
    assert!(flag(&cpu, StatusFlag::Carry));
    assert!(flag(&cpu, StatusFlag::Negative));
}

#[test]
fn compare_sets_flags() {
    let mut cpu = cpu_with(0x0200, &[0xC9, 0x30, 0xC9, 0x50, 0xC9, 0x60]);
    cpu.reg.a = 0x50;
    cpu.execute_instruction();
    assert!(flag(&cpu, StatusFlag::Carry) && !flag(&cpu, StatusFlag::Zero));
    cpu.execute_instruction();
    assert!(flag(&cpu, StatusFlag::Carry) && flag(&cpu, StatusFlag::Zero));
    cpu.execute_instruction();
    assert!(!flag(&cpu, StatusFlag::Carry) && flag(&cpu, StatusFlag::Negative));
}

#[test]
fn bit_and_lax() {
    let mut cpu = cpu_with(0x0200, &[0x24, 0x10, 0xA7, 0x10]);
    cpu.write(0x0010, 0xC0);
    cpu.reg.a = 0x01;
    cpu.execute_instruction();
    assert!(flag(&cpu, StatusFlag::Zero));
    assert!(flag(&cpu, StatusFlag::Overflow));
    assert!(flag(&cpu, StatusFlag::Negative));
    cpu.execute_instruction();
    assert_eq!(cpu.reg.a, 0xC0);
    assert_eq!(cpu.reg.x, 0xC0);
}

#[test]
fn transfers_and_counters() {
    // LDX #$FF ; INX ; DEY ; TXA ; TAY ; TXS ; TSX
    let mut cpu = cpu_with(0x0200, &[0xA2, 0xFF, 0xE8, 0x88, 0x8A, 0xA8, 0x9A, 0xBA]);
    cpu.execute_instruction();
    cpu.execute_instruction();
    assert_eq!(cpu.reg.x, 0);
    assert!(flag(&cpu, StatusFlag::Zero));
    cpu.execute_instruction();
    assert_eq!(cpu.reg.y, 0xFF);
    assert!(flag(&cpu, StatusFlag::Negative));
    cpu.execute_instruction();
    cpu.execute_instruction();
    assert_eq!(cpu.reg.y, 0);
    cpu.execute_instruction();
    assert_eq!(cpu.reg.sp, 0);
    cpu.execute_instruction();
    assert_eq!(cpu.reg.x, 0);
}

#[test]
fn alternate_sbc_and_unofficial_nops() {
    // SBC #$01 (0xEB) ; NOP $10 ; NOP $1234,X ; NOP #$00 (0x89)
    let mut cpu = cpu_with(0x0200, &[0xEB, 0x01, 0x04, 0x10, 0x1C, 0xFF, 0x12, 0x89, 0x00]);
    cpu.reg.a = 5;
    cpu.reg.x = 1;
    cpu.reg.set_flag(StatusFlag::Carry, true);
    let c0 = cpu.cycle_count;
    cpu.execute_instruction();
    assert_eq!(cpu.reg.a, 4);
    cpu.execute_instruction();
    assert_eq!(cpu.reg.pc, 0x0204);
    assert_eq!(cpu.cycle_count - c0, 5);
    cpu.execute_instruction();
    assert_eq!(cpu.reg.pc, 0x0207);
    assert_eq!(cpu.cycle_count - c0, 10);
    cpu.execute_instruction();
    assert_eq!(cpu.reg.pc, 0x0209);
    assert_eq!(cpu.cycle_count - c0, 12);
}

#[test]
fn invalid_opcode_is_a_recorded_two_cycle_nop() {
    let mut cpu = cpu_with(0x0200, &[0x02]);
    cpu.execute_instruction();
    assert_eq!(cpu.invalid_opcode, Some(0x02));
    assert_eq!(cpu.reg.pc, 0x0201);
    assert_eq!(cpu.cycle_count, 2);
}

#[test]
fn brk_and_rti() {
    let mut prg = vec![0u8; 0x4000];
    prg[0x3FFE] = 0x00;
    prg[0x3FFF] = 0x03;
    let mut cpu = Cpu::new(Bus::with_prg(&prg).unwrap(), Registers::default());
    cpu.write(0x0200, 0x00);
    cpu.write(0x0300, 0x40);
    cpu.reg.pc = 0x0200;
    cpu.reg.sp = 0xFD;
    cpu.reg.p = 0x20;
    cpu.execute_instruction();
    assert_eq!(cpu.reg.pc, 0x0300);
    assert_eq!(cpu.read(0x01FB), 0x30);
    assert!(flag(&cpu, StatusFlag::NoInterrupts));
    assert_eq!(cpu.cycle_count, 7);
    cpu.execute_instruction();
    assert_eq!(cpu.reg.pc, 0x0201);
    assert_eq!(cpu.reg.p, 0x20);
    assert_eq!(cpu.reg.sp, 0xFD);
}

#[test]
fn nmi_is_serviced_before_the_next_instruction() {
    let mut prg = vec![0u8; 0x4000];
    prg[0x3FFA] = 0x34;
    prg[0x3FFB] = 0x12;
    let mut cpu = Cpu::new(Bus::with_prg(&prg).unwrap(), Registers::default());
    cpu.reg.pc = 0x0200;
    cpu.reg.sp = 0xFD;
    cpu.reg.p = 0x24;
    cpu.nmi();
    cpu.execute_instruction();
    assert_eq!(cpu.reg.pc, 0x1234);
    assert_eq!(cpu.read(0x01FD), 0x02);
    assert_eq!(cpu.read(0x01FC), 0x00);
    assert_eq!(cpu.read(0x01FB), 0x24);
    assert_eq!(cpu.cycle_count, 7);
    assert!(!cpu.nmi_pending);
}

#[test]
fn irq_waits_while_masked() {
    let mut prg = vec![0u8; 0x4000];
    prg[0x3FFE] = 0x00;
    prg[0x3FFF] = 0x05;
    let mut cpu = Cpu::new(Bus::with_prg(&prg).unwrap(), Registers::default());
    // SEI is not needed: P starts with I set. CLI ; NOP
    cpu.write(0x0200, 0x58);
    cpu.write(0x0201, 0xEA);
    cpu.reg.pc = 0x0200;
    cpu.reg.sp = 0xFD;
    cpu.reg.p = 0x24;
    cpu.irq();
    cpu.execute_instruction();
    assert_eq!(cpu.reg.pc, 0x0201);
    assert!(cpu.irq_pending);
    cpu.execute_instruction();
    assert_eq!(cpu.reg.pc, 0x0500);
    assert_eq!(cpu.read(0x01FB), 0x20);
    assert!(flag(&cpu, StatusFlag::NoInterrupts));
}

#[test]
fn clock_counts_down_between_instructions() {
    let mut cpu = cpu_with(0x0200, &[0xEA, 0xEA]);
    cpu.clock();
    assert_eq!(cpu.reg.pc, 0x0201);
    assert_eq!(cpu.cycles, 2);
    cpu.clock();
    cpu.clock();
    assert_eq!(cpu.cycles, 0);
    assert_eq!(cpu.reg.pc, 0x0201);
    cpu.clock();
    assert_eq!(cpu.reg.pc, 0x0202);
}

#[test]
fn opcode_table_entries() {
    assert_eq!(Opcode::lookup(0xA9), Opcode::new(Instruction::LDA, AddressMode::Immediate, 2));
    assert_eq!(Opcode::lookup(0x7D), Opcode::new(Instruction::ADC, AddressMode::AbsoluteXIndexed, 4));
    assert_eq!(Opcode::lookup(0x9D), Opcode::new(Instruction::STA, AddressMode::AbsoluteXIndexed, 5));
    assert_eq!(Opcode::lookup(0x6C), Opcode::new(Instruction::JMP, AddressMode::Indirect, 5));
    assert_eq!(Opcode::lookup(0x00), Opcode::new(Instruction::BRK, AddressMode::Implied, 7));
    assert_eq!(Opcode::lookup(0xB3), Opcode::new(Instruction::LAX, AddressMode::IndirectYIndexed, 5));
    assert_eq!(Opcode::lookup(0xEB), Opcode::new(Instruction::SBC, AddressMode::Immediate, 2));
    assert_eq!(Opcode::lookup(0x02), Opcode::invalid());
    assert_eq!(Opcode::invalid().cycles, 2);
}

#[test]
fn operand_views() {
    let mut cpu = cpu_with(0x0200, &[]);
    cpu.reg.a = 1;
    cpu.reg.x = 2;
    cpu.reg.y = 3;
    cpu.write(0x0010, 4);
    assert_eq!(Operand::Accumulator.read(&cpu), Some(1));
    assert_eq!(Operand::XRegister.read(&cpu), Some(2));
    assert_eq!(Operand::YRegister.read(&cpu), Some(3));
    assert_eq!(Operand::Address(0x0010).read(&cpu), Some(4));
    assert_eq!(Operand::Implied.read(&cpu), None);
    assert_eq!(Operand::Relative(-2).read(&cpu), None);
    Operand::YRegister.write(&mut cpu, 9);
    assert_eq!(cpu.reg.y, 9);
    Operand::Address(0x0011).write(&mut cpu, 8);
    assert_eq!(cpu.read(0x0011), 8);
    assert_eq!(Operand::Relative(-2).absolute_addr(&cpu), Some(0x01FE));
    assert_eq!(Operand::Address(0x1234).absolute_addr(&cpu), Some(0x1234));
    assert_eq!(Operand::Accumulator.absolute_addr(&cpu), None);
    cpu.reg.pc = 0xFFFF;
    assert_eq!(Operand::Relative(3).absolute_addr(&cpu), Some(0x0002));
}

#[test]
fn registers_flags() {
    let mut r = Registers::default();
    assert_eq!(r.sp, 0);
    r.p = 0;
    r.set_flag(StatusFlag::Overflow, true);
    assert_eq!(r.p, 0x40);
    assert!(r.get_flag(StatusFlag::Overflow));
    assert!(!r.get_flag(StatusFlag::Carry));
    r.set_flag(StatusFlag::Overflow, false);
    assert_eq!(r.p, 0);
}

#[test]
fn accessors_report_state() {
    let mut cpu = cpu_with(0x0200, &[0xA9, 0x07]);
    cpu.execute_instruction();
    assert_eq!(cpu.registers().a, 7);
    assert_eq!(cpu.registers().pc, 0x0202);
    assert_eq!(cpu.cycle_count(), 2);
}
