use cpu6502::bus::Bus;
use cpu6502::cpu::CPU;
use cpu6502::flags::StatusRegFlags;
use cpu6502::opcode_table::{lookup, AddrMode, Instr};

/// A processor whose reset vector points at `origin`, with `program` stored
/// there, reset and run up to its first instruction boundary.
fn machine(origin: u16, program: &[u8]) -> CPU {
    let mut bus = Bus::new();
    bus.write(0xFFFC, (origin & 0xFF) as u8);
    bus.write(0xFFFD, (origin >> 8) as u8);
    for (i, b) in program.iter().enumerate() {
        bus.write(origin.wrapping_add(i as u16), *b);
    }
    let mut cpu = CPU::new(bus);
    cpu.reset();
    while !cpu.complete() {
        cpu.step();
    }
    cpu
}

/// Runs one whole instruction from a boundary and returns the ticks it took.
fn run_one(cpu: &mut CPU) -> u32 {
    assert!(cpu.complete());
    cpu.step();
    let mut ticks = 1;
    while !cpu.complete() {
        cpu.step();
        ticks += 1;
    }
    ticks
}

fn operand_bytes(m: AddrMode) -> u16 {
    match m {
        AddrMode::IMP => 0,
        AddrMode::ABS | AddrMode::ABX | AddrMode::ABY | AddrMode::IND => 2,
        _ => 1,
    }
}

#[test]
fn reset_loads_vector_and_waits() {
    let mut bus = Bus::new();
    bus.write(0xFFFC, 0x00);
    bus.write(0xFFFD, 0x80);
    bus.write(0x8000, 0xEA);
    let mut cpu = CPU::new(bus);
    cpu.reset();
    assert_eq!(cpu.pc(), 0x8000);
    assert_eq!(cpu.sp(), 0xFD);
    assert_eq!((cpu.a(), cpu.x(), cpu.y()), (0, 0, 0));
    assert_eq!(cpu.status(), 0x20);
    for _ in 0..7 {
        cpu.step();
        assert!(!cpu.complete());
    }
    cpu.step();
    assert!(cpu.complete());
    assert_eq!(cpu.pc(), 0x8000);
    cpu.step();
    assert_eq!(cpu.pc(), 0x8001);
    assert_eq!(cpu.total_cycles(), 9);
}

#[test]
fn indirect_pointer_wraps_within_page() {
    let mut cpu = machine(0x0600, &[0x6C, 0xFF, 0x01]);
    cpu.bus.write(0x01FF, 0x00);
    cpu.bus.write(0x0200, 0x02);
    cpu.bus.write(0x0100, 0x80);
    assert_eq!(run_one(&mut cpu), 5);
    assert_eq!(cpu.pc(), 0x8000);
    assert_eq!(cpu.addr_abs, 0x8000);
}

#[test]
fn indirect_resolver_alone() {
    let mut cpu = machine(0x0600, &[0xFF, 0x01]);
    cpu.bus.write(0x01FF, 0x00);
    cpu.bus.write(0x0200, 0x02);
    cpu.bus.write(0x0100, 0x80);
    assert_eq!(cpu.IND(), 0);
    assert_eq!(cpu.addr_abs, 0x8000);
    assert_eq!(cpu.pc(), 0x0602);
}

#[test]
fn indirect_without_wrap() {
    let mut cpu = machine(0x0600, &[0x6C, 0x10, 0x03]);
    cpu.bus.write(0x0310, 0x34);
    cpu.bus.write(0x0311, 0x12);
    run_one(&mut cpu);
    assert_eq!(cpu.pc(), 0x1234);
}

#[test]
fn beq_not_taken_costs_two() {
    // LDA #$01 ; BEQ +$10
    let mut cpu = machine(0x0600, &[0xA9, 0x01, 0xF0, 0x10]);
    run_one(&mut cpu);
    assert_eq!(run_one(&mut cpu), 2);
    assert_eq!(cpu.pc(), 0x0604);
}

#[test]
fn beq_taken_same_page_costs_three() {
    // LDA #$00 ; BEQ +$10
    let mut cpu = machine(0x0600, &[0xA9, 0x00, 0xF0, 0x10]);
    run_one(&mut cpu);
    assert_eq!(run_one(&mut cpu), 3);
    assert_eq!(cpu.pc(), 0x0614);
}

#[test]
fn beq_taken_across_page_costs_four() {
    // LDA #$00 ; BEQ +$7F, from the end of a page
    let mut cpu = machine(0x06F0, &[0xA9, 0x00, 0xF0, 0x7F]);
    run_one(&mut cpu);
    assert_eq!(run_one(&mut cpu), 4);
    assert_eq!(cpu.pc(), 0x0773);
}

#[test]
fn branch_backwards() {
    // LDA #$00 ; BEQ -4 (back to the LDA)
    let mut cpu = machine(0x0600, &[0xA9, 0x00, 0xF0, 0xFC]);
    run_one(&mut cpu);
    assert_eq!(run_one(&mut cpu), 3);
    assert_eq!(cpu.pc(), 0x0600);
    assert_eq!(cpu.addr_rel, 0xFFFC);
}

#[test]
fn pha_256_times_wraps_stack() {
    let mut cpu = machine(0x0600, &[]);
    cpu.registers.a = 0x5A;
    assert_eq!(cpu.sp(), 0xFD);
    for _ in 0..256 {
        cpu.PHA();
    }
    assert_eq!(cpu.sp(), 0xFD);
    for addr in 0x0100u16..0x0200 {
        assert_eq!(cpu.read(addr), 0x5A);
    }
}

#[test]
fn adc_overflow_into_negative() {
    // CLC ; LDA #$7F ; ADC #$01
    let mut cpu = machine(0x0600, &[0x18, 0xA9, 0x7F, 0x69, 0x01]);
    run_one(&mut cpu);
    run_one(&mut cpu);
    run_one(&mut cpu);
    assert_eq!(cpu.a(), 0x80);
    assert!(cpu.registers.get_flag(StatusRegFlags::V));
    assert!(cpu.registers.get_flag(StatusRegFlags::N));
    assert!(!cpu.registers.get_flag(StatusRegFlags::C));
    assert!(!cpu.registers.get_flag(StatusRegFlags::Z));
}

#[test]
fn adc_carry_and_zero() {
    // CLC ; LDA #$FF ; ADC #$01
    let mut cpu = machine(0x0600, &[0x18, 0xA9, 0xFF, 0x69, 0x01]);
    run_one(&mut cpu);
    run_one(&mut cpu);
    run_one(&mut cpu);
    assert_eq!(cpu.a(), 0x00);
    assert!(cpu.registers.get_flag(StatusRegFlags::C));
    assert!(cpu.registers.get_flag(StatusRegFlags::Z));
    assert!(!cpu.registers.get_flag(StatusRegFlags::V));
    assert!(!cpu.registers.get_flag(StatusRegFlags::N));
}

#[test]
fn sbc_with_borrow() {
    // SEC ; LDA #$50 ; SBC #$F0  (80 - (-16) overflows)
    let mut cpu = machine(0x0600, &[0x38, 0xA9, 0x50, 0xE9, 0xF0]);
    run_one(&mut cpu);
    run_one(&mut cpu);
    run_one(&mut cpu);
    assert_eq!(cpu.a(), 0x60);
    assert!(!cpu.registers.get_flag(StatusRegFlags::C));
    assert!(!cpu.registers.get_flag(StatusRegFlags::V));
    // SEC ; LDA #$50 ; SBC #$B0
    let mut cpu = machine(0x0600, &[0x38, 0xA9, 0x50, 0xE9, 0xB0]);
    run_one(&mut cpu);
    run_one(&mut cpu);
    run_one(&mut cpu);
    assert_eq!(cpu.a(), 0xA0);
    assert!(cpu.registers.get_flag(StatusRegFlags::V));
    assert!(cpu.registers.get_flag(StatusRegFlags::N));
}

#[test]
fn adc_then_sbc_gives_back_a() {
    let mut cpu = machine(0x0600, &[]);
    cpu.mode = AddrMode::IMP;
    for a in 0..=255u8 {
        for b in 0..=255u8 {
            for c in [false, true] {
                cpu.registers.a = a;
                cpu.registers.fetched = b;
                cpu.registers.set_flag(StatusRegFlags::C, c);
                assert_eq!(cpu.ADC(), 1);
                cpu.registers.fetched = b;
                cpu.registers.set_flag(StatusRegFlags::C, !c);
                assert_eq!(cpu.SBC(), 1);
                assert_eq!(cpu.a(), a);
            }
        }
    }
}

#[test]
fn every_opcode_settles_within_its_cycles() {
    for op in 0..=255u8 {
        let entry = lookup(op);
        // Operands point into page zero; Y and X are zero so nothing crosses a page.
        let mut cpu = machine(0x0600, &[op, 0x10, 0x00]);
        let ticks = run_one(&mut cpu);
        let base = entry.cycles as u32;
        let branch = matches!(
            entry.instr,
            Instr::BCC | Instr::BCS | Instr::BEQ | Instr::BNE | Instr::BMI | Instr::BPL | Instr::BVC | Instr::BVS
        );
        assert!(base <= ticks && ticks <= base + if branch { 2 } else { 1 }, "opcode {:02X}", op);
        let control = branch
            || matches!(entry.instr, Instr::JMP | Instr::JSR | Instr::RTS | Instr::RTI | Instr::BRK);
        if !control {
            assert_eq!(cpu.pc(), 0x0601 + operand_bytes(entry.mode), "opcode {:02X}", op);
            assert_eq!(ticks, base, "opcode {:02X}", op);
        }
    }
}

#[test]
fn undocumented_opcode_is_two_cycle_nop() {
    let entry = lookup(0x02);
    assert_eq!(entry.instr, Instr::XXX);
    assert_eq!(entry.cycles, 2);
    let mut cpu = machine(0x0600, &[0x02]);
    let before = cpu.registers;
    assert_eq!(run_one(&mut cpu), 2);
    assert_eq!(cpu.pc(), 0x0601);
    assert_eq!(cpu.registers.a, before.a);
    assert_eq!(cpu.registers.status, before.status);
    assert_eq!(cpu.registers.sp, before.sp);
}

#[test]
fn absolute_x_page_cross_costs_a_cycle_for_loads_only() {
    // LDX #$01 ; LDA $02FF,X
    let mut cpu = machine(0x0600, &[0xA2, 0x01, 0xBD, 0xFF, 0x02]);
    cpu.bus.write(0x0300, 0x42);
    run_one(&mut cpu);
    assert_eq!(run_one(&mut cpu), 5);
    assert_eq!(cpu.a(), 0x42);
    // LDX #$01 ; STA $02FF,X
    let mut cpu = machine(0x0600, &[0xA2, 0x01, 0x9D, 0xFF, 0x02]);
    run_one(&mut cpu);
    assert_eq!(run_one(&mut cpu), 5);
    // LDX #$01 ; LDA $0200,X
    let mut cpu = machine(0x0600, &[0xA2, 0x01, 0xBD, 0x00, 0x02]);
    run_one(&mut cpu);
    assert_eq!(run_one(&mut cpu), 4);
}

#[test]
fn absolute_x_resolver_reports_page_cross() {
    let mut cpu = machine(0x0600, &[0xFF, 0x02]);
    cpu.registers.x = 1;
    assert_eq!(cpu.ABX(), 1);
    assert_eq!(cpu.addr_abs, 0x0300);
    let mut cpu = machine(0x0600, &[0x00, 0x02]);
    cpu.registers.y = 5;
    assert_eq!(cpu.ABY(), 0);
    assert_eq!(cpu.addr_abs, 0x0205);
    let mut cpu = machine(0x0600, &[0x34, 0x12]);
    assert_eq!(cpu.ABS(), 0);
    assert_eq!(cpu.addr_abs, 0x1234);
    assert_eq!(cpu.pc(), 0x0602);
}

#[test]
fn zero_page_indexed_wraps_in_page_zero() {
    let mut cpu = machine(0x0600, &[0xF0]);
    cpu.registers.x = 0x20;
    assert_eq!(cpu.ZPX(), 0);
    assert_eq!(cpu.addr_abs, 0x0010);
    let mut cpu = machine(0x0600, &[0xFF]);
    cpu.registers.y = 0x02;
    cpu.ZPY();
    assert_eq!(cpu.addr_abs, 0x0001);
    let mut cpu = machine(0x0600, &[0x44]);
    cpu.ZP0();
    assert_eq!(cpu.addr_abs, 0x0044);
    assert_eq!(cpu.pc(), 0x0601);
}

#[test]
fn indexed_indirect_x() {
    let mut cpu = machine(0x0600, &[0xFE]);
    cpu.registers.x = 0x01;
    cpu.bus.write(0x00FF, 0x34);
    cpu.bus.write(0x0000, 0x12);
    assert_eq!(cpu.INX(), 0);
    assert_eq!(cpu.addr_abs, 0x1234);
}

#[test]
fn indirect_indexed_y() {
    let mut cpu = machine(0x0600, &[0x40]);
    cpu.registers.y = 0x10;
    cpu.bus.write(0x0040, 0xF8);
    cpu.bus.write(0x0041, 0x12);
    assert_eq!(cpu.INY(), 1);
    assert_eq!(cpu.addr_abs, 0x1308);
    let mut cpu = machine(0x0600, &[0x40]);
    cpu.registers.y = 0x01;
    cpu.bus.write(0x0040, 0x00);
    cpu.bus.write(0x0041, 0x12);
    assert_eq!(cpu.INY(), 0);
    assert_eq!(cpu.addr_abs, 0x1201);
}

#[test]
fn immediate_implied_relative() {
    let mut cpu = machine(0x0600, &[0x80]);
    assert_eq!(cpu.IMM(), 0);
    assert_eq!(cpu.addr_abs, 0x0600);
    assert_eq!(cpu.pc(), 0x0601);
    let mut cpu = machine(0x0600, &[0x80]);
    assert_eq!(cpu.REL(), 0);
    assert_eq!(cpu.addr_rel, 0xFF80);
    let mut cpu = machine(0x0600, &[0x7F]);
    cpu.REL();
    assert_eq!(cpu.addr_rel, 0x007F);
    cpu.registers.a = 0x99;
    assert_eq!(cpu.IMP(), 0);
    assert_eq!(cpu.registers.fetched, 0x99);
}
