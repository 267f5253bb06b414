use cpu6502::bus::Bus;
use cpu6502::cpu::CPU;
use cpu6502::flags::StatusRegFlags;

fn machine(origin: u16, program: &[u8]) -> CPU {
    let mut bus = Bus::new();
    bus.write(0xFFFC, (origin & 0xFF) as u8);
    bus.write(0xFFFD, (origin >> 8) as u8);
    for (i, b) in program.iter().enumerate() {
        bus.write(origin.wrapping_add(i as u16), *b);
    }
    let mut cpu = CPU::new(bus);
    cpu.reset();
    while !cpu.complete() {
        cpu.step();
    }
    cpu
}

fn run(cpu: &mut CPU, instructions: usize) {
    for _ in 0..instructions {
        cpu.step();
        while !cpu.complete() {
            cpu.step();
        }
    }
}

fn flag(cpu: &CPU, f: StatusRegFlags) -> bool {
    cpu.registers.get_flag(f)
}

#[test]
fn jsr_and_rts() {
    // JSR $0610 ; ... ; $0610: LDX #$07 ; RTS
    let mut program = vec![0x20, 0x10, 0x06];
    program.resize(0x10, 0xEA);
    program.extend_from_slice(&[0xA2, 0x07, 0x60]);
    let mut cpu = machine(0x0600, &program);
    run(&mut cpu, 1);
    assert_eq!(cpu.pc(), 0x0610);
    assert_eq!(cpu.sp(), 0xFB);
    assert_eq!(cpu.read(0x01FD), 0x06);
    assert_eq!(cpu.read(0x01FC), 0x02);
    run(&mut cpu, 2);
    assert_eq!(cpu.x(), 0x07);
    assert_eq!(cpu.pc(), 0x0603);
    assert_eq!(cpu.sp(), 0xFD);
}

#[test]
fn brk_and_rti() {
    // BRK ; padding ; $0602: NOP. Handler at $0700: RTI.
    let mut cpu = machine(0x0600, &[0x00, 0xEA, 0xEA]);
    cpu.bus.write(0xFFFE, 0x00);
    cpu.bus.write(0xFFFF, 0x07);
    cpu.bus.write(0x0700, 0x40);
    cpu.registers.set_flag(StatusRegFlags::C, true);
    run(&mut cpu, 1);
    assert_eq!(cpu.pc(), 0x0700);
    assert_eq!(cpu.read(0x01FD), 0x06);
    assert_eq!(cpu.read(0x01FC), 0x02);
    assert_eq!(cpu.read(0x01FB), 0x31);
    assert!(flag(&cpu, StatusRegFlags::I));
    assert!(!flag(&cpu, StatusRegFlags::B));
    run(&mut cpu, 1);
    assert_eq!(cpu.pc(), 0x0602);
    assert_eq!(cpu.status(), 0x21);
    assert_eq!(cpu.sp(), 0xFD);
}

#[test]
fn irq_taken_when_enabled() {
    let mut cpu = machine(0x0600, &[0xEA]);
    cpu.bus.write(0xFFFE, 0x00);
    cpu.bus.write(0xFFFF, 0x90);
    cpu.irq();
    assert_eq!(cpu.pc(), 0x9000);
    assert_eq!(cpu.cycles, 7);
    assert_eq!(cpu.read(0x01FB), 0x20);
    assert!(flag(&cpu, StatusRegFlags::I));
}

#[test]
fn irq_ignored_when_disabled() {
    let mut cpu = machine(0x0600, &[0xEA]);
    cpu.registers.set_flag(StatusRegFlags::I, true);
    cpu.irq();
    assert_eq!(cpu.pc(), 0x0600);
    assert_eq!(cpu.sp(), 0xFD);
    assert!(!cpu.irq_pending);
}

#[test]
fn irq_waits_for_boundary() {
    // LDA #$01 takes two cycles
    let mut cpu = machine(0x0600, &[0xA9, 0x01]);
    cpu.bus.write(0xFFFE, 0x00);
    cpu.bus.write(0xFFFF, 0x90);
    cpu.step();
    cpu.irq();
    assert!(cpu.irq_pending);
    assert_eq!(cpu.pc(), 0x0602);
    cpu.step();
    assert!(cpu.complete());
    cpu.step();
    assert_eq!(cpu.pc(), 0x9000);
    assert!(!cpu.irq_pending);
    assert_eq!(cpu.a(), 0x01);
    let mut ticks = 1;
    while !cpu.complete() {
        cpu.step();
        ticks += 1;
    }
    assert_eq!(ticks, 7);
}

#[test]
fn nmi_is_never_masked() {
    let mut cpu = machine(0x0600, &[0xEA]);
    cpu.bus.write(0xFFFA, 0x00);
    cpu.bus.write(0xFFFB, 0xA0);
    cpu.registers.set_flag(StatusRegFlags::I, true);
    cpu.nmi();
    assert_eq!(cpu.pc(), 0xA000);
    assert_eq!(cpu.cycles, 8);
    assert_eq!(cpu.read(0x01FB), 0x24);
}

#[test]
fn nmi_waits_for_boundary() {
    let mut cpu = machine(0x0600, &[0xA9, 0x01]);
    cpu.bus.write(0xFFFA, 0x00);
    cpu.bus.write(0xFFFB, 0xA0);
    cpu.step();
    cpu.nmi();
    assert!(cpu.nmi_pending);
    cpu.step();
    cpu.step();
    assert_eq!(cpu.pc(), 0xA000);
    assert_eq!(cpu.cycles, 7);
}

#[test]
fn php_and_plp() {
    // SEC ; PHP ; CLC ; PLP
    let mut cpu = machine(0x0600, &[0x38, 0x08, 0x18, 0x28]);
    run(&mut cpu, 2);
    assert_eq!(cpu.read(0x01FD), 0x31);
    assert!(!flag(&cpu, StatusRegFlags::B));
    run(&mut cpu, 1);
    assert!(!flag(&cpu, StatusRegFlags::C));
    run(&mut cpu, 1);
    assert!(flag(&cpu, StatusRegFlags::C));
    assert!(!flag(&cpu, StatusRegFlags::B));
    assert!(flag(&cpu, StatusRegFlags::U));
}

#[test]
fn pha_and_pla() {
    // LDA #$80 ; PHA ; LDA #$00 ; PLA
    let mut cpu = machine(0x0600, &[0xA9, 0x80, 0x48, 0xA9, 0x00, 0x68]);
    run(&mut cpu, 3);
    assert!(flag(&cpu, StatusRegFlags::Z));
    run(&mut cpu, 1);
    assert_eq!(cpu.a(), 0x80);
    assert!(flag(&cpu, StatusRegFlags::N));
    assert!(!flag(&cpu, StatusRegFlags::Z));
    assert_eq!(cpu.sp(), 0xFD);
}

#[test]
fn compare_sets_flags_without_changing_register() {
    // LDA #$40 ; CMP #$30
    let mut cpu = machine(0x0600, &[0xA9, 0x40, 0xC9, 0x30]);
    run(&mut cpu, 2);
    assert_eq!(cpu.a(), 0x40);
    assert!(flag(&cpu, StatusRegFlags::C));
    assert!(!flag(&cpu, StatusRegFlags::Z));
    assert!(!flag(&cpu, StatusRegFlags::N));
    assert_eq!(cpu.addr_temp, 0x0010);
    // LDX #$10 ; CPX #$20
    let mut cpu = machine(0x0600, &[0xA2, 0x10, 0xE0, 0x20]);
    run(&mut cpu, 2);
    assert_eq!(cpu.x(), 0x10);
    assert!(!flag(&cpu, StatusRegFlags::C));
    assert!(flag(&cpu, StatusRegFlags::N));
    // LDY #$33 ; CPY #$33
    let mut cpu = machine(0x0600, &[0xA0, 0x33, 0xC0, 0x33]);
    run(&mut cpu, 2);
    assert!(flag(&cpu, StatusRegFlags::C));
    assert!(flag(&cpu, StatusRegFlags::Z));
    assert_eq!(cpu.y(), 0x33);
}

#[test]
fn shifts_on_accumulator() {
    // LDA #$81 ; ASL A
    let mut cpu = machine(0x0600, &[0xA9, 0x81, 0x0A]);
    run(&mut cpu, 2);
    assert_eq!(cpu.a(), 0x02);
    assert!(flag(&cpu, StatusRegFlags::C));
    // LDA #$01 ; LSR A
    let mut cpu = machine(0x0600, &[0xA9, 0x01, 0x4A]);
    run(&mut cpu, 2);
    assert_eq!(cpu.a(), 0x00);
    assert!(flag(&cpu, StatusRegFlags::C));
    assert!(flag(&cpu, StatusRegFlags::Z));
    // SEC ; LDA #$80 ; ROL A
    let mut cpu = machine(0x0600, &[0x38, 0xA9, 0x80, 0x2A]);
    run(&mut cpu, 3);
    assert_eq!(cpu.a(), 0x01);
    assert!(flag(&cpu, StatusRegFlags::C));
    // SEC ; LDA #$02 ; ROR A
    let mut cpu = machine(0x0600, &[0x38, 0xA9, 0x02, 0x6A]);
    run(&mut cpu, 3);
    assert_eq!(cpu.a(), 0x81);
    assert!(!flag(&cpu, StatusRegFlags::C));
    assert!(flag(&cpu, StatusRegFlags::N));
}

#[test]
fn shift_in_memory() {
    // ASL $10 ; ROR $11
    let mut cpu = machine(0x0600, &[0x06, 0x10, 0x66, 0x11]);
    cpu.bus.write(0x0010, 0x41);
    cpu.bus.write(0x0011, 0x01);
    run(&mut cpu, 1);
    assert_eq!(cpu.read(0x0010), 0x82);
    assert_eq!(cpu.a(), 0);
    assert!(!flag(&cpu, StatusRegFlags::C));
    assert!(flag(&cpu, StatusRegFlags::N));
    run(&mut cpu, 1);
    assert_eq!(cpu.read(0x0011), 0x00);
    assert!(flag(&cpu, StatusRegFlags::C));
    assert!(flag(&cpu, StatusRegFlags::Z));
}

#[test]
fn increments_and_decrements() {
    // INC $20 ; DEC $21 ; LDX #$FF ; INX ; LDY #$00 ; DEY
    let mut cpu = machine(0x0600, &[0xE6, 0x20, 0xC6, 0x21, 0xA2, 0xFF, 0xE8, 0xA0, 0x00, 0x88]);
    cpu.bus.write(0x0020, 0xFF);
    cpu.bus.write(0x0021, 0x00);
    run(&mut cpu, 1);
    assert_eq!(cpu.read(0x0020), 0x00);
    assert!(flag(&cpu, StatusRegFlags::Z));
    run(&mut cpu, 1);
    assert_eq!(cpu.read(0x0021), 0xFF);
    assert!(flag(&cpu, StatusRegFlags::N));
    run(&mut cpu, 2);
    assert_eq!(cpu.x(), 0x00);
    assert!(flag(&cpu, StatusRegFlags::Z));
    run(&mut cpu, 2);
    assert_eq!(cpu.y(), 0xFF);
    assert!(flag(&cpu, StatusRegFlags::N));
}

#[test]
fn dex_dey_direct() {
    let mut cpu = machine(0x0600, &[]);
    cpu.registers.x = 1;
    cpu.registers.y = 0;
    assert_eq!(cpu.DEX(), 0);
    assert_eq!(cpu.x(), 0);
    assert!(flag(&cpu, StatusRegFlags::Z));
    assert_eq!(cpu.DEY(), 0);
    assert_eq!(cpu.y(), 0xFF);
    assert!(flag(&cpu, StatusRegFlags::N));
    assert!(!flag(&cpu, StatusRegFlags::Z));
    cpu.INC_X();
    assert_eq!(cpu.x(), 1);
    cpu.INC_Y();
    assert_eq!(cpu.y(), 0);
}

#[test]
fn logic_and_bit() {
    // LDA #$F0 ; AND #$3C ; EOR #$FF ; ORA #$01
    let mut cpu = machine(0x0600, &[0xA9, 0xF0, 0x29, 0x3C, 0x49, 0xFF, 0x09, 0x01]);
    run(&mut cpu, 2);
    assert_eq!(cpu.a(), 0x30);
    run(&mut cpu, 1);
    assert_eq!(cpu.a(), 0xCF);
    assert!(flag(&cpu, StatusRegFlags::N));
    run(&mut cpu, 1);
    assert_eq!(cpu.a(), 0xCF);
    // LDA #$01 ; BIT $30 with $30 = $C0
    let mut cpu = machine(0x0600, &[0xA9, 0x01, 0x24, 0x30]);
    cpu.bus.write(0x0030, 0xC0);
    run(&mut cpu, 2);
    assert!(flag(&cpu, StatusRegFlags::Z));
    assert!(flag(&cpu, StatusRegFlags::N));
    assert!(flag(&cpu, StatusRegFlags::V));
    assert_eq!(cpu.a(), 0x01);
}

#[test]
fn flag_instructions() {
    // SEC ; SED ; SEI ; CLC ; CLD ; CLI
    let mut cpu = machine(0x0600, &[0x38, 0xF8, 0x78, 0x18, 0xD8, 0x58]);
    run(&mut cpu, 3);
    assert_eq!(cpu.status(), 0x2D);
    run(&mut cpu, 3);
    assert_eq!(cpu.status(), 0x20);
    let mut cpu = machine(0x0600, &[]);
    cpu.registers.set_flag(StatusRegFlags::V, true);
    cpu.CLV();
    assert!(!flag(&cpu, StatusRegFlags::V));
    cpu.SEC();
    cpu.CLC();
    cpu.SED();
    cpu.CDC();
    cpu.SEI();
    cpu.CLI();
    assert_eq!(cpu.status(), 0x20);
}

#[test]
fn loads_stores_transfers() {
    // LDX #$05 ; LDY #$06 ; LDA #$07 ; STA $40 ; STX $41 ; STY $42 ; TAX ; TYA ; TSX ; TXS
    let mut cpu = machine(
        0x0600,
        &[0xA2, 0x05, 0xA0, 0x06, 0xA9, 0x07, 0x85, 0x40, 0x86, 0x41, 0x84, 0x42, 0xAA, 0x98, 0xBA],
    );
    run(&mut cpu, 6);
    assert_eq!(cpu.read(0x0040), 0x07);
    assert_eq!(cpu.read(0x0041), 0x05);
    assert_eq!(cpu.read(0x0042), 0x06);
    run(&mut cpu, 1);
    assert_eq!(cpu.x(), 0x07);
    run(&mut cpu, 1);
    assert_eq!(cpu.a(), 0x06);
    run(&mut cpu, 1);
    assert_eq!(cpu.x(), 0xFD);
    assert!(flag(&cpu, StatusRegFlags::N));
    cpu.registers.x = 0x00;
    cpu.TXS();
    assert_eq!(cpu.sp(), 0x00);
    assert!(flag(&cpu, StatusRegFlags::N));
    cpu.TAY();
    assert_eq!(cpu.y(), 0x06);
    cpu.TXA();
    assert_eq!(cpu.a(), 0x00);
    assert!(flag(&cpu, StatusRegFlags::Z));
}

#[test]
fn branches_follow_their_flags() {
    let cases: [(u8, u8, bool); 8] = [
        (0x90, 0x01, false), // BCC with C set
        (0xB0, 0x01, true),  // BCS with C set
        (0xD0, 0x02, false), // BNE with Z set
        (0xF0, 0x02, true),  // BEQ with Z set
        (0x10, 0x80, false), // BPL with N set
        (0x30, 0x80, true),  // BMI with N set
        (0x50, 0x40, false), // BVC with V set
        (0x70, 0x40, true),  // BVS with V set
    ];
    for (op, status, taken) in cases {
        let mut cpu = machine(0x0600, &[op, 0x08]);
        cpu.registers.status = status | 0x20;
        run(&mut cpu, 1);
        assert_eq!(cpu.pc(), if taken { 0x060A } else { 0x0602 }, "opcode {:02X}", op);
    }
    let mut cpu = machine(0x0600, &[0x02, 0x08]);
    cpu.registers.pc = 0x0602;
    cpu.addr_rel = 0x0004;
    cpu.registers.status = 0x20;
    assert_eq!(cpu.BCC(), 0);
    assert_eq!(cpu.pc(), 0x0606);
    assert_eq!(cpu.cycles, 1);
    assert_eq!(cpu.BCS(), 0);
    assert_eq!(cpu.BNE(), 0);
    assert_eq!(cpu.BPL(), 0);
    assert_eq!(cpu.BVC(), 0);
    assert_eq!(cpu.pc(), 0x0612);
    cpu.BEQ();
    cpu.BMI();
    cpu.BVS();
    assert_eq!(cpu.pc(), 0x0612);
}

#[test]
fn jmp_absolute_and_nop() {
    // NOP ; JMP $1234
    let mut cpu = machine(0x0600, &[0xEA, 0x4C, 0x34, 0x12]);
    run(&mut cpu, 1);
    assert_eq!(cpu.pc(), 0x0601);
    run(&mut cpu, 1);
    assert_eq!(cpu.pc(), 0x1234);
    assert_eq!(cpu.NOP(), 0);
    assert_eq!(cpu.XXX(), 0);
}

#[test]
fn fetch_reads_operand_or_accumulator() {
    let mut cpu = machine(0x0600, &[]);
    cpu.bus.write(0x1234, 0x77);
    cpu.mode = cpu6502::opcode_table::AddrMode::ABS;
    cpu.addr_abs = 0x1234;
    assert_eq!(cpu.fetch(), 0x77);
    assert_eq!(cpu.registers.fetched, 0x77);
    cpu.mode = cpu6502::opcode_table::AddrMode::IMP;
    cpu.registers.fetched = 0x11;
    assert_eq!(cpu.fetch(), 0x11);
}

#[test]
fn execute_instruction_decodes_without_fetching() {
    let mut cpu = machine(0x0600, &[0x42]);
    cpu.execute_instruction(0xA9);
    assert_eq!(cpu.a(), 0x42);
    assert_eq!(cpu.pc(), 0x0601);
    assert_eq!(cpu.cycles, 1);
}

#[test]
fn bus_reads_back_writes() {
    let mut bus = Bus::new();
    assert_eq!(bus.read(0xFFFF), 0);
    bus.write(0xFFFF, 0xAB);
    bus.write(0x0000, 0xCD);
    assert_eq!(bus.read(0xFFFF), 0xAB);
    assert_eq!(bus.read(0x0000), 0xCD);
    let cpu = CPU::new(bus);
    assert_eq!(cpu.read(0xFFFF), 0xAB);
    assert_eq!(cpu.total_cycles(), 0);
    assert!(cpu.complete());
}

#[test]
fn cpu_write_and_read_word() {
    let mut cpu = machine(0x0600, &[]);
    cpu.write(0x3000, 0xEF);
    cpu.write(0x3001, 0xBE);
    assert_eq!(cpu.read_word(0x3000), 0xBEEF);
    cpu.write(0xFFFF, 0x01);
    cpu.write(0x0000, 0x02);
    assert_eq!(cpu.read_word(0xFFFF), 0x0201);
}

#[test]
fn push_and_pull_wrap() {
    let mut cpu = machine(0x0600, &[]);
    cpu.registers.sp = 0x00;
    cpu.push(0x99);
    assert_eq!(cpu.sp(), 0xFF);
    assert_eq!(cpu.read(0x0100), 0x99);
    assert_eq!(cpu.pull(), 0x99);
    assert_eq!(cpu.sp(), 0x00);
}

#[test]
fn interrupt_entry_directly() {
    let mut cpu = machine(0x0600, &[]);
    cpu.bus.write(0xFFFA, 0x11);
    cpu.bus.write(0xFFFB, 0x22);
    cpu.interrupt(0xFFFA, true);
    assert_eq!(cpu.pc(), 0x2211);
    assert_eq!(cpu.read(0x01FB), 0x30);
    assert!(!cpu.registers.get_flag(StatusRegFlags::B));
    assert_eq!(cpu.BRK(), 0);
}

#[test]
fn resolve_and_execute_dispatch() {
    let mut cpu = machine(0x0600, &[0x05]);
    cpu.mode = cpu6502::opcode_table::AddrMode::IMM;
    assert_eq!(cpu.resolve(cpu6502::opcode_table::AddrMode::IMM), 0);
    assert_eq!(cpu.execute(cpu6502::opcode_table::Instr::LDA), 1);
    assert_eq!(cpu.a(), 0x05);
}
