use cpu6502::flags::StatusRegFlags;
use cpu6502::opcode_compression::{execute_instruction, Registers};
use cpu6502::registers::Registers as CpuRegisters;
use cpu6502::utils::check_hex_range;

#[test]
fn set_and_get_flags() {
    let mut r = CpuRegisters { a: 0, x: 0, y: 0, pc: 0, sp: 0, status: 0, fetched: 0 };
    r.set_flag(StatusRegFlags::N, true);
    r.set_flag(StatusRegFlags::C, true);
    assert_eq!(r.status, 0x81);
    assert!(r.get_flag(StatusRegFlags::N));
    assert!(!r.get_flag(StatusRegFlags::Z));
    r.set_flag(StatusRegFlags::N, false);
    assert_eq!(r.status, 0x01);
    r.set_flag(StatusRegFlags::C, false);
    assert_eq!(r.status, 0x00);
}

#[test]
fn flag_bits() {
    assert_eq!(StatusRegFlags::C.bits(), 0x01);
    assert_eq!(StatusRegFlags::Z.bits(), 0x02);
    assert_eq!(StatusRegFlags::I.bits(), 0x04);
    assert_eq!(StatusRegFlags::D.bits(), 0x08);
    assert_eq!(StatusRegFlags::B.bits(), 0x10);
    assert_eq!(StatusRegFlags::U.bits(), 0x20);
    assert_eq!(StatusRegFlags::V.bits(), 0x40);
    assert_eq!(StatusRegFlags::N.bits(), 0x80);
}

#[test]
fn every_u16_is_in_range() {
    assert!(check_hex_range(0x0000));
    assert!(check_hex_range(0x8000));
    assert!(check_hex_range(0xFFFF));
}

#[test]
fn micro_ops_for_low_opcodes() {
    let expected: [u32; 8] = [10 + 3, 10 + 3 + 1, 10 - 3, 10 - 3 - 1, 10 + 3, 10 + 3 + 1, 10 - 3, 10 - 3 - 1];
    for op in 0..8u32 {
        let mut r = Registers { a: 10, b: 3, c: 1 };
        execute_instruction(&mut r, op);
        assert_eq!(r, Registers { a: expected[op as usize], b: 3, c: 1 }, "opcode {}", op);
    }
}

#[test]
fn micro_ops_wrap() {
    let mut r = Registers { a: u32::MAX, b: 2, c: 1 };
    execute_instruction(&mut r, 1);
    assert_eq!(r.a, 2);
    let mut r = Registers { a: 1, b: 2, c: 3 };
    execute_instruction(&mut r, 7);
    assert_eq!(r.a, u32::MAX - 3);
}

#[test]
fn micro_ops_do_nothing_from_eight_on() {
    for op in [8u32, 12, 40, 71] {
        let mut r = Registers { a: 10, b: 5, c: 7 };
        execute_instruction(&mut r, op);
        assert_eq!(r, Registers { a: 10, b: 5, c: 7 });
    }
}
