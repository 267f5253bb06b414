use vstd::prelude::*;

verus! {

/// The addressing modes: how an instruction finds its operand.
#[allow(non_camel_case_types)]
#[derive(Clone, Copy, Debug, PartialEq, Eq, Structural)]
pub enum AddrMode {
    /// Implied or accumulator: the operand is the accumulator.
    IMP,
    /// Immediate: the operand is the byte after the opcode.
    IMM,
    /// Zero page.
    ZP0,
    /// Zero page, indexed by X (wrapping within page zero).
    ZPX,
    /// Zero page, indexed by Y (wrapping within page zero).
    ZPY,
    /// Relative: a signed branch displacement.
    REL,
    /// Absolute.
    ABS,
    /// Absolute, indexed by X.
    ABX,
    /// Absolute, indexed by Y.
    ABY,
    /// Indirect, with the page wrap of the NMOS 6502 hardware.
    IND,
    /// Indexed indirect: `(zp,X)`.
    IZX,
    /// Indirect indexed: `(zp),Y`.
    IZY,
}

/// The instruction mnemonics; `XXX` stands for every undocumented opcode.
#[allow(non_camel_case_types)]
#[derive(Clone, Copy, Debug, PartialEq, Eq, Structural)]
pub enum Instr {
    ADC,
    AND,
    ASL,
    BCC,
    BCS,
    BEQ,
    BIT,
    BMI,
    BNE,
    BPL,
    BRK,
    BVC,
    BVS,
    CLC,
    CLD,
    CLI,
    CLV,
    CMP,
    CPX,
    CPY,
    DEC,
    DEX,
    DEY,
    EOR,
    INC,
    INX,
    INY,
    JMP,
    JSR,
    LDA,
    LDX,
    LDY,
    LSR,
    NOP,
    ORA,
    PHA,
    PHP,
    PLA,
    PLP,
    ROL,
    ROR,
    RTI,
    RTS,
    SBC,
    SEC,
    SED,
    SEI,
    STA,
    STX,
    STY,
    TAX,
    TAY,
    TSX,
    TXA,
    TXS,
    TYA,
    XXX,
}

/// One entry of the decode table.
#[derive(Clone, Copy, Debug, PartialEq, Eq, Structural)]
pub struct OpEntry {
    pub instr: Instr,
    pub mode: AddrMode,
    /// Base cycle count, before any page-crossing or branch penalty.
    pub cycles: u8,
}

/// The number of operand bytes that follow an opcode in the given mode.
pub open spec fn operand_len(m: AddrMode) -> int {
    match m {
        AddrMode::IMP => 0,
        AddrMode::ABS | AddrMode::ABX | AddrMode::ABY | AddrMode::IND => 2,
        _ => 1,
    }
}

/// Whether an instruction may owe one more cycle when its addressing mode
/// crosses a page (the read instructions of the official cycle table).
pub open spec fn pays_page_penalty(i: Instr) -> bool {
    match i {
        Instr::ADC | Instr::AND | Instr::CMP | Instr::EOR | Instr::LDA | Instr::LDX
        | Instr::LDY | Instr::ORA | Instr::SBC => true,
        _ => false,
    }
}

/// Whether an instruction is a conditional branch.
pub open spec fn is_branch(i: Instr) -> bool {
    match i {
        Instr::BCC | Instr::BCS | Instr::BEQ | Instr::BMI | Instr::BNE | Instr::BPL
        | Instr::BVC | Instr::BVS => true,
        _ => false,
    }
}

/// Whether an instruction may set the program counter somewhere other than
/// just past its own encoding.
pub open spec fn transfers_control(i: Instr) -> bool {
    is_branch(i) || i == Instr::JMP || i == Instr::JSR || i == Instr::RTS || i == Instr::RTI
        || i == Instr::BRK
}

/// The decode table: instruction, addressing mode and base cycles of each
/// opcode byte. Undocumented opcodes decode to a two-cycle no-op.
#[verifier::opaque]
pub open spec fn opcode_entry(op: u8) -> OpEntry {
    match op {
        0x00 => OpEntry { instr: Instr::BRK, mode: AddrMode::IMM, cycles: 7 },
        0x01 => OpEntry { instr: Instr::ORA, mode: AddrMode::IZX, cycles: 6 },
        0x05 => OpEntry { instr: Instr::ORA, mode: AddrMode::ZP0, cycles: 3 },
        0x06 => OpEntry { instr: Instr::ASL, mode: AddrMode::ZP0, cycles: 5 },
        0x08 => OpEntry { instr: Instr::PHP, mode: AddrMode::IMP, cycles: 3 },
        0x09 => OpEntry { instr: Instr::ORA, mode: AddrMode::IMM, cycles: 2 },
        0x0A => OpEntry { instr: Instr::ASL, mode: AddrMode::IMP, cycles: 2 },
        0x0D => OpEntry { instr: Instr::ORA, mode: AddrMode::ABS, cycles: 4 },
        0x0E => OpEntry { instr: Instr::ASL, mode: AddrMode::ABS, cycles: 6 },
        0x10 => OpEntry { instr: Instr::BPL, mode: AddrMode::REL, cycles: 2 },
        0x11 => OpEntry { instr: Instr::ORA, mode: AddrMode::IZY, cycles: 5 },
        0x15 => OpEntry { instr: Instr::ORA, mode: AddrMode::ZPX, cycles: 4 },
        0x16 => OpEntry { instr: Instr::ASL, mode: AddrMode::ZPX, cycles: 6 },
        0x18 => OpEntry { instr: Instr::CLC, mode: AddrMode::IMP, cycles: 2 },
        0x19 => OpEntry { instr: Instr::ORA, mode: AddrMode::ABY, cycles: 4 },
        0x1D => OpEntry { instr: Instr::ORA, mode: AddrMode::ABX, cycles: 4 },
        0x1E => OpEntry { instr: Instr::ASL, mode: AddrMode::ABX, cycles: 7 },
        0x20 => OpEntry { instr: Instr::JSR, mode: AddrMode::ABS, cycles: 6 },
        0x21 => OpEntry { instr: Instr::AND, mode: AddrMode::IZX, cycles: 6 },
        0x24 => OpEntry { instr: Instr::BIT, mode: AddrMode::ZP0, cycles: 3 },
        0x25 => OpEntry { instr: Instr::AND, mode: AddrMode::ZP0, cycles: 3 },
        0x26 => OpEntry { instr: Instr::ROL, mode: AddrMode::ZP0, cycles: 5 },
        0x28 => OpEntry { instr: Instr::PLP, mode: AddrMode::IMP, cycles: 4 },
        0x29 => OpEntry { instr: Instr::AND, mode: AddrMode::IMM, cycles: 2 },
        0x2A => OpEntry { instr: Instr::ROL, mode: AddrMode::IMP, cycles: 2 },
        0x2C => OpEntry { instr: Instr::BIT, mode: AddrMode::ABS, cycles: 4 },
        0x2D => OpEntry { instr: Instr::AND, mode: AddrMode::ABS, cycles: 4 },
        0x2E => OpEntry { instr: Instr::ROL, mode: AddrMode::ABS, cycles: 6 },
        0x30 => OpEntry { instr: Instr::BMI, mode: AddrMode::REL, cycles: 2 },
        0x31 => OpEntry { instr: Instr::AND, mode: AddrMode::IZY, cycles: 5 },
        0x35 => OpEntry { instr: Instr::AND, mode: AddrMode::ZPX, cycles: 4 },
        0x36 => OpEntry { instr: Instr::ROL, mode: AddrMode::ZPX, cycles: 6 },
        0x38 => OpEntry { instr: Instr::SEC, mode: AddrMode::IMP, cycles: 2 },
        0x39 => OpEntry { instr: Instr::AND, mode: AddrMode::ABY, cycles: 4 },
        0x3D => OpEntry { instr: Instr::AND, mode: AddrMode::ABX, cycles: 4 },
        0x3E => OpEntry { instr: Instr::ROL, mode: AddrMode::ABX, cycles: 7 },
        0x40 => OpEntry { instr: Instr::RTI, mode: AddrMode::IMP, cycles: 6 },
        0x41 => OpEntry { instr: Instr::EOR, mode: AddrMode::IZX, cycles: 6 },
        0x45 => OpEntry { instr: Instr::EOR, mode: AddrMode::ZP0, cycles: 3 },
        0x46 => OpEntry { instr: Instr::LSR, mode: AddrMode::ZP0, cycles: 5 },
        0x48 => OpEntry { instr: Instr::PHA, mode: AddrMode::IMP, cycles: 3 },
        0x49 => OpEntry { instr: Instr::EOR, mode: AddrMode::IMM, cycles: 2 },
        0x4A => OpEntry { instr: Instr::LSR, mode: AddrMode::IMP, cycles: 2 },
        0x4C => OpEntry { instr: Instr::JMP, mode: AddrMode::ABS, cycles: 3 },
        0x4D => OpEntry { instr: Instr::EOR, mode: AddrMode::ABS, cycles: 4 },
        0x4E => OpEntry { instr: Instr::LSR, mode: AddrMode::ABS, cycles: 6 },
        0x50 => OpEntry { instr: Instr::BVC, mode: AddrMode::REL, cycles: 2 },
        0x51 => OpEntry { instr: Instr::EOR, mode: AddrMode::IZY, cycles: 5 },
        0x55 => OpEntry { instr: Instr::EOR, mode: AddrMode::ZPX, cycles: 4 },
        0x56 => OpEntry { instr: Instr::LSR, mode: AddrMode::ZPX, cycles: 6 },
        0x58 => OpEntry { instr: Instr::CLI, mode: AddrMode::IMP, cycles: 2 },
        0x59 => OpEntry { instr: Instr::EOR, mode: AddrMode::ABY, cycles: 4 },
        0x5D => OpEntry { instr: Instr::EOR, mode: AddrMode::ABX, cycles: 4 },
        0x5E => OpEntry { instr: Instr::LSR, mode: AddrMode::ABX, cycles: 7 },
        0x60 => OpEntry { instr: Instr::RTS, mode: AddrMode::IMP, cycles: 6 },
        0x61 => OpEntry { instr: Instr::ADC, mode: AddrMode::IZX, cycles: 6 },
        0x65 => OpEntry { instr: Instr::ADC, mode: AddrMode::ZP0, cycles: 3 },
        0x66 => OpEntry { instr: Instr::ROR, mode: AddrMode::ZP0, cycles: 5 },
        0x68 => OpEntry { instr: Instr::PLA, mode: AddrMode::IMP, cycles: 4 },
        0x69 => OpEntry { instr: Instr::ADC, mode: AddrMode::IMM, cycles: 2 },
        0x6A => OpEntry { instr: Instr::ROR, mode: AddrMode::IMP, cycles: 2 },
        0x6C => OpEntry { instr: Instr::JMP, mode: AddrMode::IND, cycles: 5 },
        0x6D => OpEntry { instr: Instr::ADC, mode: AddrMode::ABS, cycles: 4 },
        0x6E => OpEntry { instr: Instr::ROR, mode: AddrMode::ABS, cycles: 6 },
        0x70 => OpEntry { instr: Instr::BVS, mode: AddrMode::REL, cycles: 2 },
        0x71 => OpEntry { instr: Instr::ADC, mode: AddrMode::IZY, cycles: 5 },
        0x75 => OpEntry { instr: Instr::ADC, mode: AddrMode::ZPX, cycles: 4 },
        0x76 => OpEntry { instr: Instr::ROR, mode: AddrMode::ZPX, cycles: 6 },
        0x78 => OpEntry { instr: Instr::SEI, mode: AddrMode::IMP, cycles: 2 },
        0x79 => OpEntry { instr: Instr::ADC, mode: AddrMode::ABY, cycles: 4 },
        0x7D => OpEntry { instr: Instr::ADC, mode: AddrMode::ABX, cycles: 4 },
        0x7E => OpEntry { instr: Instr::ROR, mode: AddrMode::ABX, cycles: 7 },
        0x81 => OpEntry { instr: Instr::STA, mode: AddrMode::IZX, cycles: 6 },
        0x84 => OpEntry { instr: Instr::STY, mode: AddrMode::ZP0, cycles: 3 },
        0x85 => OpEntry { instr: Instr::STA, mode: AddrMode::ZP0, cycles: 3 },
        0x86 => OpEntry { instr: Instr::STX, mode: AddrMode::ZP0, cycles: 3 },
        0x88 => OpEntry { instr: Instr::DEY, mode: AddrMode::IMP, cycles: 2 },
        0x8A => OpEntry { instr: Instr::TXA, mode: AddrMode::IMP, cycles: 2 },
        0x8C => OpEntry { instr: Instr::STY, mode: AddrMode::ABS, cycles: 4 },
        0x8D => OpEntry { instr: Instr::STA, mode: AddrMode::ABS, cycles: 4 },
        0x8E => OpEntry { instr: Instr::STX, mode: AddrMode::ABS, cycles: 4 },
        0x90 => OpEntry { instr: Instr::BCC, mode: AddrMode::REL, cycles: 2 },
        0x91 => OpEntry { instr: Instr::STA, mode: AddrMode::IZY, cycles: 6 },
        0x94 => OpEntry { instr: Instr::STY, mode: AddrMode::ZPX, cycles: 4 },
        0x95 => OpEntry { instr: Instr::STA, mode: AddrMode::ZPX, cycles: 4 },
        0x96 => OpEntry { instr: Instr::STX, mode: AddrMode::ZPY, cycles: 4 },
        0x98 => OpEntry { instr: Instr::TYA, mode: AddrMode::IMP, cycles: 2 },
        0x99 => OpEntry { instr: Instr::STA, mode: AddrMode::ABY, cycles: 5 },
        0x9A => OpEntry { instr: Instr::TXS, mode: AddrMode::IMP, cycles: 2 },
        0x9D => OpEntry { instr: Instr::STA, mode: AddrMode::ABX, cycles: 5 },
        0xA0 => OpEntry { instr: Instr::LDY, mode: AddrMode::IMM, cycles: 2 },
        0xA1 => OpEntry { instr: Instr::LDA, mode: AddrMode::IZX, cycles: 6 },
        0xA2 => OpEntry { instr: Instr::LDX, mode: AddrMode::IMM, cycles: 2 },
        0xA4 => OpEntry { instr: Instr::LDY, mode: AddrMode::ZP0, cycles: 3 },
        0xA5 => OpEntry { instr: Instr::LDA, mode: AddrMode::ZP0, cycles: 3 },
        0xA6 => OpEntry { instr: Instr::LDX, mode: AddrMode::ZP0, cycles: 3 },
        0xA8 => OpEntry { instr: Instr::TAY, mode: AddrMode::IMP, cycles: 2 },
        0xA9 => OpEntry { instr: Instr::LDA, mode: AddrMode::IMM, cycles: 2 },
        0xAA => OpEntry { instr: Instr::TAX, mode: AddrMode::IMP, cycles: 2 },
        0xAC => OpEntry { instr: Instr::LDY, mode: AddrMode::ABS, cycles: 4 },
        0xAD => OpEntry { instr: Instr::LDA, mode: AddrMode::ABS, cycles: 4 },
        0xAE => OpEntry { instr: Instr::LDX, mode: AddrMode::ABS, cycles: 4 },
        0xB0 => OpEntry { instr: Instr::BCS, mode: AddrMode::REL, cycles: 2 },
        0xB1 => OpEntry { instr: Instr::LDA, mode: AddrMode::IZY, cycles: 5 },
        0xB4 => OpEntry { instr: Instr::LDY, mode: AddrMode::ZPX, cycles: 4 },
        0xB5 => OpEntry { instr: Instr::LDA, mode: AddrMode::ZPX, cycles: 4 },
        0xB6 => OpEntry { instr: Instr::LDX, mode: AddrMode::ZPY, cycles: 4 },
        0xB8 => OpEntry { instr: Instr::CLV, mode: AddrMode::IMP, cycles: 2 },
        0xB9 => OpEntry { instr: Instr::LDA, mode: AddrMode::ABY, cycles: 4 },
        0xBA => OpEntry { instr: Instr::TSX, mode: AddrMode::IMP, cycles: 2 },
        0xBC => OpEntry { instr: Instr::LDY, mode: AddrMode::ABX, cycles: 4 },
        0xBD => OpEntry { instr: Instr::LDA, mode: AddrMode::ABX, cycles: 4 },
        0xBE => OpEntry { instr: Instr::LDX, mode: AddrMode::ABY, cycles: 4 },
        0xC0 => OpEntry { instr: Instr::CPY, mode: AddrMode::IMM, cycles: 2 },
        0xC1 => OpEntry { instr: Instr::CMP, mode: AddrMode::IZX, cycles: 6 },
        0xC4 => OpEntry { instr: Instr::CPY, mode: AddrMode::ZP0, cycles: 3 },
        0xC5 => OpEntry { instr: Instr::CMP, mode: AddrMode::ZP0, cycles: 3 },
        0xC6 => OpEntry { instr: Instr::DEC, mode: AddrMode::ZP0, cycles: 5 },
        0xC8 => OpEntry { instr: Instr::INY, mode: AddrMode::IMP, cycles: 2 },
        0xC9 => OpEntry { instr: Instr::CMP, mode: AddrMode::IMM, cycles: 2 },
        0xCA => OpEntry { instr: Instr::DEX, mode: AddrMode::IMP, cycles: 2 },
        0xCC => OpEntry { instr: Instr::CPY, mode: AddrMode::ABS, cycles: 4 },
        0xCD => OpEntry { instr: Instr::CMP, mode: AddrMode::ABS, cycles: 4 },
        0xCE => OpEntry { instr: Instr::DEC, mode: AddrMode::ABS, cycles: 6 },
        0xD0 => OpEntry { instr: Instr::BNE, mode: AddrMode::REL, cycles: 2 },
        0xD1 => OpEntry { instr: Instr::CMP, mode: AddrMode::IZY, cycles: 5 },
        0xD5 => OpEntry { instr: Instr::CMP, mode: AddrMode::ZPX, cycles: 4 },
        0xD6 => OpEntry { instr: Instr::DEC, mode: AddrMode::ZPX, cycles: 6 },
        0xD8 => OpEntry { instr: Instr::CLD, mode: AddrMode::IMP, cycles: 2 },
        0xD9 => OpEntry { instr: Instr::CMP, mode: AddrMode::ABY, cycles: 4 },
        0xDD => OpEntry { instr: Instr::CMP, mode: AddrMode::ABX, cycles: 4 },
        0xDE => OpEntry { instr: Instr::DEC, mode: AddrMode::ABX, cycles: 7 },
        0xE0 => OpEntry { instr: Instr::CPX, mode: AddrMode::IMM, cycles: 2 },
        0xE1 => OpEntry { instr: Instr::SBC, mode: AddrMode::IZX, cycles: 6 },
        0xE4 => OpEntry { instr: Instr::CPX, mode: AddrMode::ZP0, cycles: 3 },
        0xE5 => OpEntry { instr: Instr::SBC, mode: AddrMode::ZP0, cycles: 3 },
        0xE6 => OpEntry { instr: Instr::INC, mode: AddrMode::ZP0, cycles: 5 },
        0xE8 => OpEntry { instr: Instr::INX, mode: AddrMode::IMP, cycles: 2 },
        0xE9 => OpEntry { instr: Instr::SBC, mode: AddrMode::IMM, cycles: 2 },
        0xEA => OpEntry { instr: Instr::NOP, mode: AddrMode::IMP, cycles: 2 },
        0xEC => OpEntry { instr: Instr::CPX, mode: AddrMode::ABS, cycles: 4 },
        0xED => OpEntry { instr: Instr::SBC, mode: AddrMode::ABS, cycles: 4 },
        0xEE => OpEntry { instr: Instr::INC, mode: AddrMode::ABS, cycles: 6 },
        0xF0 => OpEntry { instr: Instr::BEQ, mode: AddrMode::REL, cycles: 2 },
        0xF1 => OpEntry { instr: Instr::SBC, mode: AddrMode::IZY, cycles: 5 },
        0xF5 => OpEntry { instr: Instr::SBC, mode: AddrMode::ZPX, cycles: 4 },
        0xF6 => OpEntry { instr: Instr::INC, mode: AddrMode::ZPX, cycles: 6 },
        0xF8 => OpEntry { instr: Instr::SED, mode: AddrMode::IMP, cycles: 2 },
        0xF9 => OpEntry { instr: Instr::SBC, mode: AddrMode::ABY, cycles: 4 },
        0xFD => OpEntry { instr: Instr::SBC, mode: AddrMode::ABX, cycles: 4 },
        0xFE => OpEntry { instr: Instr::INC, mode: AddrMode::ABX, cycles: 7 },

        _ => OpEntry { instr: Instr::XXX, mode: AddrMode::IMP, cycles: 2 },
    }
}

/// Looks up the decode table entry of an opcode byte.
pub fn lookup(op: u8) -> (e: OpEntry)
    ensures
        e == opcode_entry(op),
{
    proof { reveal(opcode_entry); }
    match op {
        0x00 => OpEntry { instr: Instr::BRK, mode: AddrMode::IMM, cycles: 7 },
        0x01 => OpEntry { instr: Instr::ORA, mode: AddrMode::IZX, cycles: 6 },
        0x05 => OpEntry { instr: Instr::ORA, mode: AddrMode::ZP0, cycles: 3 },
        0x06 => OpEntry { instr: Instr::ASL, mode: AddrMode::ZP0, cycles: 5 },
        0x08 => OpEntry { instr: Instr::PHP, mode: AddrMode::IMP, cycles: 3 },
        0x09 => OpEntry { instr: Instr::ORA, mode: AddrMode::IMM, cycles: 2 },
        0x0A => OpEntry { instr: Instr::ASL, mode: AddrMode::IMP, cycles: 2 },
        0x0D => OpEntry { instr: Instr::ORA, mode: AddrMode::ABS, cycles: 4 },
        0x0E => OpEntry { instr: Instr::ASL, mode: AddrMode::ABS, cycles: 6 },
        0x10 => OpEntry { instr: Instr::BPL, mode: AddrMode::REL, cycles: 2 },
        0x11 => OpEntry { instr: Instr::ORA, mode: AddrMode::IZY, cycles: 5 },
        0x15 => OpEntry { instr: Instr::ORA, mode: AddrMode::ZPX, cycles: 4 },
        0x16 => OpEntry { instr: Instr::ASL, mode: AddrMode::ZPX, cycles: 6 },
        0x18 => OpEntry { instr: Instr::CLC, mode: AddrMode::IMP, cycles: 2 },
        0x19 => OpEntry { instr: Instr::ORA, mode: AddrMode::ABY, cycles: 4 },
        0x1D => OpEntry { instr: Instr::ORA, mode: AddrMode::ABX, cycles: 4 },
        0x1E => OpEntry { instr: Instr::ASL, mode: AddrMode::ABX, cycles: 7 },
        0x20 => OpEntry { instr: Instr::JSR, mode: AddrMode::ABS, cycles: 6 },
        0x21 => OpEntry { instr: Instr::AND, mode: AddrMode::IZX, cycles: 6 },
        0x24 => OpEntry { instr: Instr::BIT, mode: AddrMode::ZP0, cycles: 3 },
        0x25 => OpEntry { instr: Instr::AND, mode: AddrMode::ZP0, cycles: 3 },
        0x26 => OpEntry { instr: Instr::ROL, mode: AddrMode::ZP0, cycles: 5 },
        0x28 => OpEntry { instr: Instr::PLP, mode: AddrMode::IMP, cycles: 4 },
        0x29 => OpEntry { instr: Instr::AND, mode: AddrMode::IMM, cycles: 2 },
        0x2A => OpEntry { instr: Instr::ROL, mode: AddrMode::IMP, cycles: 2 },
        0x2C => OpEntry { instr: Instr::BIT, mode: AddrMode::ABS, cycles: 4 },
        0x2D => OpEntry { instr: Instr::AND, mode: AddrMode::ABS, cycles: 4 },
        0x2E => OpEntry { instr: Instr::ROL, mode: AddrMode::ABS, cycles: 6 },
        0x30 => OpEntry { instr: Instr::BMI, mode: AddrMode::REL, cycles: 2 },
        0x31 => OpEntry { instr: Instr::AND, mode: AddrMode::IZY, cycles: 5 },
        0x35 => OpEntry { instr: Instr::AND, mode: AddrMode::ZPX, cycles: 4 },
        0x36 => OpEntry { instr: Instr::ROL, mode: AddrMode::ZPX, cycles: 6 },
        0x38 => OpEntry { instr: Instr::SEC, mode: AddrMode::IMP, cycles: 2 },
        0x39 => OpEntry { instr: Instr::AND, mode: AddrMode::ABY, cycles: 4 },
        0x3D => OpEntry { instr: Instr::AND, mode: AddrMode::ABX, cycles: 4 },
        0x3E => OpEntry { instr: Instr::ROL, mode: AddrMode::ABX, cycles: 7 },
        0x40 => OpEntry { instr: Instr::RTI, mode: AddrMode::IMP, cycles: 6 },
        0x41 => OpEntry { instr: Instr::EOR, mode: AddrMode::IZX, cycles: 6 },
        0x45 => OpEntry { instr: Instr::EOR, mode: AddrMode::ZP0, cycles: 3 },
        0x46 => OpEntry { instr: Instr::LSR, mode: AddrMode::ZP0, cycles: 5 },
        0x48 => OpEntry { instr: Instr::PHA, mode: AddrMode::IMP, cycles: 3 },
        0x49 => OpEntry { instr: Instr::EOR, mode: AddrMode::IMM, cycles: 2 },
        0x4A => OpEntry { instr: Instr::LSR, mode: AddrMode::IMP, cycles: 2 },
        0x4C => OpEntry { instr: Instr::JMP, mode: AddrMode::ABS, cycles: 3 },
        0x4D => OpEntry { instr: Instr::EOR, mode: AddrMode::ABS, cycles: 4 },
        0x4E => OpEntry { instr: Instr::LSR, mode: AddrMode::ABS, cycles: 6 },
        0x50 => OpEntry { instr: Instr::BVC, mode: AddrMode::REL, cycles: 2 },
        0x51 => OpEntry { instr: Instr::EOR, mode: AddrMode::IZY, cycles: 5 },
        0x55 => OpEntry { instr: Instr::EOR, mode: AddrMode::ZPX, cycles: 4 },
        0x56 => OpEntry { instr: Instr::LSR, mode: AddrMode::ZPX, cycles: 6 },
        0x58 => OpEntry { instr: Instr::CLI, mode: AddrMode::IMP, cycles: 2 },
        0x59 => OpEntry { instr: Instr::EOR, mode: AddrMode::ABY, cycles: 4 },
        0x5D => OpEntry { instr: Instr::EOR, mode: AddrMode::ABX, cycles: 4 },
        0x5E => OpEntry { instr: Instr::LSR, mode: AddrMode::ABX, cycles: 7 },
        0x60 => OpEntry { instr: Instr::RTS, mode: AddrMode::IMP, cycles: 6 },
        0x61 => OpEntry { instr: Instr::ADC, mode: AddrMode::IZX, cycles: 6 },
        0x65 => OpEntry { instr: Instr::ADC, mode: AddrMode::ZP0, cycles: 3 },
        0x66 => OpEntry { instr: Instr::ROR, mode: AddrMode::ZP0, cycles: 5 },
        0x68 => OpEntry { instr: Instr::PLA, mode: AddrMode::IMP, cycles: 4 },
        0x69 => OpEntry { instr: Instr::ADC, mode: AddrMode::IMM, cycles: 2 },
        0x6A => OpEntry { instr: Instr::ROR, mode: AddrMode::IMP, cycles: 2 },
        0x6C => OpEntry { instr: Instr::JMP, mode: AddrMode::IND, cycles: 5 },
        0x6D => OpEntry { instr: Instr::ADC, mode: AddrMode::ABS, cycles: 4 },
        0x6E => OpEntry { instr: Instr::ROR, mode: AddrMode::ABS, cycles: 6 },
        0x70 => OpEntry { instr: Instr::BVS, mode: AddrMode::REL, cycles: 2 },
        0x71 => OpEntry { instr: Instr::ADC, mode: AddrMode::IZY, cycles: 5 },
        0x75 => OpEntry { instr: Instr::ADC, mode: AddrMode::ZPX, cycles: 4 },
        0x76 => OpEntry { instr: Instr::ROR, mode: AddrMode::ZPX, cycles: 6 },
        0x78 => OpEntry { instr: Instr::SEI, mode: AddrMode::IMP, cycles: 2 },
        0x79 => OpEntry { instr: Instr::ADC, mode: AddrMode::ABY, cycles: 4 },
        0x7D => OpEntry { instr: Instr::ADC, mode: AddrMode::ABX, cycles: 4 },
        0x7E => OpEntry { instr: Instr::ROR, mode: AddrMode::ABX, cycles: 7 },
        0x81 => OpEntry { instr: Instr::STA, mode: AddrMode::IZX, cycles: 6 },
        0x84 => OpEntry { instr: Instr::STY, mode: AddrMode::ZP0, cycles: 3 },
        0x85 => OpEntry { instr: Instr::STA, mode: AddrMode::ZP0, cycles: 3 },
        0x86 => OpEntry { instr: Instr::STX, mode: AddrMode::ZP0, cycles: 3 },
        0x88 => OpEntry { instr: Instr::DEY, mode: AddrMode::IMP, cycles: 2 },
        0x8A => OpEntry { instr: Instr::TXA, mode: AddrMode::IMP, cycles: 2 },
        0x8C => OpEntry { instr: Instr::STY, mode: AddrMode::ABS, cycles: 4 },
        0x8D => OpEntry { instr: Instr::STA, mode: AddrMode::ABS, cycles: 4 },
        0x8E => OpEntry { instr: Instr::STX, mode: AddrMode::ABS, cycles: 4 },
        0x90 => OpEntry { instr: Instr::BCC, mode: AddrMode::REL, cycles: 2 },
        0x91 => OpEntry { instr: Instr::STA, mode: AddrMode::IZY, cycles: 6 },
        0x94 => OpEntry { instr: Instr::STY, mode: AddrMode::ZPX, cycles: 4 },
        0x95 => OpEntry { instr: Instr::STA, mode: AddrMode::ZPX, cycles: 4 },
        0x96 => OpEntry { instr: Instr::STX, mode: AddrMode::ZPY, cycles: 4 },
        0x98 => OpEntry { instr: Instr::TYA, mode: AddrMode::IMP, cycles: 2 },
        0x99 => OpEntry { instr: Instr::STA, mode: AddrMode::ABY, cycles: 5 },
        0x9A => OpEntry { instr: Instr::TXS, mode: AddrMode::IMP, cycles: 2 },
        0x9D => OpEntry { instr: Instr::STA, mode: AddrMode::ABX, cycles: 5 },
        0xA0 => OpEntry { instr: Instr::LDY, mode: AddrMode::IMM, cycles: 2 },
        0xA1 => OpEntry { instr: Instr::LDA, mode: AddrMode::IZX, cycles: 6 },
        0xA2 => OpEntry { instr: Instr::LDX, mode: AddrMode::IMM, cycles: 2 },
        0xA4 => OpEntry { instr: Instr::LDY, mode: AddrMode::ZP0, cycles: 3 },
        0xA5 => OpEntry { instr: Instr::LDA, mode: AddrMode::ZP0, cycles: 3 },
        0xA6 => OpEntry { instr: Instr::LDX, mode: AddrMode::ZP0, cycles: 3 },
        0xA8 => OpEntry { instr: Instr::TAY, mode: AddrMode::IMP, cycles: 2 },
        0xA9 => OpEntry { instr: Instr::LDA, mode: AddrMode::IMM, cycles: 2 },
        0xAA => OpEntry { instr: Instr::TAX, mode: AddrMode::IMP, cycles: 2 },
        0xAC => OpEntry { instr: Instr::LDY, mode: AddrMode::ABS, cycles: 4 },
        0xAD => OpEntry { instr: Instr::LDA, mode: AddrMode::ABS, cycles: 4 },
        0xAE => OpEntry { instr: Instr::LDX, mode: AddrMode::ABS, cycles: 4 },
        0xB0 => OpEntry { instr: Instr::BCS, mode: AddrMode::REL, cycles: 2 },
        0xB1 => OpEntry { instr: Instr::LDA, mode: AddrMode::IZY, cycles: 5 },
        0xB4 => OpEntry { instr: Instr::LDY, mode: AddrMode::ZPX, cycles: 4 },
        0xB5 => OpEntry { instr: Instr::LDA, mode: AddrMode::ZPX, cycles: 4 },
        0xB6 => OpEntry { instr: Instr::LDX, mode: AddrMode::ZPY, cycles: 4 },
        0xB8 => OpEntry { instr: Instr::CLV, mode: AddrMode::IMP, cycles: 2 },
        0xB9 => OpEntry { instr: Instr::LDA, mode: AddrMode::ABY, cycles: 4 },
        0xBA => OpEntry { instr: Instr::TSX, mode: AddrMode::IMP, cycles: 2 },
        0xBC => OpEntry { instr: Instr::LDY, mode: AddrMode::ABX, cycles: 4 },
        0xBD => OpEntry { instr: Instr::LDA, mode: AddrMode::ABX, cycles: 4 },
        0xBE => OpEntry { instr: Instr::LDX, mode: AddrMode::ABY, cycles: 4 },
        0xC0 => OpEntry { instr: Instr::CPY, mode: AddrMode::IMM, cycles: 2 },
        0xC1 => OpEntry { instr: Instr::CMP, mode: AddrMode::IZX, cycles: 6 },
        0xC4 => OpEntry { instr: Instr::CPY, mode: AddrMode::ZP0, cycles: 3 },
        0xC5 => OpEntry { instr: Instr::CMP, mode: AddrMode::ZP0, cycles: 3 },
        0xC6 => OpEntry { instr: Instr::DEC, mode: AddrMode::ZP0, cycles: 5 },
        0xC8 => OpEntry { instr: Instr::INY, mode: AddrMode::IMP, cycles: 2 },
        0xC9 => OpEntry { instr: Instr::CMP, mode: AddrMode::IMM, cycles: 2 },
        0xCA => OpEntry { instr: Instr::DEX, mode: AddrMode::IMP, cycles: 2 },
        0xCC => OpEntry { instr: Instr::CPY, mode: AddrMode::ABS, cycles: 4 },
        0xCD => OpEntry { instr: Instr::CMP, mode: AddrMode::ABS, cycles: 4 },
        0xCE => OpEntry { instr: Instr::DEC, mode: AddrMode::ABS, cycles: 6 },
        0xD0 => OpEntry { instr: Instr::BNE, mode: AddrMode::REL, cycles: 2 },
        0xD1 => OpEntry { instr: Instr::CMP, mode: AddrMode::IZY, cycles: 5 },
        0xD5 => OpEntry { instr: Instr::CMP, mode: AddrMode::ZPX, cycles: 4 },
        0xD6 => OpEntry { instr: Instr::DEC, mode: AddrMode::ZPX, cycles: 6 },
        0xD8 => OpEntry { instr: Instr::CLD, mode: AddrMode::IMP, cycles: 2 },
        0xD9 => OpEntry { instr: Instr::CMP, mode: AddrMode::ABY, cycles: 4 },
        0xDD => OpEntry { instr: Instr::CMP, mode: AddrMode::ABX, cycles: 4 },
        0xDE => OpEntry { instr: Instr::DEC, mode: AddrMode::ABX, cycles: 7 },
        0xE0 => OpEntry { instr: Instr::CPX, mode: AddrMode::IMM, cycles: 2 },
        0xE1 => OpEntry { instr: Instr::SBC, mode: AddrMode::IZX, cycles: 6 },
        0xE4 => OpEntry { instr: Instr::CPX, mode: AddrMode::ZP0, cycles: 3 },
        0xE5 => OpEntry { instr: Instr::SBC, mode: AddrMode::ZP0, cycles: 3 },
        0xE6 => OpEntry { instr: Instr::INC, mode: AddrMode::ZP0, cycles: 5 },
        0xE8 => OpEntry { instr: Instr::INX, mode: AddrMode::IMP, cycles: 2 },
        0xE9 => OpEntry { instr: Instr::SBC, mode: AddrMode::IMM, cycles: 2 },
        0xEA => OpEntry { instr: Instr::NOP, mode: AddrMode::IMP, cycles: 2 },
        0xEC => OpEntry { instr: Instr::CPX, mode: AddrMode::ABS, cycles: 4 },
        0xED => OpEntry { instr: Instr::SBC, mode: AddrMode::ABS, cycles: 4 },
        0xEE => OpEntry { instr: Instr::INC, mode: AddrMode::ABS, cycles: 6 },
        0xF0 => OpEntry { instr: Instr::BEQ, mode: AddrMode::REL, cycles: 2 },
        0xF1 => OpEntry { instr: Instr::SBC, mode: AddrMode::IZY, cycles: 5 },
        0xF5 => OpEntry { instr: Instr::SBC, mode: AddrMode::ZPX, cycles: 4 },
        0xF6 => OpEntry { instr: Instr::INC, mode: AddrMode::ZPX, cycles: 6 },
        0xF8 => OpEntry { instr: Instr::SED, mode: AddrMode::IMP, cycles: 2 },
        0xF9 => OpEntry { instr: Instr::SBC, mode: AddrMode::ABY, cycles: 4 },
        0xFD => OpEntry { instr: Instr::SBC, mode: AddrMode::ABX, cycles: 4 },
        0xFE => OpEntry { instr: Instr::INC, mode: AddrMode::ABX, cycles: 7 },

        _ => OpEntry { instr: Instr::XXX, mode: AddrMode::IMP, cycles: 2 },
    }
}

/// Every table entry costs between two and seven base cycles.
pub proof fn lemma_base_cycles(op: u8)
    ensures
        2 <= opcode_entry(op).cycles <= 7,
{
    reveal(opcode_entry);
}

} // verus!
