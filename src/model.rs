use vstd::prelude::*;
use crate::flags::{StatusRegFlags, flag_set, with_flag};
use crate::opcode_table::{
    AddrMode, Instr, is_branch, opcode_entry, operand_len, pays_page_penalty, transfers_control,
};
use crate::registers::Registers;

verus! {

/// Base of the stack page: the stack lives at `0x0100 + sp`.
pub const STACK_BASE: u16 = 0x0100;

/// Address of the little-endian NMI vector.
pub const NMI_VECTOR: u16 = 0xFFFA;

/// Address of the little-endian reset vector.
pub const RESET_VECTOR: u16 = 0xFFFC;

/// Address of the little-endian IRQ/BRK vector.
pub const IRQ_VECTOR: u16 = 0xFFFE;

/// Cycles taken by the reset sequence.
pub const RESET_CYCLES: u8 = 8;

/// Cycles taken by the entry into a maskable interrupt.
pub const IRQ_CYCLES: u8 = 7;

/// Cycles taken by the entry into a non-maskable interrupt.
pub const NMI_CYCLES: u8 = 8;

/// The whole state of the processor together with the memory it sees.
pub struct CpuView {
    pub regs: Registers,
    pub mem: Seq<u8>,
    pub mode: AddrMode,
    pub addr_abs: u16,
    pub addr_rel: u16,
    pub addr_temp: u16,
    pub cycles: u8,
    pub total_cycles: u64,
    pub irq_pending: bool,
    pub nmi_pending: bool,
}

// ----- arithmetic on bytes and words -----

/// `x` reduced into the 16-bit range.
pub open spec fn wrap16(x: int) -> u16 {
    (x % 0x10000) as u16
}

/// `x` reduced into the 8-bit range.
pub open spec fn wrap8(x: int) -> u8 {
    (x % 0x100) as u8
}

/// The little-endian word made of `lo` and `hi`.
pub open spec fn word(lo: u8, hi: u8) -> u16 {
    (hi * 0x100 + lo) as u16
}

/// The high byte of a word.
pub open spec fn hi_byte(w: u16) -> u8 {
    (w / 0x100) as u8
}

/// The low byte of a word.
pub open spec fn lo_byte(w: u16) -> u8 {
    (w % 0x100) as u8
}

/// The page (high byte) that an address lies in.
pub open spec fn page(w: u16) -> int {
    w as int / 0x100
}

/// The relative displacement `d` sign-extended to 16 bits.
pub open spec fn sign_extend(d: u8) -> u16 {
    if d >= 0x80 {
        (d + 0xFF00) as u16
    } else {
        d as u16
    }
}

/// Bit 7 of a byte.
pub open spec fn negative(v: u8) -> bool {
    v >= 0x80
}

/// The status byte with Z and N set from the result `v`.
pub open spec fn set_zn(status: u8, v: u8) -> u8 {
    with_flag(with_flag(status, StatusRegFlags::Z, v == 0), StatusRegFlags::N, negative(v))
}

/// A status byte as it is pushed: B as given, U set.
pub open spec fn pushed_status(status: u8, brk: bool) -> u8 {
    with_flag(with_flag(status, StatusRegFlags::B, brk), StatusRegFlags::U, true)
}

/// A status byte as it is pulled: U set, B clear.
pub open spec fn pulled_status(v: u8) -> u8 {
    with_flag(with_flag(v, StatusRegFlags::U, true), StatusRegFlags::B, false)
}

/// The carry flag as the number 0 or 1.
pub open spec fn carry_in(status: u8) -> int {
    if flag_set(status, StatusRegFlags::C) {
        1
    } else {
        0
    }
}

/// The full sum computed by ADC.
pub open spec fn adc_sum(a: u8, m: u8, status: u8) -> int {
    a + m + carry_in(status)
}

/// Whether adding two bytes of one sign gave a result of the other sign.
pub open spec fn signed_overflow(a: u8, m: u8, r: u8) -> bool {
    negative(a) == negative(m) && negative(r) != negative(a)
}

/// The accumulator after ADC of `m` into `a`.
pub open spec fn adc_result(a: u8, m: u8, status: u8) -> u8 {
    wrap8(adc_sum(a, m, status))
}

/// The status after ADC of `m` into `a`: C, Z, V and N from the sum.
pub open spec fn adc_status(a: u8, m: u8, status: u8) -> u8 {
    let sum = adc_sum(a, m, status);
    let r = wrap8(sum);
    with_flag(
        with_flag(
            with_flag(with_flag(status, StatusRegFlags::C, sum > 255), StatusRegFlags::Z, r == 0),
            StatusRegFlags::V,
            signed_overflow(a, m, r),
        ),
        StatusRegFlags::N,
        negative(r),
    )
}

/// The one's complement of a byte, which SBC adds in place of its operand.
pub open spec fn complement(m: u8) -> u8 {
    (0xFF - m) as u8
}

// ----- state helpers -----

/// The byte at address `a`.
pub open spec fn byte_at(s: CpuView, a: u16) -> u8 {
    s.mem[a as int]
}

/// The word stored little-endian at `a` and the address after it.
pub open spec fn word_at(s: CpuView, a: u16) -> u16 {
    word(byte_at(s, a), byte_at(s, wrap16(a + 1)))
}

/// `s` with `v` stored at address `a`.
pub open spec fn store(s: CpuView, a: u16, v: u8) -> CpuView {
    CpuView { mem: s.mem.update(a as int, v), ..s }
}

/// `s` with new registers.
pub open spec fn with_regs(s: CpuView, r: Registers) -> CpuView {
    CpuView { regs: r, ..s }
}

/// `s` with a new status byte.
pub open spec fn with_status(s: CpuView, status: u8) -> CpuView {
    with_regs(s, Registers { status, ..s.regs })
}

/// `s` with a new program counter.
pub open spec fn with_pc(s: CpuView, pc: u16) -> CpuView {
    with_regs(s, Registers { pc, ..s.regs })
}

/// Whether flag `f` is set in `s`.
pub open spec fn flag(s: CpuView, f: StatusRegFlags) -> bool {
    flag_set(s.regs.status, f)
}

/// Pushes `v`: write at `0x0100 + sp`, then decrement `sp`.
pub open spec fn push_spec(s: CpuView, v: u8) -> CpuView {
    CpuView {
        mem: s.mem.update(STACK_BASE + s.regs.sp, v),
        regs: Registers { sp: wrap8(s.regs.sp - 1), ..s.regs },
        ..s
    }
}

/// Pulls a byte: increment `sp`, then read at `0x0100 + sp`.
pub open spec fn pull_spec(s: CpuView) -> (CpuView, u8) {
    let sp = wrap8(s.regs.sp + 1);
    (with_regs(s, Registers { sp, ..s.regs }), s.mem[STACK_BASE + sp])
}

// ----- addressing modes -----
// Each starts with PC at the first operand byte and yields the new state
// and 1 where a page crossing may cost one more cycle.

/// The state after consuming `n` operand bytes.
pub open spec fn advance(s: CpuView, n: int) -> CpuView {
    with_pc(s, wrap16(s.regs.pc + n))
}

/// Effective address `ea` with PC advanced by `n`.
pub open spec fn at_address(s: CpuView, n: int, ea: u16) -> CpuView {
    CpuView { addr_abs: ea, ..advance(s, n) }
}

/// The two operand bytes at PC as a word.
pub open spec fn operand_word(s: CpuView) -> u16 {
    word_at(s, s.regs.pc)
}

/// Implied: the operand is the accumulator.
pub open spec fn imp_spec(s: CpuView) -> (CpuView, u8) {
    (with_regs(s, Registers { fetched: s.regs.a, ..s.regs }), 0)
}

/// Immediate: the operand is the byte at PC.
pub open spec fn imm_spec(s: CpuView) -> (CpuView, u8) {
    (at_address(s, 1, s.regs.pc), 0)
}

/// Zero page, optionally indexed by `index`, wrapping within page zero.
pub open spec fn zp_spec(s: CpuView, index: u8) -> (CpuView, u8) {
    (at_address(s, 1, wrap8(byte_at(s, s.regs.pc) + index) as u16), 0)
}

/// Absolute, optionally indexed by `index`; 1 when the index crosses a page.
pub open spec fn abs_spec(s: CpuView, index: u8) -> (CpuView, u8) {
    let base = operand_word(s);
    let ea = wrap16(base + index);
    (at_address(s, 2, ea), if page(ea) != page(base) { 1 } else { 0 })
}

/// Relative: the displacement at PC, sign-extended.
pub open spec fn rel_spec(s: CpuView) -> (CpuView, u8) {
    (CpuView { addr_rel: sign_extend(byte_at(s, s.regs.pc)), ..advance(s, 1) }, 0)
}

/// Indirect: the word at the pointer, where a pointer ending in `0xFF` takes
/// its high byte from the start of the same page.
pub open spec fn ind_spec(s: CpuView) -> (CpuView, u8) {
    let ptr = operand_word(s);
    let hi_addr = if lo_byte(ptr) == 0xFF { word(0, hi_byte(ptr)) } else { wrap16(ptr + 1) };
    (at_address(s, 2, word(byte_at(s, ptr), byte_at(s, hi_addr))), 0)
}

/// Indexed indirect: the word in page zero at the operand plus X.
pub open spec fn izx_spec(s: CpuView) -> (CpuView, u8) {
    let t = byte_at(s, s.regs.pc) + s.regs.x;
    let ea = word(byte_at(s, wrap8(t) as u16), byte_at(s, wrap8(t + 1) as u16));
    (at_address(s, 1, ea), 0)
}

/// Indirect indexed: the word in page zero at the operand, plus Y; 1 when Y
/// crosses a page.
pub open spec fn izy_spec(s: CpuView) -> (CpuView, u8) {
    let t = byte_at(s, s.regs.pc);
    let base = word(byte_at(s, t as u16), byte_at(s, wrap8(t + 1) as u16));
    let ea = wrap16(base + s.regs.y);
    (at_address(s, 1, ea), if page(ea) != page(base) { 1 } else { 0 })
}

/// The addressing mode `m` applied to `s`.
pub open spec fn resolve_spec(s: CpuView, m: AddrMode) -> (CpuView, u8) {
    match m {
        AddrMode::IMP => imp_spec(s),
        AddrMode::IMM => imm_spec(s),
        AddrMode::ZP0 => zp_spec(s, 0),
        AddrMode::ZPX => zp_spec(s, s.regs.x),
        AddrMode::ZPY => zp_spec(s, s.regs.y),
        AddrMode::REL => rel_spec(s),
        AddrMode::ABS => abs_spec(s, 0),
        AddrMode::ABX => abs_spec(s, s.regs.x),
        AddrMode::ABY => abs_spec(s, s.regs.y),
        AddrMode::IND => ind_spec(s),
        AddrMode::IZX => izx_spec(s),
        AddrMode::IZY => izy_spec(s),
    }
}

// ----- instructions -----
// Each starts after addressing and yields the new state and 1 where the
// instruction takes the page-crossing cycle of its addressing mode.

/// The operand: the accumulator in implied mode, else the byte at `addr_abs`.
pub open spec fn fetched_value(s: CpuView) -> u8 {
    if s.mode == AddrMode::IMP {
        s.regs.fetched
    } else {
        byte_at(s, s.addr_abs)
    }
}

/// `s` with the operand latched into `fetched`.
pub open spec fn fetch_spec(s: CpuView) -> CpuView {
    with_regs(s, Registers { fetched: fetched_value(s), ..s.regs })
}

/// Adds `m` and the carry into the accumulator, setting C, Z, V and N.
pub open spec fn add_spec(s: CpuView, m: u8) -> CpuView {
    with_regs(
        s,
        Registers {
            a: adc_result(s.regs.a, m, s.regs.status),
            status: adc_status(s.regs.a, m, s.regs.status),
            ..s.regs
        },
    )
}

/// `s` with accumulator `v` and Z, N set from it.
pub open spec fn load_a(s: CpuView, v: u8) -> CpuView {
    with_regs(s, Registers { a: v, status: set_zn(s.regs.status, v), ..s.regs })
}

/// `s` with X set to `v` and Z, N set from it.
pub open spec fn load_x(s: CpuView, v: u8) -> CpuView {
    with_regs(s, Registers { x: v, status: set_zn(s.regs.status, v), ..s.regs })
}

/// `s` with Y set to `v` and Z, N set from it.
pub open spec fn load_y(s: CpuView, v: u8) -> CpuView {
    with_regs(s, Registers { y: v, status: set_zn(s.regs.status, v), ..s.regs })
}

/// Compares register value `r` with the operand: C when `r >= m`, Z when
/// equal, N from bit 7 of the difference; the difference is kept in `addr_temp`.
pub open spec fn compare_spec(s: CpuView, r: u8) -> CpuView {
    let t = fetch_spec(s);
    let m = t.regs.fetched;
    let diff = wrap16(r - m);
    let st = with_flag(
        with_flag(with_flag(t.regs.status, StatusRegFlags::C, r >= m), StatusRegFlags::Z, diff % 0x100 == 0),
        StatusRegFlags::N,
        diff % 0x100 >= 0x80,
    );
    CpuView { addr_temp: diff, ..with_status(t, st) }
}

/// Writes the result of a shift or rotate back: to the accumulator in implied
/// mode, else to memory at `addr_abs`; Z and N are set from it and C to `carry`.
pub open spec fn write_back(s: CpuView, r: u8, carry: bool) -> CpuView {
    let t = with_status(s, set_zn(with_flag(s.regs.status, StatusRegFlags::C, carry), r));
    if s.mode == AddrMode::IMP {
        with_regs(t, Registers { a: r, ..t.regs })
    } else {
        store(t, s.addr_abs, r)
    }
}

/// Stores the result of a memory increment or decrement and sets Z and N.
pub open spec fn modify_spec(s: CpuView, r: u8) -> CpuView {
    store(with_status(s, set_zn(s.regs.status, r)), s.addr_abs, r)
}

/// Branches to `pc + addr_rel` when `cond` holds: one more cycle, and another
/// when the target lies in another page.
pub open spec fn branch_spec(s: CpuView, cond: bool) -> CpuView {
    if cond {
        let target = wrap16(s.regs.pc + s.addr_rel);
        let extra: u8 = if page(target) != page(s.regs.pc) { 2 } else { 1 };
        CpuView { addr_abs: target, cycles: (s.cycles + extra) as u8, ..with_pc(s, target) }
    } else {
        s
    }
}

/// Interrupt entry: push PC and the status (with B as given, U set), set I,
/// and jump through `vector`.
pub open spec fn interrupt_spec(s: CpuView, vector: u16, brk: bool) -> CpuView {
    let s1 = push_spec(s, hi_byte(s.regs.pc));
    let s2 = push_spec(s1, lo_byte(s.regs.pc));
    let s3 = push_spec(s2, pushed_status(s.regs.status, brk));
    with_regs(
        s3,
        Registers {
            status: with_flag(s.regs.status, StatusRegFlags::I, true),
            pc: word_at(s3, vector),
            ..s3.regs
        },
    )
}

/// Jump to subroutine: push the address of the last operand byte, then jump.
pub open spec fn jsr_spec(s: CpuView) -> CpuView {
    let ret = wrap16(s.regs.pc - 1);
    with_pc(push_spec(push_spec(s, hi_byte(ret)), lo_byte(ret)), s.addr_abs)
}

/// Return from subroutine: pull the return address and step past it.
pub open spec fn rts_spec(s: CpuView) -> CpuView {
    let (s1, lo) = pull_spec(s);
    let (s2, hi) = pull_spec(s1);
    with_pc(s2, wrap16(word(lo, hi) + 1))
}

/// Return from interrupt: pull the status (U set, B clear), then PC.
pub open spec fn rti_spec(s: CpuView) -> CpuView {
    let (s1, st) = pull_spec(s);
    let (s2, lo) = pull_spec(s1);
    let (s3, hi) = pull_spec(s2);
    with_regs(s3, Registers { status: pulled_status(st), pc: word(lo, hi), ..s3.regs })
}

/// Shift left: C from bit 7.
pub open spec fn asl_spec(s: CpuView) -> CpuView {
    let t = fetch_spec(s);
    let v = t.regs.fetched;
    write_back(t, wrap8(v * 2), v >= 0x80)
}

/// Shift right: C from bit 0.
pub open spec fn lsr_spec(s: CpuView) -> CpuView {
    let t = fetch_spec(s);
    let v = t.regs.fetched;
    write_back(t, v / 2, v % 2 == 1)
}

/// Rotate left through carry: C enters bit 0, bit 7 leaves into C.
pub open spec fn rol_spec(s: CpuView) -> CpuView {
    let t = fetch_spec(s);
    let v = t.regs.fetched;
    write_back(t, wrap8(v * 2 + carry_in(t.regs.status)), v >= 0x80)
}

/// Rotate right through carry: C enters bit 7, bit 0 leaves into C.
pub open spec fn ror_spec(s: CpuView) -> CpuView {
    let t = fetch_spec(s);
    let v = t.regs.fetched;
    write_back(t, (v / 2 + 0x80 * carry_in(t.regs.status)) as u8, v % 2 == 1)
}

/// BIT: Z from `A & operand`, N and V from bits 7 and 6 of the operand.
pub open spec fn bit_spec(s: CpuView) -> CpuView {
    let t = fetch_spec(s);
    let v = t.regs.fetched;
    let r = t.regs.a & v;
    let st = with_flag(
        with_flag(with_flag(t.regs.status, StatusRegFlags::Z, r == 0), StatusRegFlags::N, negative(v)),
        StatusRegFlags::V,
        v % 0x80 >= 0x40,
    );
    CpuView { addr_temp: r as u16, ..with_status(t, st) }
}

/// Whether branch instruction `i` is taken under status `status`.
pub open spec fn branch_taken(i: Instr, status: u8) -> bool {
    match i {
        Instr::BCC => !flag_set(status, StatusRegFlags::C),
        Instr::BCS => flag_set(status, StatusRegFlags::C),
        Instr::BEQ => flag_set(status, StatusRegFlags::Z),
        Instr::BNE => !flag_set(status, StatusRegFlags::Z),
        Instr::BMI => flag_set(status, StatusRegFlags::N),
        Instr::BPL => !flag_set(status, StatusRegFlags::N),
        Instr::BVC => !flag_set(status, StatusRegFlags::V),
        Instr::BVS => flag_set(status, StatusRegFlags::V),
        _ => false,
    }
}

/// The effect of instruction `i` on `s`, and whether it takes the
/// page-crossing cycle.
pub open spec fn instr_spec(s: CpuView, i: Instr) -> (CpuView, u8) {
    let f = fetch_spec(s);
    let v = f.regs.fetched;
    match i {
        Instr::ADC => (add_spec(f, v), 1),
        Instr::SBC => (add_spec(f, complement(v)), 1),
        Instr::AND => (load_a(f, f.regs.a & v), 1),
        Instr::EOR => (load_a(f, f.regs.a ^ v), 1),
        Instr::ORA => (load_a(f, f.regs.a | v), 1),
        Instr::ASL => (asl_spec(s), 0),
        Instr::LSR => (lsr_spec(s), 0),
        Instr::ROL => (rol_spec(s), 0),
        Instr::ROR => (ror_spec(s), 0),
        Instr::BCC | Instr::BCS | Instr::BEQ | Instr::BNE | Instr::BMI | Instr::BPL | Instr::BVC
        | Instr::BVS => (branch_spec(s, branch_taken(i, s.regs.status)), 0),
        Instr::BIT => (bit_spec(s), 0),
        Instr::BRK => (interrupt_spec(s, IRQ_VECTOR, true), 0),
        Instr::CLC => (with_status(s, with_flag(s.regs.status, StatusRegFlags::C, false)), 0),
        Instr::CLD => (with_status(s, with_flag(s.regs.status, StatusRegFlags::D, false)), 0),
        Instr::CLI => (with_status(s, with_flag(s.regs.status, StatusRegFlags::I, false)), 0),
        Instr::CLV => (with_status(s, with_flag(s.regs.status, StatusRegFlags::V, false)), 0),
        Instr::SEC => (with_status(s, with_flag(s.regs.status, StatusRegFlags::C, true)), 0),
        Instr::SED => (with_status(s, with_flag(s.regs.status, StatusRegFlags::D, true)), 0),
        Instr::SEI => (with_status(s, with_flag(s.regs.status, StatusRegFlags::I, true)), 0),
        Instr::CMP => (compare_spec(s, s.regs.a), 1),
        Instr::CPX => (compare_spec(s, s.regs.x), 0),
        Instr::CPY => (compare_spec(s, s.regs.y), 0),
        Instr::DEC => (modify_spec(f, wrap8(v - 1)), 0),
        Instr::INC => (modify_spec(f, wrap8(v + 1)), 0),
        Instr::DEX => (load_x(s, wrap8(s.regs.x - 1)), 0),
        Instr::DEY => (load_y(s, wrap8(s.regs.y - 1)), 0),
        Instr::INX => (load_x(s, wrap8(s.regs.x + 1)), 0),
        Instr::INY => (load_y(s, wrap8(s.regs.y + 1)), 0),
        Instr::JMP => (with_pc(s, s.addr_abs), 0),
        Instr::JSR => (jsr_spec(s), 0),
        Instr::RTS => (rts_spec(s), 0),
        Instr::RTI => (rti_spec(s), 0),
        Instr::LDA => (load_a(f, v), 1),
        Instr::LDX => (load_x(f, v), 1),
        Instr::LDY => (load_y(f, v), 1),
        Instr::PHA => (push_spec(s, s.regs.a), 0),
        Instr::PHP => (push_spec(s, pushed_status(s.regs.status, true)), 0),
        Instr::PLA => {
            let (t, v) = pull_spec(s);
            (load_a(t, v), 0)
        },
        Instr::PLP => {
            let (t, v) = pull_spec(s);
            (with_status(t, pulled_status(v)), 0)
        },
        Instr::STA => (store(s, s.addr_abs, s.regs.a), 0),
        Instr::STX => (store(s, s.addr_abs, s.regs.x), 0),
        Instr::STY => (store(s, s.addr_abs, s.regs.y), 0),
        Instr::TAX => (load_x(s, s.regs.a), 0),
        Instr::TAY => (load_y(s, s.regs.a), 0),
        Instr::TSX => (load_x(s, s.regs.sp), 0),
        Instr::TXA => (load_a(s, s.regs.x), 0),
        Instr::TYA => (load_a(s, s.regs.y), 0),
        Instr::TXS => (with_regs(s, Registers { sp: s.regs.x, ..s.regs }), 0),
        Instr::NOP | Instr::XXX => (s, 0),
    }
}

// ----- the driver -----

/// Decodes and runs `opcode`, PC already past it: the mode is resolved, the
/// instruction run, and `cycles` left at the instruction's cost less the
/// current tick.
#[verifier::opaque]
pub open spec fn execute_spec(s: CpuView, opcode: u8) -> CpuView {
    let e = opcode_entry(opcode);
    let s1 = CpuView { mode: e.mode, cycles: e.cycles, ..s };
    let (s2, mode_extra) = resolve_spec(s1, e.mode);
    let (s3, instr_extra) = instr_spec(s2, e.instr);
    let extra: u8 = if mode_extra == 1 && instr_extra == 1 { 1 } else { 0 };
    CpuView { cycles: (s3.cycles + extra - 1) as u8, ..s3 }
}

/// The work done at an instruction boundary: a pending NMI, else a pending
/// IRQ while I is clear, else the next instruction.
pub open spec fn boundary_spec(s: CpuView) -> CpuView {
    if s.nmi_pending {
        let t = interrupt_spec(CpuView { nmi_pending: false, ..s }, NMI_VECTOR, false);
        CpuView { cycles: (NMI_CYCLES - 1) as u8, ..t }
    } else if s.irq_pending && !flag(s, StatusRegFlags::I) {
        let t = interrupt_spec(CpuView { irq_pending: false, ..s }, IRQ_VECTOR, false);
        CpuView { cycles: (IRQ_CYCLES - 1) as u8, ..t }
    } else {
        let t = CpuView { irq_pending: false, ..s };
        execute_spec(with_pc(t, wrap16(s.regs.pc + 1)), byte_at(s, s.regs.pc))
    }
}

/// One clock tick: at a boundary the work above, else one cycle less to wait;
/// the tick is counted either way.
pub open spec fn clock_spec(s: CpuView) -> CpuView {
    let t = if s.cycles == 0 {
        boundary_spec(s)
    } else {
        CpuView { cycles: (s.cycles - 1) as u8, ..s }
    };
    CpuView { total_cycles: wrap64(s.total_cycles + 1), ..t }
}

/// `x` reduced into the 64-bit range.
pub open spec fn wrap64(x: int) -> u64 {
    (x % 0x1_0000_0000_0000_0000) as u64
}

/// The reset sequence: registers cleared, SP at `0xFD`, status with only U
/// set, PC from the reset vector, scratch state cleared, eight cycles to wait.
pub open spec fn reset_spec(s: CpuView) -> CpuView {
    CpuView {
        regs: Registers {
            a: 0,
            x: 0,
            y: 0,
            sp: 0xFD,
            status: with_flag(0, StatusRegFlags::U, true),
            fetched: 0,
            pc: word_at(s, RESET_VECTOR),
        },
        addr_abs: 0,
        addr_rel: 0,
        addr_temp: 0,
        cycles: RESET_CYCLES,
        irq_pending: false,
        nmi_pending: false,
        ..s
    }
}

/// A maskable interrupt request: ignored while I is set; taken at once at an
/// instruction boundary; otherwise held until the next boundary.
pub open spec fn irq_spec(s: CpuView) -> CpuView {
    if flag(s, StatusRegFlags::I) {
        s
    } else if s.cycles == 0 {
        CpuView { cycles: IRQ_CYCLES, ..interrupt_spec(s, IRQ_VECTOR, false) }
    } else {
        CpuView { irq_pending: true, ..s }
    }
}

/// A non-maskable interrupt: taken at once at an instruction boundary,
/// otherwise held until the next boundary.
pub open spec fn nmi_spec(s: CpuView) -> CpuView {
    if s.cycles == 0 {
        CpuView { cycles: NMI_CYCLES, ..interrupt_spec(s, NMI_VECTOR, false) }
    } else {
        CpuView { nmi_pending: true, ..s }
    }
}

/// `wrapping_add` and `wrapping_sub` on bytes and words agree with `wrap8` and
/// `wrap16`.
pub proof fn lemma_wrapping(a: u8, b: u8, w: u16, k: u16)
    ensures
        a.wrapping_add(b) == wrap8(a + b),
        a.wrapping_sub(b) == wrap8(a - b),
        w.wrapping_add(k) == wrap16(w + k),
        w.wrapping_sub(k) == wrap16(w - k),
{
}

/// Addressing leaves the cycle count and mode alone, owes at most one cycle,
/// and moves PC past the operand bytes.
pub proof fn lemma_resolve_bounds(s: CpuView, m: AddrMode)
    ensures
        resolve_spec(s, m).0.cycles == s.cycles,
        resolve_spec(s, m).0.mode == s.mode,
        resolve_spec(s, m).0.regs.status == s.regs.status,
        resolve_spec(s, m).1 <= 1,
        resolve_spec(s, m).0.regs.pc == wrap16(s.regs.pc + operand_len(m)),
{
}

/// An instruction adds at most two cycles (a taken branch into another page),
/// and none unless it branches; it asks for the page-crossing cycle exactly
/// when the table says so; unless it transfers control it leaves PC alone, and
/// a branch that is not taken changes nothing.
pub proof fn lemma_instr_bounds(s: CpuView, i: Instr)
    requires
        s.cycles <= 253,
    ensures
        s.cycles <= instr_spec(s, i).0.cycles <= s.cycles + 2,
        !is_branch(i) ==> instr_spec(s, i).0.cycles == s.cycles,
        instr_spec(s, i).1 == if pays_page_penalty(i) { 1u8 } else { 0u8 },
        !transfers_control(i) ==> instr_spec(s, i).0.regs.pc == s.regs.pc,
        is_branch(i) && !branch_taken(i, s.regs.status) ==> instr_spec(s, i).0 == s,
{
}

} // verus!
