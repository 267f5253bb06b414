use vstd::prelude::*;
use crate::cpu::CPU;
use crate::flags::StatusRegFlags;
use crate::model::{
    IRQ_VECTOR, add_spec, branch_spec, compare_spec, instr_spec, lemma_wrapping, load_a, load_x,
    load_y, modify_spec, set_zn, with_status, write_back,
};
use crate::opcode_table::{AddrMode, Instr};

verus! {

#[allow(non_snake_case)]
impl CPU {
    /// Adds `m` and the carry into the accumulator, setting C, Z, V and N.
    fn add_with_carry(&mut self, m: u8)
        ensures
            final(self)@ == add_spec(old(self)@, m),
    {
        let a = self.registers.a;
        let c: u16 = if self.registers.get_flag(StatusRegFlags::C) { 1 } else { 0 };
        let sum: u16 = a as u16 + m as u16 + c;
        let r = (sum % 0x100) as u8;
        self.registers.set_flag(StatusRegFlags::C, sum > 255);
        self.registers.set_flag(StatusRegFlags::Z, r == 0);
        self.registers.set_flag(
            StatusRegFlags::V,
            (a >= 0x80) == (m >= 0x80) && (r >= 0x80) != (a >= 0x80),
        );
        self.registers.set_flag(StatusRegFlags::N, r >= 0x80);
        self.registers.a = r;
    }

    /// Sets the accumulator and Z, N from it.
    fn set_a(&mut self, v: u8)
        ensures
            final(self)@ == load_a(old(self)@, v),
    {
        self.registers.a = v;
        self.set_zn(v);
    }

    /// Sets X and Z, N from it.
    fn set_x(&mut self, v: u8)
        ensures
            final(self)@ == load_x(old(self)@, v),
    {
        self.registers.x = v;
        self.set_zn(v);
    }

    /// Sets Y and Z, N from it.
    fn set_y(&mut self, v: u8)
        ensures
            final(self)@ == load_y(old(self)@, v),
    {
        self.registers.y = v;
        self.set_zn(v);
    }

    /// Sets Z and N from the result `v`.
    fn set_zn(&mut self, v: u8)
        ensures
            final(self)@ == with_status(old(self)@, set_zn(old(self).registers.status, v)),
    {
        self.registers.set_flag(StatusRegFlags::Z, v == 0);
        self.registers.set_flag(StatusRegFlags::N, v >= 0x80);
    }

    /// Writes a shift or rotate result back and sets C, Z and N.
    fn write_back(&mut self, r: u8, carry: bool)
        ensures
            final(self)@ == write_back(old(self)@, r, carry),
    {
        self.registers.set_flag(StatusRegFlags::C, carry);
        self.set_zn(r);
        if self.mode == AddrMode::IMP {
            self.registers.a = r;
        } else {
            self.write(self.addr_abs, r);
        }
    }

    /// Stores an incremented or decremented operand and sets Z and N.
    fn modify(&mut self, r: u8)
        ensures
            final(self)@ == modify_spec(old(self)@, r),
    {
        self.set_zn(r);
        self.write(self.addr_abs, r);
    }

    /// Compares register value `r` with the operand.
    fn compare(&mut self, r: u8)
        ensures
            final(self)@ == compare_spec(old(self)@, r),
    {
        let m = self.fetch();
        let diff = (r as u16).wrapping_sub(m as u16);
        self.addr_temp = diff;
        self.registers.set_flag(StatusRegFlags::C, r >= m);
        self.registers.set_flag(StatusRegFlags::Z, diff % 0x100 == 0);
        self.registers.set_flag(StatusRegFlags::N, diff % 0x100 >= 0x80);
    }

    /// Takes the branch when `cond` holds.
    fn branch(&mut self, cond: bool)
        requires
            old(self).cycles <= 253,
        ensures
            final(self)@ == branch_spec(old(self)@, cond),
    {
        if cond {
            let pc = self.registers.pc;
            let target = pc.wrapping_add(self.addr_rel);
            self.cycles = self.cycles + 1;
            if target / 0x100 != pc / 0x100 {
                self.cycles = self.cycles + 1;
            }
            self.addr_abs = target;
            self.registers.pc = target;
        }
    }

    /// Add with carry: `A + M + C`.
    pub fn ADC(&mut self) -> (r: u8)
        ensures
            (final(self)@, r) == instr_spec(old(self)@, Instr::ADC),
    {
        let m = self.fetch();
        self.add_with_carry(m);
        1
    }

    /// Subtract with borrow: ADC of the operand's one's complement.
    pub fn SBC(&mut self) -> (r: u8)
        ensures
            (final(self)@, r) == instr_spec(old(self)@, Instr::SBC),
    {
        let m = self.fetch();
        self.add_with_carry(0xFF - m);
        1
    }

    /// Bitwise AND into the accumulator.
    pub fn AND(&mut self) -> (r: u8)
        ensures
            (final(self)@, r) == instr_spec(old(self)@, Instr::AND),
    {
        let m = self.fetch();
        let r = self.registers.a & m;
        self.set_a(r);
        1
    }

    /// Bitwise exclusive OR into the accumulator.
    pub fn EOR(&mut self) -> (r: u8)
        ensures
            (final(self)@, r) == instr_spec(old(self)@, Instr::EOR),
    {
        let m = self.fetch();
        let r = self.registers.a ^ m;
        self.set_a(r);
        1
    }

    /// Bitwise OR into the accumulator.
    pub fn ORA(&mut self) -> (r: u8)
        ensures
            (final(self)@, r) == instr_spec(old(self)@, Instr::ORA),
    {
        let m = self.fetch();
        let r = self.registers.a | m;
        self.set_a(r);
        1
    }

    /// Arithmetic shift left; C receives bit 7.
    pub fn ASL(&mut self) -> (r: u8)
        ensures
            (final(self)@, r) == instr_spec(old(self)@, Instr::ASL),
    {
        let v = self.fetch();
        let r = (v as u16 * 2 % 0x100) as u8;
        self.write_back(r, v >= 0x80);
        0
    }

    /// Logical shift right; C receives bit 0.
    pub fn LSR(&mut self) -> (r: u8)
        ensures
            (final(self)@, r) == instr_spec(old(self)@, Instr::LSR),
    {
        let v = self.fetch();
        self.write_back(v / 2, v % 2 == 1);
        0
    }

    /// Rotate left through carry.
    pub fn ROL(&mut self) -> (r: u8)
        ensures
            (final(self)@, r) == instr_spec(old(self)@, Instr::ROL),
    {
        let v = self.fetch();
        let c: u16 = if self.registers.get_flag(StatusRegFlags::C) { 1 } else { 0 };
        let r = ((v as u16 * 2 + c) % 0x100) as u8;
        self.write_back(r, v >= 0x80);
        0
    }

    /// Rotate right through carry.
    pub fn ROR(&mut self) -> (r: u8)
        ensures
            (final(self)@, r) == instr_spec(old(self)@, Instr::ROR),
    {
        let v = self.fetch();
        let c: u8 = if self.registers.get_flag(StatusRegFlags::C) { 0x80 } else { 0 };
        self.write_back(v / 2 + c, v % 2 == 1);
        0
    }

    /// Branch if carry clear.
    pub fn BCC(&mut self) -> (r: u8)
        requires
            old(self).cycles <= 253,
        ensures
            (final(self)@, r) == instr_spec(old(self)@, Instr::BCC),
    {
        let cond = !self.registers.get_flag(StatusRegFlags::C);
        self.branch(cond);
        0
    }

    /// Branch if carry set.
    pub fn BCS(&mut self) -> (r: u8)
        requires
            old(self).cycles <= 253,
        ensures
            (final(self)@, r) == instr_spec(old(self)@, Instr::BCS),
    {
        let cond = self.registers.get_flag(StatusRegFlags::C);
        self.branch(cond);
        0
    }

    /// Branch if equal (Z set).
    pub fn BEQ(&mut self) -> (r: u8)
        requires
            old(self).cycles <= 253,
        ensures
            (final(self)@, r) == instr_spec(old(self)@, Instr::BEQ),
    {
        let cond = self.registers.get_flag(StatusRegFlags::Z);
        self.branch(cond);
        0
    }

    /// Branch if not equal (Z clear).
    pub fn BNE(&mut self) -> (r: u8)
        requires
            old(self).cycles <= 253,
        ensures
            (final(self)@, r) == instr_spec(old(self)@, Instr::BNE),
    {
        let cond = !self.registers.get_flag(StatusRegFlags::Z);
        self.branch(cond);
        0
    }

    /// Branch if minus (N set).
    pub fn BMI(&mut self) -> (r: u8)
        requires
            old(self).cycles <= 253,
        ensures
            (final(self)@, r) == instr_spec(old(self)@, Instr::BMI),
    {
        let cond = self.registers.get_flag(StatusRegFlags::N);
        self.branch(cond);
        0
    }

    /// Branch if plus (N clear).
    pub fn BPL(&mut self) -> (r: u8)
        requires
            old(self).cycles <= 253,
        ensures
            (final(self)@, r) == instr_spec(old(self)@, Instr::BPL),
    {
        let cond = !self.registers.get_flag(StatusRegFlags::N);
        self.branch(cond);
        0
    }

    /// Branch if overflow clear.
    pub fn BVC(&mut self) -> (r: u8)
        requires
            old(self).cycles <= 253,
        ensures
            (final(self)@, r) == instr_spec(old(self)@, Instr::BVC),
    {
        let cond = !self.registers.get_flag(StatusRegFlags::V);
        self.branch(cond);
        0
    }

    /// Branch if overflow set.
    pub fn BVS(&mut self) -> (r: u8)
        requires
            old(self).cycles <= 253,
        ensures
            (final(self)@, r) == instr_spec(old(self)@, Instr::BVS),
    {
        let cond = self.registers.get_flag(StatusRegFlags::V);
        self.branch(cond);
        0
    }

    /// Bit test: Z from `A & M`, N and V from bits 7 and 6 of M.
    pub fn BIT(&mut self) -> (r: u8)
        ensures
            (final(self)@, r) == instr_spec(old(self)@, Instr::BIT),
    {
        let v = self.fetch();
        let r = self.registers.a & v;
        self.addr_temp = r as u16;
        self.registers.set_flag(StatusRegFlags::Z, r == 0);
        self.registers.set_flag(StatusRegFlags::N, v >= 0x80);
        self.registers.set_flag(StatusRegFlags::V, v % 0x80 >= 0x40);
        0
    }

    /// Break: a software interrupt through the IRQ vector with B set in the pushed status.
    pub fn BRK(&mut self) -> (r: u8)
        ensures
            (final(self)@, r) == instr_spec(old(self)@, Instr::BRK),
    {
        self.interrupt(IRQ_VECTOR, true);
        0
    }

    /// Clear carry.
    pub fn CLC(&mut self) -> (r: u8)
        ensures
            (final(self)@, r) == instr_spec(old(self)@, Instr::CLC),
    {
        self.registers.set_flag(StatusRegFlags::C, false);
        0
    }

    /// Clear decimal mode.
    pub fn CDC(&mut self) -> (r: u8)
        ensures
            (final(self)@, r) == instr_spec(old(self)@, Instr::CLD),
    {
        self.registers.set_flag(StatusRegFlags::D, false);
        0
    }

    /// Clear interrupt disable.
    pub fn CLI(&mut self) -> (r: u8)
        ensures
            (final(self)@, r) == instr_spec(old(self)@, Instr::CLI),
    {
        self.registers.set_flag(StatusRegFlags::I, false);
        0
    }

    /// Clear overflow.
    pub fn CLV(&mut self) -> (r: u8)
        ensures
            (final(self)@, r) == instr_spec(old(self)@, Instr::CLV),
    {
        self.registers.set_flag(StatusRegFlags::V, false);
        0
    }

    /// Set carry.
    pub fn SEC(&mut self) -> (r: u8)
        ensures
            (final(self)@, r) == instr_spec(old(self)@, Instr::SEC),
    {
        self.registers.set_flag(StatusRegFlags::C, true);
        0
    }

    /// Set decimal mode.
    pub fn SED(&mut self) -> (r: u8)
        ensures
            (final(self)@, r) == instr_spec(old(self)@, Instr::SED),
    {
        self.registers.set_flag(StatusRegFlags::D, true);
        0
    }

    /// Set interrupt disable.
    pub fn SEI(&mut self) -> (r: u8)
        ensures
            (final(self)@, r) == instr_spec(old(self)@, Instr::SEI),
    {
        self.registers.set_flag(StatusRegFlags::I, true);
        0
    }

    /// Compare with the accumulator.
    pub fn CMP(&mut self) -> (r: u8)
        ensures
            (final(self)@, r) == instr_spec(old(self)@, Instr::CMP),
    {
        let a = self.registers.a;
        self.compare(a);
        1
    }

    /// Compare with X.
    pub fn CMX(&mut self) -> (r: u8)
        ensures
            (final(self)@, r) == instr_spec(old(self)@, Instr::CPX),
    {
        let x = self.registers.x;
        self.compare(x);
        0
    }

    /// Compare with Y.
    pub fn CMY(&mut self) -> (r: u8)
        ensures
            (final(self)@, r) == instr_spec(old(self)@, Instr::CPY),
    {
        let y = self.registers.y;
        self.compare(y);
        0
    }

    /// Decrement memory.
    pub fn DEC(&mut self) -> (r: u8)
        ensures
            (final(self)@, r) == instr_spec(old(self)@, Instr::DEC),
    {
        let v = self.fetch();
        proof { lemma_wrapping(v, 1, 0, 0); }
        self.modify(v.wrapping_sub(1));
        0
    }

    /// Increment memory.
    pub fn INC(&mut self) -> (r: u8)
        ensures
            (final(self)@, r) == instr_spec(old(self)@, Instr::INC),
    {
        let v = self.fetch();
        proof { lemma_wrapping(v, 1, 0, 0); }
        self.modify(v.wrapping_add(1));
        0
    }

    /// Decrement X.
    pub fn DEX(&mut self) -> (r: u8)
        ensures
            (final(self)@, r) == instr_spec(old(self)@, Instr::DEX),
    {
        let r = self.registers.x.wrapping_sub(1);
        proof { lemma_wrapping(self.registers.x, 1, 0, 0); }
        self.set_x(r);
        0
    }

    /// Decrement Y.
    pub fn DEY(&mut self) -> (r: u8)
        ensures
            (final(self)@, r) == instr_spec(old(self)@, Instr::DEY),
    {
        let r = self.registers.y.wrapping_sub(1);
        proof { lemma_wrapping(self.registers.y, 1, 0, 0); }
        self.set_y(r);
        0
    }

    /// Increment X (the INX instruction).
    pub fn INC_X(&mut self) -> (r: u8)
        ensures
            (final(self)@, r) == instr_spec(old(self)@, Instr::INX),
    {
        let r = self.registers.x.wrapping_add(1);
        proof { lemma_wrapping(self.registers.x, 1, 0, 0); }
        self.set_x(r);
        0
    }

    /// Increment Y (the INY instruction).
    pub fn INC_Y(&mut self) -> (r: u8)
        ensures
            (final(self)@, r) == instr_spec(old(self)@, Instr::INY),
    {
        let r = self.registers.y.wrapping_add(1);
        proof { lemma_wrapping(self.registers.y, 1, 0, 0); }
        self.set_y(r);
        0
    }

    /// Jump to the effective address.
    pub fn JMP(&mut self) -> (r: u8)
        ensures
            (final(self)@, r) == instr_spec(old(self)@, Instr::JMP),
    {
        self.registers.pc = self.addr_abs;
        0
    }

    /// Jump to subroutine, pushing the address of the last operand byte.
    pub fn JSR(&mut self) -> (r: u8)
        ensures
            (final(self)@, r) == instr_spec(old(self)@, Instr::JSR),
    {
        let ret = self.registers.pc.wrapping_sub(1);
        proof { lemma_wrapping(0, 0, self.registers.pc, 1); }
        self.push((ret / 0x100) as u8);
        self.push((ret % 0x100) as u8);
        self.registers.pc = self.addr_abs;
        0
    }

    /// Return from subroutine.
    pub fn RTS(&mut self) -> (r: u8)
        ensures
            (final(self)@, r) == instr_spec(old(self)@, Instr::RTS),
    {
        let lo = self.pull();
        let hi = self.pull();
        let ret = hi as u16 * 0x100 + lo as u16;
        proof { lemma_wrapping(0, 0, ret, 1); }
        self.registers.pc = ret.wrapping_add(1);
        0
    }

    /// Return from interrupt: status (U set, B clear), then PC.
    pub fn RTI(&mut self) -> (r: u8)
        ensures
            (final(self)@, r) == instr_spec(old(self)@, Instr::RTI),
    {
        let st = self.pull();
        self.registers.status = st;
        self.registers.set_flag(StatusRegFlags::U, true);
        self.registers.set_flag(StatusRegFlags::B, false);
        let lo = self.pull();
        let hi = self.pull();
        self.registers.pc = hi as u16 * 0x100 + lo as u16;
        0
    }

    /// Load the accumulator.
    pub fn LDA(&mut self) -> (r: u8)
        ensures
            (final(self)@, r) == instr_spec(old(self)@, Instr::LDA),
    {
        let v = self.fetch();
        self.set_a(v);
        1
    }

    /// Load X.
    pub fn LDX(&mut self) -> (r: u8)
        ensures
            (final(self)@, r) == instr_spec(old(self)@, Instr::LDX),
    {
        let v = self.fetch();
        self.set_x(v);
        1
    }

    /// Load Y.
    pub fn LDY(&mut self) -> (r: u8)
        ensures
            (final(self)@, r) == instr_spec(old(self)@, Instr::LDY),
    {
        let v = self.fetch();
        self.set_y(v);
        1
    }

    /// Push the accumulator.
    pub fn PHA(&mut self) -> (r: u8)
        ensures
            (final(self)@, r) == instr_spec(old(self)@, Instr::PHA),
    {
        let a = self.registers.a;
        self.push(a);
        0
    }

    /// Push the status with B and U set.
    pub fn PHP(&mut self) -> (r: u8)
        ensures
            (final(self)@, r) == instr_spec(old(self)@, Instr::PHP),
    {
        let mut pushed = self.registers;
        pushed.set_flag(StatusRegFlags::B, true);
        pushed.set_flag(StatusRegFlags::U, true);
        self.push(pushed.status);
        0
    }

    /// Pull the accumulator.
    pub fn PLA(&mut self) -> (r: u8)
        ensures
            (final(self)@, r) == instr_spec(old(self)@, Instr::PLA),
    {
        let v = self.pull();
        self.set_a(v);
        0
    }

    /// Pull the status, with U set and B clear.
    pub fn PLP(&mut self) -> (r: u8)
        ensures
            (final(self)@, r) == instr_spec(old(self)@, Instr::PLP),
    {
        let v = self.pull();
        self.registers.status = v;
        self.registers.set_flag(StatusRegFlags::U, true);
        self.registers.set_flag(StatusRegFlags::B, false);
        0
    }

    /// Store the accumulator.
    pub fn STA(&mut self) -> (r: u8)
        ensures
            (final(self)@, r) == instr_spec(old(self)@, Instr::STA),
    {
        let a = self.registers.a;
        self.write(self.addr_abs, a);
        0
    }

    /// Store X.
    pub fn STX(&mut self) -> (r: u8)
        ensures
            (final(self)@, r) == instr_spec(old(self)@, Instr::STX),
    {
        let x = self.registers.x;
        self.write(self.addr_abs, x);
        0
    }

    /// Store Y.
    pub fn STY(&mut self) -> (r: u8)
        ensures
            (final(self)@, r) == instr_spec(old(self)@, Instr::STY),
    {
        let y = self.registers.y;
        self.write(self.addr_abs, y);
        0
    }

    /// Transfer A to X.
    pub fn TAX(&mut self) -> (r: u8)
        ensures
            (final(self)@, r) == instr_spec(old(self)@, Instr::TAX),
    {
        let v = self.registers.a;
        self.set_x(v);
        0
    }

    /// Transfer A to Y.
    pub fn TAY(&mut self) -> (r: u8)
        ensures
            (final(self)@, r) == instr_spec(old(self)@, Instr::TAY),
    {
        let v = self.registers.a;
        self.set_y(v);
        0
    }

    /// Transfer SP to X.
    pub fn TSX(&mut self) -> (r: u8)
        ensures
            (final(self)@, r) == instr_spec(old(self)@, Instr::TSX),
    {
        let v = self.registers.sp;
        self.set_x(v);
        0
    }

    /// Transfer X to A.
    pub fn TXA(&mut self) -> (r: u8)
        ensures
            (final(self)@, r) == instr_spec(old(self)@, Instr::TXA),
    {
        let v = self.registers.x;
        self.set_a(v);
        0
    }

    /// Transfer Y to A.
    pub fn TYA(&mut self) -> (r: u8)
        ensures
            (final(self)@, r) == instr_spec(old(self)@, Instr::TYA),
    {
        let v = self.registers.y;
        self.set_a(v);
        0
    }

    /// Transfer X to SP; no flag changes.
    pub fn TXS(&mut self) -> (r: u8)
        ensures
            (final(self)@, r) == instr_spec(old(self)@, Instr::TXS),
    {
        self.registers.sp = self.registers.x;
        0
    }

    /// No operation.
    pub fn NOP(&mut self) -> (r: u8)
        ensures
            (final(self)@, r) == instr_spec(old(self)@, Instr::NOP),
    {
        0
    }

    /// An undocumented opcode: no operation.
    pub fn XXX(&mut self) -> (r: u8)
        ensures
            (final(self)@, r) == instr_spec(old(self)@, Instr::XXX),
    {
        0
    }

    /// Runs the implementation of instruction `i`; the result is 1 where the
    /// instruction takes the page-crossing cycle of its addressing mode.
    pub fn execute(&mut self, i: Instr) -> (r: u8)
        requires
            old(self).cycles <= 253,
        ensures
            (final(self)@, r) == instr_spec(old(self)@, i),
    {
        match i {
            Instr::ADC => self.ADC(),
            Instr::SBC => self.SBC(),
            Instr::AND => self.AND(),
            Instr::EOR => self.EOR(),
            Instr::ORA => self.ORA(),
            Instr::ASL => self.ASL(),
            Instr::LSR => self.LSR(),
            Instr::ROL => self.ROL(),
            Instr::ROR => self.ROR(),
            Instr::BCC => self.BCC(),
            Instr::BCS => self.BCS(),
            Instr::BEQ => self.BEQ(),
            Instr::BNE => self.BNE(),
            Instr::BMI => self.BMI(),
            Instr::BPL => self.BPL(),
            Instr::BVC => self.BVC(),
            Instr::BVS => self.BVS(),
            Instr::BIT => self.BIT(),
            Instr::BRK => self.BRK(),
            Instr::CLC => self.CLC(),
            Instr::CLD => self.CDC(),
            Instr::CLI => self.CLI(),
            Instr::CLV => self.CLV(),
            Instr::SEC => self.SEC(),
            Instr::SED => self.SED(),
            Instr::SEI => self.SEI(),
            Instr::CMP => self.CMP(),
            Instr::CPX => self.CMX(),
            Instr::CPY => self.CMY(),
            Instr::DEC => self.DEC(),
            Instr::INC => self.INC(),
            Instr::DEX => self.DEX(),
            Instr::DEY => self.DEY(),
            Instr::INX => self.INC_X(),
            Instr::INY => self.INC_Y(),
            Instr::JMP => self.JMP(),
            Instr::JSR => self.JSR(),
            Instr::RTS => self.RTS(),
            Instr::RTI => self.RTI(),
            Instr::LDA => self.LDA(),
            Instr::LDX => self.LDX(),
            Instr::LDY => self.LDY(),
            Instr::PHA => self.PHA(),
            Instr::PHP => self.PHP(),
            Instr::PLA => self.PLA(),
            Instr::PLP => self.PLP(),
            Instr::STA => self.STA(),
            Instr::STX => self.STX(),
            Instr::STY => self.STY(),
            Instr::TAX => self.TAX(),
            Instr::TAY => self.TAY(),
            Instr::TSX => self.TSX(),
            Instr::TXA => self.TXA(),
            Instr::TYA => self.TYA(),
            Instr::TXS => self.TXS(),
            Instr::NOP => self.NOP(),
            Instr::XXX => self.XXX(),
        }
    }
}

} // verus!
