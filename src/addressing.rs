use vstd::prelude::*;
use crate::cpu::CPU;
use crate::model::{
    abs_spec, imm_spec, imp_spec, ind_spec, izx_spec, izy_spec, rel_spec, resolve_spec, zp_spec,
};
use crate::opcode_table::AddrMode;

verus! {

#[allow(non_snake_case)]
impl CPU {
    /// Implied / accumulator: the operand is the accumulator.
    pub fn IMP(&mut self) -> (r: u8)
        ensures
            (final(self)@, r) == imp_spec(old(self)@),
    {
        self.registers.fetched = self.registers.a;
        0
    }

    /// Immediate: the operand is the byte at PC.
    pub fn IMM(&mut self) -> (r: u8)
        ensures
            (final(self)@, r) == imm_spec(old(self)@),
    {
        self.addr_abs = self.registers.pc;
        self.registers.pc = self.registers.pc.wrapping_add(1);
        0
    }

    /// Absolute with `index` added, and 1 when that crosses a page.
    fn absolute_indexed(&mut self, index: u8) -> (r: u8)
        ensures
            (final(self)@, r) == abs_spec(old(self)@, index),
    {
        let base = self.read_word(self.registers.pc);
        self.registers.pc = self.registers.pc.wrapping_add(2);
        self.addr_abs = base.wrapping_add(index as u16);
        if self.addr_abs / 0x100 != base / 0x100 {
            1
        } else {
            0
        }
    }

    /// Absolute: the operand's address is the word at PC.
    pub fn ABS(&mut self) -> (r: u8)
        ensures
            (final(self)@, r) == abs_spec(old(self)@, 0),
    {
        self.absolute_indexed(0)
    }

    /// Absolute indexed by X; 1 when the index crosses a page.
    pub fn ABX(&mut self) -> (r: u8)
        ensures
            (final(self)@, r) == abs_spec(old(self)@, old(self).registers.x),
    {
        let x = self.registers.x;
        self.absolute_indexed(x)
    }

    /// Absolute indexed by Y; 1 when the index crosses a page.
    pub fn ABY(&mut self) -> (r: u8)
        ensures
            (final(self)@, r) == abs_spec(old(self)@, old(self).registers.y),
    {
        let y = self.registers.y;
        self.absolute_indexed(y)
    }

    /// Zero page with `index` added, wrapping within page zero.
    fn zero_page_indexed(&mut self, index: u8) -> (r: u8)
        ensures
            (final(self)@, r) == zp_spec(old(self)@, index),
    {
        let base = self.read(self.registers.pc);
        self.registers.pc = self.registers.pc.wrapping_add(1);
        self.addr_abs = base.wrapping_add(index) as u16;
        0
    }

    /// Zero page.
    pub fn ZP0(&mut self) -> (r: u8)
        ensures
            (final(self)@, r) == zp_spec(old(self)@, 0),
    {
        self.zero_page_indexed(0)
    }

    /// Zero page indexed by X.
    pub fn ZPX(&mut self) -> (r: u8)
        ensures
            (final(self)@, r) == zp_spec(old(self)@, old(self).registers.x),
    {
        let x = self.registers.x;
        self.zero_page_indexed(x)
    }

    /// Zero page indexed by Y.
    pub fn ZPY(&mut self) -> (r: u8)
        ensures
            (final(self)@, r) == zp_spec(old(self)@, old(self).registers.y),
    {
        let y = self.registers.y;
        self.zero_page_indexed(y)
    }

    /// Relative: reads the branch displacement and sign-extends it.
    pub fn REL(&mut self) -> (r: u8)
        ensures
            (final(self)@, r) == rel_spec(old(self)@),
    {
        let d = self.read(self.registers.pc);
        self.registers.pc = self.registers.pc.wrapping_add(1);
        self.addr_rel = if d >= 0x80 {
            d as u16 + 0xFF00
        } else {
            d as u16
        };
        0
    }

    /// Indirect: the word stored at the pointer; a pointer ending in `0xFF`
    /// takes its high byte from the start of the same page.
    pub fn IND(&mut self) -> (r: u8)
        ensures
            (final(self)@, r) == ind_spec(old(self)@),
    {
        let ptr = self.read_word(self.registers.pc);
        self.registers.pc = self.registers.pc.wrapping_add(2);
        let lo = self.read(ptr);
        let hi = if ptr % 0x100 == 0xFF {
            self.read(ptr / 0x100 * 0x100)
        } else {
            self.read(ptr + 1)
        };
        self.addr_abs = hi as u16 * 0x100 + lo as u16;
        0
    }

    /// Indexed indirect `(zp,X)`: the word in page zero at the operand plus X.
    pub fn INX(&mut self) -> (r: u8)
        ensures
            (final(self)@, r) == izx_spec(old(self)@),
    {
        let t = self.read(self.registers.pc);
        self.registers.pc = self.registers.pc.wrapping_add(1);
        let p = t.wrapping_add(self.registers.x);
        let lo = self.read(p as u16);
        let hi = self.read(p.wrapping_add(1) as u16);
        self.addr_abs = hi as u16 * 0x100 + lo as u16;
        0
    }

    /// Indirect indexed `(zp),Y`: the word in page zero at the operand, plus
    /// Y; 1 when Y crosses a page.
    pub fn INY(&mut self) -> (r: u8)
        ensures
            (final(self)@, r) == izy_spec(old(self)@),
    {
        let t = self.read(self.registers.pc);
        self.registers.pc = self.registers.pc.wrapping_add(1);
        let lo = self.read(t as u16);
        let hi = self.read(t.wrapping_add(1) as u16);
        let base = hi as u16 * 0x100 + lo as u16;
        self.addr_abs = base.wrapping_add(self.registers.y as u16);
        if self.addr_abs / 0x100 != base / 0x100 {
            1
        } else {
            0
        }
    }

    /// Runs the resolver of addressing mode `m`.
    pub fn resolve(&mut self, m: AddrMode) -> (r: u8)
        ensures
            (final(self)@, r) == resolve_spec(old(self)@, m),
    {
        match m {
            AddrMode::IMP => self.IMP(),
            AddrMode::IMM => self.IMM(),
            AddrMode::ZP0 => self.ZP0(),
            AddrMode::ZPX => self.ZPX(),
            AddrMode::ZPY => self.ZPY(),
            AddrMode::REL => self.REL(),
            AddrMode::ABS => self.ABS(),
            AddrMode::ABX => self.ABX(),
            AddrMode::ABY => self.ABY(),
            AddrMode::IND => self.IND(),
            AddrMode::IZX => self.INX(),
            AddrMode::IZY => self.INY(),
        }
    }
}

} // verus!
