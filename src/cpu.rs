use vstd::prelude::*;
use crate::bus::Bus;
use crate::flags::StatusRegFlags;
use crate::model::{
    CpuView, IRQ_CYCLES, IRQ_VECTOR, NMI_CYCLES, NMI_VECTOR, RESET_CYCLES, RESET_VECTOR,
    STACK_BASE, byte_at, clock_spec, execute_spec, fetch_spec, lemma_instr_bounds,
    lemma_resolve_bounds, lemma_wrapping, fetched_value, interrupt_spec, irq_spec, nmi_spec,
    pull_spec, push_spec, reset_spec, store, word_at,
};
use crate::opcode_table::{AddrMode, lemma_base_cycles, lookup};
use crate::registers::Registers;

verus! {

/// The processor: registers, the bus it drives, and the scratch and cycle
/// state of the instruction in flight.
pub struct CPU {
    pub registers: Registers,
    pub bus: Bus,
    /// Effective address resolved by the addressing mode.
    pub addr_abs: u16,
    /// Branch displacement, sign-extended to 16 bits.
    pub addr_rel: u16,
    /// Scratch word for intermediate results.
    pub addr_temp: u16,
    /// Addressing mode of the instruction in flight.
    pub mode: AddrMode,
    /// Cycles left before the next instruction boundary.
    pub cycles: u8,
    /// Ticks since power-on.
    pub total_cycles: u64,
    /// A maskable interrupt waits for the next instruction boundary.
    pub irq_pending: bool,
    /// A non-maskable interrupt waits for the next instruction boundary.
    pub nmi_pending: bool,
}

impl CPU {
    pub open spec fn view(&self) -> CpuView {
        CpuView {
            regs: self.registers,
            mem: self.bus@,
            mode: self.mode,
            addr_abs: self.addr_abs,
            addr_rel: self.addr_rel,
            addr_temp: self.addr_temp,
            cycles: self.cycles,
            total_cycles: self.total_cycles,
            irq_pending: self.irq_pending,
            nmi_pending: self.nmi_pending,
        }
    }

    /// The memory the processor sees holds one byte for each 16-bit address.
    pub proof fn lemma_mem_len(&self)
        ensures
            self@.mem.len() == 0x10000,
    {
        self.bus.lemma_len();
    }

    /// A powered-off processor on `bus`: every register and counter zero.
    pub fn new(bus: Bus) -> (c: Self)
        ensures
            c.registers == (Registers { a: 0, x: 0, y: 0, pc: 0, sp: 0, status: 0, fetched: 0 }),
            c.bus@ == bus@,
            c.mode == AddrMode::IMP,
            c.addr_abs == 0 && c.addr_rel == 0 && c.addr_temp == 0,
            c.cycles == 0 && c.total_cycles == 0,
            !c.irq_pending && !c.nmi_pending,
    {
        CPU {
            registers: Registers { a: 0, x: 0, y: 0, pc: 0, sp: 0, status: 0, fetched: 0 },
            bus,
            addr_abs: 0,
            addr_rel: 0,
            addr_temp: 0,
            mode: AddrMode::IMP,
            cycles: 0,
            total_cycles: 0,
            irq_pending: false,
            nmi_pending: false,
        }
    }

    /// The byte on the bus at `address`.
    pub fn read(&self, address: u16) -> (r: u8)
        ensures
            r == byte_at(self@, address),
    {
        self.bus.read(address)
    }

    /// Writes `data` to the bus at `address`.
    pub fn write(&mut self, address: u16, data: u8)
        ensures
            final(self)@ == store(old(self)@, address, data),
    {
        self.bus.write(address, data);
    }

    /// The little-endian word at `address` and the address after it.
    pub fn read_word(&self, address: u16) -> (r: u16)
        ensures
            r == word_at(self@, address),
    {
        let lo = self.read(address);
        let hi = self.read(address.wrapping_add(1));
        hi as u16 * 0x100 + lo as u16
    }

    /// Pushes `v` onto the stack page.
    pub fn push(&mut self, v: u8)
        ensures
            final(self)@ == push_spec(old(self)@, v),
    {
        self.write(STACK_BASE + self.registers.sp as u16, v);
        self.registers.sp = self.registers.sp.wrapping_sub(1);
    }

    /// Pulls a byte from the stack page.
    pub fn pull(&mut self) -> (r: u8)
        ensures
            (final(self)@, r) == pull_spec(old(self)@),
    {
        self.registers.sp = self.registers.sp.wrapping_add(1);
        self.read(STACK_BASE + self.registers.sp as u16)
    }

    /// Latches the operand of the instruction in flight into `fetched`.
    pub fn fetch(&mut self) -> (r: u8)
        ensures
            final(self)@ == fetch_spec(old(self)@),
            r == fetched_value(old(self)@),
    {
        if self.mode != AddrMode::IMP {
            self.registers.fetched = self.read(self.addr_abs);
        }
        self.registers.fetched
    }

    /// Interrupt entry through `vector`; `brk` is the B bit of the pushed status.
    pub fn interrupt(&mut self, vector: u16, brk: bool)
        ensures
            final(self)@ == interrupt_spec(old(self)@, vector, brk),
    {
        let pc = self.registers.pc;
        let mut pushed = self.registers;
        pushed.set_flag(StatusRegFlags::B, brk);
        pushed.set_flag(StatusRegFlags::U, true);
        self.push((pc / 0x100) as u8);
        self.push((pc % 0x100) as u8);
        self.push(pushed.status);
        self.registers.set_flag(StatusRegFlags::I, true);
        self.registers.pc = self.read_word(vector);
    }

    /// Resets the processor: A, X and Y cleared, SP at `0xFD`, status with
    /// only U set, PC loaded from the reset vector, eight cycles to wait.
    pub fn reset(&mut self)
        ensures
            final(self)@ == reset_spec(old(self)@),
    {
        self.registers.a = 0;
        self.registers.x = 0;
        self.registers.y = 0;
        self.registers.sp = 0xFD;
        self.registers.fetched = 0;
        self.registers.status = 0;
        self.registers.set_flag(StatusRegFlags::U, true);
        self.registers.pc = self.read_word(RESET_VECTOR);
        self.addr_abs = 0;
        self.addr_rel = 0;
        self.addr_temp = 0;
        self.cycles = RESET_CYCLES;
        self.irq_pending = false;
        self.nmi_pending = false;
    }

    /// Requests a maskable interrupt.
    pub fn irq(&mut self)
        ensures
            final(self)@ == irq_spec(old(self)@),
    {
        if !self.registers.get_flag(StatusRegFlags::I) {
            if self.cycles == 0 {
                self.interrupt(IRQ_VECTOR, false);
                self.cycles = IRQ_CYCLES;
            } else {
                self.irq_pending = true;
            }
        }
    }

    /// Requests a non-maskable interrupt.
    pub fn nmi(&mut self)
        ensures
            final(self)@ == nmi_spec(old(self)@),
    {
        if self.cycles == 0 {
            self.interrupt(NMI_VECTOR, false);
            self.cycles = NMI_CYCLES;
        } else {
            self.nmi_pending = true;
        }
    }

    /// Decodes and runs `opcode`, with PC already past it: the addressing
    /// mode is resolved, the instruction run, and `cycles` set to the
    /// instruction's cost (base cycles, plus a page-crossing cycle where both
    /// the mode and the instruction call for it, plus any branch cycles) less
    /// the current tick.
    pub fn execute_instruction(&mut self, opcode: u8)
        ensures
            final(self)@ == execute_spec(old(self)@, opcode),
            final(self).total_cycles == old(self).total_cycles,
    {
        proof { reveal(execute_spec); }
        let entry = lookup(opcode);
        proof { lemma_base_cycles(opcode); }
        self.mode = entry.mode;
        self.cycles = entry.cycles;
        proof { lemma_resolve_bounds(self@, entry.mode); }
        let mode_extra = self.resolve(entry.mode);
        proof { lemma_instr_bounds(self@, entry.instr); }
        let instr_extra = self.execute(entry.instr);
        let extra: u8 = if mode_extra == 1 && instr_extra == 1 { 1 } else { 0 };
        self.cycles = self.cycles + extra - 1;
    }

    /// One clock tick. At an instruction boundary a pending NMI is taken,
    /// else a pending IRQ while I is clear, else the next instruction is
    /// fetched and run; otherwise one cycle less is left to wait. The tick is
    /// counted either way.
    pub fn step(&mut self)
        ensures
            final(self)@ == clock_spec(old(self)@),
    {
        if self.cycles == 0 {
            if self.nmi_pending {
                self.nmi_pending = false;
                self.interrupt(NMI_VECTOR, false);
                self.cycles = NMI_CYCLES - 1;
            } else if self.irq_pending && !self.registers.get_flag(StatusRegFlags::I) {
                self.irq_pending = false;
                self.interrupt(IRQ_VECTOR, false);
                self.cycles = IRQ_CYCLES - 1;
            } else {
                self.irq_pending = false;
                let opcode = self.read(self.registers.pc);
                proof { lemma_wrapping(0, 0, self.registers.pc, 1); }
                self.registers.pc = self.registers.pc.wrapping_add(1);
                self.execute_instruction(opcode);
            }
        } else {
            self.cycles = self.cycles - 1;
        }
        self.total_cycles = self.total_cycles.wrapping_add(1);
    }

    /// Whether the processor is at an instruction boundary.
    pub fn complete(&self) -> (r: bool)
        ensures
            r == (self.cycles == 0),
    {
        self.cycles == 0
    }

    /// The accumulator.
    pub fn a(&self) -> (r: u8)
        ensures
            r == self.registers.a,
    {
        self.registers.a
    }

    /// The X register.
    pub fn x(&self) -> (r: u8)
        ensures
            r == self.registers.x,
    {
        self.registers.x
    }

    /// The Y register.
    pub fn y(&self) -> (r: u8)
        ensures
            r == self.registers.y,
    {
        self.registers.y
    }

    /// The program counter.
    pub fn pc(&self) -> (r: u16)
        ensures
            r == self.registers.pc,
    {
        self.registers.pc
    }

    /// The stack pointer.
    pub fn sp(&self) -> (r: u8)
        ensures
            r == self.registers.sp,
    {
        self.registers.sp
    }

    /// The status register.
    pub fn status(&self) -> (r: u8)
        ensures
            r == self.registers.status,
    {
        self.registers.status
    }

    /// Ticks since power-on.
    pub fn total_cycles(&self) -> (r: u64)
        ensures
            r == self.total_cycles,
    {
        self.total_cycles
    }
}

} // verus!
