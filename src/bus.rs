use vstd::prelude::*;

verus! {

/// A flat 64 KB address space: every 16-bit address maps to one byte of RAM.
pub struct Bus {
    ram: [u8; 0x10000],
}

impl Bus {
    /// The bytes of the address space, indexed by address.
    pub closed spec fn view(&self) -> Seq<u8> {
        self.ram@
    }

    /// The address space holds one byte for each of the 0x10000 addresses.
    pub proof fn lemma_len(&self)
        ensures
            self@.len() == 0x10000,
    {
    }

    /// A bus whose every byte is zero.
    pub fn new() -> (b: Self)
        ensures
            b@ == Seq::new(0x10000, |_i: int| 0u8),
    {
        let b = Bus { ram: [0u8; 0x10000] };
        assert(b@ =~= Seq::new(0x10000, |_i: int| 0u8));
        b
    }

    /// The byte mapped at `address`.
    pub fn read(&self, address: u16) -> (r: u8)
        ensures
            r == self@[address as int],
            self@.len() == 0x10000,
    {
        self.ram[address as usize]
    }

    /// Stores `data` at `address`.
    pub fn write(&mut self, address: u16, data: u8)
        ensures
            old(self)@.len() == 0x10000,
            final(self)@ == old(self)@.update(address as int, data),
    {
        self.ram[address as usize] = data;
    }
}

} // verus!
