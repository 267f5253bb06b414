use vstd::prelude::*;
use crate::flags::{StatusRegFlags, flag_set, lemma_with_flag, with_flag};

verus! {

/// The architectural registers of the processor.
#[derive(Clone, Copy, Debug, PartialEq, Eq, Structural)]
pub struct Registers {
    /// Accumulator.
    pub a: u8,
    /// X index register.
    pub x: u8,
    /// Y index register.
    pub y: u8,
    /// Program counter.
    pub pc: u16,
    /// Stack pointer: an offset into the stack page `0x0100..=0x01FF`.
    pub sp: u8,
    /// Status register, one bit per `StatusRegFlags`.
    pub status: u8,
    /// The operand most recently resolved for the instruction in flight.
    pub fetched: u8,
}

impl Registers {
    /// Whether `flag` is set in the status register.
    pub fn get_flag(&self, flag: StatusRegFlags) -> (r: bool)
        ensures
            r == flag_set(self.status, flag),
    {
        self.status & flag.bits() != 0
    }

    /// Sets `flag` when `condition` holds and clears it otherwise.
    pub fn set_flag(&mut self, flag: StatusRegFlags, condition: bool)
        ensures
            *final(self) == (Registers { status: with_flag(old(self).status, flag, condition), ..*old(self) }),
            forall|g: StatusRegFlags|
                #[trigger] flag_set(final(self).status, g) == if g == flag {
                    condition
                } else {
                    flag_set(old(self).status, g)
                },
    {
        assert forall|g: StatusRegFlags|
            #[trigger] flag_set(with_flag(self.status, flag, condition), g) == if g == flag {
                condition
            } else {
                flag_set(self.status, g)
            } by {
            lemma_with_flag(self.status, flag, condition, g);
        }
        if condition {
            self.status = self.status | flag.bits();
        } else {
            self.status = self.status & !flag.bits();
        }
    }
}

} // verus!
