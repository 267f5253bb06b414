use vstd::prelude::*;

verus! {

/// The eight bits of the processor status register.
#[derive(Clone, Copy, Debug, PartialEq, Eq, Structural)]
pub enum StatusRegFlags {
    /// Carry (bit 0).
    C,
    /// Zero (bit 1).
    Z,
    /// Interrupt disable (bit 2).
    I,
    /// Decimal mode (bit 3); stored but never alters arithmetic.
    D,
    /// Break (bit 4); only ever set in a copy of the status pushed to the stack.
    B,
    /// Unused (bit 5); always set in a pushed or pulled status byte.
    U,
    /// Signed overflow (bit 6).
    V,
    /// Negative (bit 7).
    N,
}

/// The single-bit mask of a flag within the status byte.
pub open spec fn flag_mask(f: StatusRegFlags) -> u8 {
    match f {
        StatusRegFlags::C => 0x01,
        StatusRegFlags::Z => 0x02,
        StatusRegFlags::I => 0x04,
        StatusRegFlags::D => 0x08,
        StatusRegFlags::B => 0x10,
        StatusRegFlags::U => 0x20,
        StatusRegFlags::V => 0x40,
        StatusRegFlags::N => 0x80,
    }
}

/// Whether flag `f` is set in the status byte `status`.
pub open spec fn flag_set(status: u8, f: StatusRegFlags) -> bool {
    status & flag_mask(f) != 0
}

/// The status byte `status` with flag `f` set when `c` holds and cleared otherwise.
pub open spec fn with_flag(status: u8, f: StatusRegFlags, c: bool) -> u8 {
    if c {
        status | flag_mask(f)
    } else {
        status & !flag_mask(f)
    }
}

impl StatusRegFlags {
    /// The flag's mask as a byte.
    pub fn bits(self) -> (r: u8)
        ensures
            r == flag_mask(self),
    {
        match self {
            StatusRegFlags::C => 0x01,
            StatusRegFlags::Z => 0x02,
            StatusRegFlags::I => 0x04,
            StatusRegFlags::D => 0x08,
            StatusRegFlags::B => 0x10,
            StatusRegFlags::U => 0x20,
            StatusRegFlags::V => 0x40,
            StatusRegFlags::N => 0x80,
        }
    }
}

proof fn lemma_single_bits(st: u8, m: u8, n: u8)
    by (bit_vector)
    requires
        m == 1 || m == 2 || m == 4 || m == 8 || m == 16 || m == 32 || m == 64 || m == 128,
        n == 1 || n == 2 || n == 4 || n == 8 || n == 16 || n == 32 || n == 64 || n == 128,
    ensures
        ((st | m) & n != 0) == (m == n || st & n != 0),
        ((st & !m) & n != 0) == (m != n && st & n != 0),
{
}

/// Setting or clearing one flag changes that flag to the requested value and
/// leaves every other flag as it was.
pub proof fn lemma_with_flag(status: u8, f: StatusRegFlags, c: bool, g: StatusRegFlags)
    ensures
        flag_set(with_flag(status, f, c), g) == if f == g { c } else { flag_set(status, g) },
{
    lemma_single_bits(status, flag_mask(f), flag_mask(g));
}

} // verus!
