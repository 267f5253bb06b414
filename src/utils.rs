use vstd::prelude::*;

verus! {

/// Whether `addr` lies in the 16-bit address space `0x0000..=0xFFFF`.
pub fn check_hex_range(addr: u16) -> (r: bool)
    ensures
        r == (0 <= addr <= 0xFFFF),
{
    addr <= 0xFFFF
}

} // verus!
