//! Wrapping 32-bit arithmetic, used for every address and register update:
//! the guest address space and the register file are 32-bit, so additions and
//! subtractions wrap around rather than fail.

use vstd::prelude::*;

verus! {

/// `a + b` reduced modulo 2^32, the meaning of address and register addition.
pub open spec fn w_add(a: u32, b: u32) -> u32 {
    if a + b > u32::MAX {
        (a + b - 0x1_0000_0000) as u32
    } else {
        (a + b) as u32
    }
}

/// `a - b` reduced modulo 2^32, the meaning of address and register subtraction.
pub open spec fn w_sub(a: u32, b: u32) -> u32 {
    if a - b < 0 {
        (a - b + 0x1_0000_0000) as u32
    } else {
        (a - b) as u32
    }
}

/// Executable wrapping addition, exactly `w_add`.
pub fn wrapping_add32(a: u32, b: u32) -> (r: u32)
    ensures
        r == w_add(a, b),
{
    a.wrapping_add(b)
}

/// Executable wrapping subtraction, exactly `w_sub`.
pub fn wrapping_sub32(a: u32, b: u32) -> (r: u32)
    ensures
        r == w_sub(a, b),
{
    a.wrapping_sub(b)
}

/// Wrapping subtraction undoes wrapping addition of the same amount.
pub proof fn lemma_w_sub_w_add(a: u32, b: u32)
    ensures
        w_sub(w_add(a, b), b) == a,
{
}

} // verus!
