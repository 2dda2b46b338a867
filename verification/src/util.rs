//! Address helpers.

use vstd::prelude::*;

verus! {

/// Start of the linear (FCRAM) memory region in the virtual address space.
pub const OS_FCRAM_VADDR: usize = 0x3000_0000;

/// Size of the linear (FCRAM) memory region.
pub const OS_FCRAM_SIZE: usize = 0x1000_0000;

/// Check if an address is in linear memory.
pub fn is_linear_addr(addr: usize) -> (r: bool)
    ensures
        r == (OS_FCRAM_VADDR <= addr < OS_FCRAM_VADDR + OS_FCRAM_SIZE),
{
    addr >= OS_FCRAM_VADDR && addr < OS_FCRAM_VADDR + OS_FCRAM_SIZE
}

} // verus!
