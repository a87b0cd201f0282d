//! x86-64 PC-relative address arithmetic for the plan evaluator.

use vstd::prelude::*;

verus! {

/// Resolve a 32-bit PC-relative reference: the four bytes `offset` bytes past
/// `address` hold `displacement`; the referenced location is
/// `address + displacement`, and the result continues right past the 4-byte
/// field, at `address + displacement + offset + 4`. The caller rules the
/// inputs that leave the address space out, as the evaluator does before
/// calling.
pub fn resolve_relative_address(address: usize, offset: usize, displacement: i32) -> (r: usize)
    requires
        0 <= address + displacement,
        address + displacement + offset + 4 <= usize::MAX,
    ensures
        r == address + displacement + offset + 4,
{
    let new_addr = address.checked_add_signed(displacement as isize).unwrap();
    new_addr + offset + 4
}

} // verus!
