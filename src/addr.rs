//! Canonical 64-bit virtual addresses.
use vstd::prelude::*;

verus! {

/// Bits 48 to 63 of `addr` repeat bit 47: the processor accepts the address.
pub open spec fn is_canonical(addr: u64) -> bool {
    addr < 0x0000_8000_0000_0000 || addr >= 0xffff_8000_0000_0000
}

/// Relies on x86_64's `VirtAddr::try_new`, which accepts exactly the
/// addresses that sign extension of bit 47 leaves unchanged and keeps them
/// as they are; `VirtAddr::as_u64` hands the address back.
#[verifier::external_body]
fn try_virt_addr(addr: u64) -> (r: Option<u64>)
    ensures
        r == (if is_canonical(addr) {
            Some(addr)
        } else {
            None
        }),
{
    x86_64::VirtAddr::try_new(addr).ok().map(|a| a.as_u64())
}

/// `base + offset`, when that neither overflows nor leaves the canonical
/// address space.
pub fn offset_address(base: u64, offset: u64) -> (r: Option<u64>)
    ensures
        r == (if base + offset <= u64::MAX && is_canonical((base + offset) as u64) {
            Some((base + offset) as u64)
        } else {
            None
        }),
{
    match base.checked_add(offset) {
        Some(sum) => try_virt_addr(sum),
        None => None,
    }
}

} // verus!
