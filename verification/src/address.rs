//! Mapping between host addresses and driver-relative addresses.
//!
//! The host sees the flash at [`BASE_ADDRESS`]; the flash driver counts from
//! zero. Going from the first to the second is a subtraction in the 32-bit
//! address space, so an address below the base wraps around instead of
//! failing.

use vstd::prelude::*;

verus! {

/// Host address at which the flash begins.
pub const BASE_ADDRESS: u32 = 0x2300_0000;

/// Smallest unit the flash can erase, in bytes.
pub const SECTOR_SIZE: u32 = 4096;

/// Number of low address bits that select a byte inside a sector.
pub const SECTOR_SHIFT: u32 = 12;

/// Number of addresses in the 32-bit address space.
pub open spec fn address_space() -> int {
    0x1_0000_0000
}

/// The driver-relative address of host address `adr`: the difference to
/// [`BASE_ADDRESS`], taken modulo the size of the address space.
pub open spec fn rebased(adr: u32) -> int {
    (adr - BASE_ADDRESS) % address_space()
}

/// The sector that holds host address `adr`, counted from the start of the
/// flash: the driver-relative address divided by the sector size, rounded
/// down.
pub open spec fn sector_of(adr: u32) -> int {
    rebased(adr) / (SECTOR_SIZE as int)
}

/// Turns a host address into the address the flash driver works with.
///
/// Never fails: an address below [`BASE_ADDRESS`] wraps around the 32-bit
/// address space.
pub fn rebase(adr: u32) -> (offset: u32)
    ensures
        offset == rebased(adr),
{
    adr.wrapping_sub(BASE_ADDRESS)
}

/// Index of the sector that holds host address `adr`.
pub fn sector_index(adr: u32) -> (sector: u32)
    ensures
        sector == sector_of(adr),
{
    let offset: u32 = rebase(adr);
    assert(offset >> 12 == offset / 4096) by (bit_vector);
    offset >> SECTOR_SHIFT
}

/// For an address at or above the base, rebasing is plain subtraction, and
/// adding the base again gives the address back.
pub proof fn lemma_rebase_at_or_above_base(adr: u32)
    requires
        adr >= BASE_ADDRESS,
    ensures
        rebased(adr) == adr - BASE_ADDRESS,
        rebased(adr) + BASE_ADDRESS == adr,
{
}

/// For an address below the base, rebasing wraps: the result is the
/// difference plus the size of the address space, which is again a 32-bit
/// address.
pub proof fn lemma_rebase_below_base(adr: u32)
    requires
        adr < BASE_ADDRESS,
    ensures
        rebased(adr) == adr - BASE_ADDRESS + address_space(),
        0 <= rebased(adr) < address_space(),
{
}

/// Rebasing loses nothing: adding the base to the rebased address, again
/// modulo the size of the address space, gives the address back, whichever
/// side of the base it lies on.
pub proof fn lemma_rebase_reversible(adr: u32)
    ensures
        0 <= rebased(adr) < address_space(),
        (rebased(adr) + BASE_ADDRESS) % address_space() == adr,
{
}

/// The sector index is the driver-relative address divided by the sector
/// size and rounded down, which is that address shifted right by
/// [`SECTOR_SHIFT`]: the sector's first byte is at or below the address, and
/// the next sector's first byte is above it.
pub proof fn lemma_sector_is_floor(adr: u32)
    ensures
        sector_of(adr) * SECTOR_SIZE <= rebased(adr) < (sector_of(adr) + 1) * SECTOR_SIZE,
        sector_of(adr) == (rebased(adr) as u32) >> SECTOR_SHIFT,
        0 <= sector_of(adr) < 0x10_0000,
{
    let offset: u32 = rebased(adr) as u32;
    assert(offset >> 12 == offset / 4096) by (bit_vector);
}

} // verus!
