//! What the adapter asks of the flash driver, and how it reads the answer.
//!
//! The driver itself is not part of this crate. An entry point names the call
//! it wants made as a [`DriverCall`]; the caller makes it and comes back with
//! the driver's result code.

use vstd::prelude::*;

verus! {

/// Host status of an entry point that succeeded.
pub const SUCCESS: i32 = 0;

/// Host status of an entry point that failed.
pub const FAILURE: i32 = 1;

/// Who drives the flash bus.
#[derive(Clone, Copy, Debug, PartialEq, Eq, Structural)]
pub enum BusOwner {
    /// The flash controller, under software control: needed to erase and to
    /// program.
    Controller,
    /// The instruction-fetch unit: the flash is memory-mapped and code can run
    /// from it.
    MemoryMapped,
}

/// Protocol of a transfer between controller and flash.
#[derive(Clone, Copy, Debug, PartialEq, Eq, Structural)]
pub enum TransferMode {
    /// Single-line commands.
    Spi,
    /// Quad-I/O commands.
    Qpi,
}

/// One call into the flash driver, with the arguments the adapter decided on.
///
/// Addresses in the calls of the controller-owned path count from the start of
/// the flash; those of the lock-protected, memory-mapped path are host
/// addresses. Buffers are not part of the value: the caller owns them.
#[derive(Clone, Copy, Debug, PartialEq, Eq, Structural)]
pub enum DriverCall {
    /// Turn the read cache off.
    CacheReadDisable,
    /// Flush the read cache.
    CacheFlush,
    /// Set the offset of the flash image.
    SetFlashImageOffset { offset: u32 },
    /// Hand the flash bus to `owner`.
    SetOwner { owner: BusOwner },
    /// Erase the sector with index `sector`.
    SectorErase { sector: u32 },
    /// Erase the whole device.
    ChipErase,
    /// Program `length` bytes at `address`.
    Program { mode: TransferMode, address: u32, length: u32 },
    /// Read `length` bytes at `address`.
    Read { mode: TransferMode, lock_flag: u8, address: u32, length: u32 },
    /// Erase `length` bytes at host address `address`, holding the lock.
    EraseWithLock { address: u32, length: u32 },
    /// Write `length` bytes at host address `address`, holding the lock.
    WriteWithLock { address: u32, length: u32 },
    /// Read `length` bytes at host address `address` through the cache; the
    /// caller holds the lock.
    ReadViaCacheNeedLock { address: u32, length: u32 },
    /// Read `length` bytes at host address `address`; the caller holds the
    /// lock.
    ReadNeedLock { address: u32, length: u32 },
}

/// The host status for a driver result code: zero is success, anything else
/// is failure, with no further detail.
pub open spec fn status_of(code: i32) -> i32 {
    if code == 0 {
        SUCCESS
    } else {
        FAILURE
    }
}

/// Maps a driver result code to the host status.
pub fn status(code: i32) -> (result: i32)
    ensures
        result == status_of(code),
{
    if code == 0 {
        SUCCESS
    } else {
        FAILURE
    }
}

} // verus!
