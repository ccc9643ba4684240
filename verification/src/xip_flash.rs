//! The adapter for the memory-mapped path.
//!
//! The driver routines of this path take host addresses and guard themselves
//! against code that runs from the flash meanwhile, so nothing is rebased
//! here. Erasing and programming need a [`Session`] that is ready, as on the
//! controller-owned path.

use vstd::prelude::*;
use crate::address::SECTOR_SIZE;
use crate::driver::{DriverCall, SUCCESS};
use crate::session::{acquire_calls, authorization, release_calls, OutOfOrder, Session, State};
use crate::verify::{compare, compared, verification, VerifyOutcome, READBACK_CAPACITY};

verus! {

/// What `Read` returns where the driver could not read.
pub const READ_FAILED: u32 = 0;

/// What `Read` returns where the driver has read.
pub const READ_DONE: u32 = 2;

/// Names the driver call that erases one sector's worth of bytes from host
/// address `adr` on, or turns the request away where the session is not
/// ready.
///
/// The host status is [`status`](crate::driver::status) of the driver's
/// result code.
#[allow(non_snake_case)]
pub fn EraseSector(session: &Session, adr: u32) -> (call: Result<DriverCall, OutOfOrder>)
    ensures
        call == authorization(
            session@,
            (DriverCall::EraseWithLock { address: adr, length: SECTOR_SIZE }),
        ),
{
    session.authorize(DriverCall::EraseWithLock { address: adr, length: SECTOR_SIZE })
}

/// Prepares the flash for erasing, programming or verifying: gives the driver
/// calls to make, in order, and the host status to return after them. The
/// session is ready afterwards.
///
/// Always succeeds. The three arguments (base address of the device, clock
/// frequency, and the function the host is about to perform) change nothing.
#[allow(non_snake_case)]
pub fn Init(session: &mut Session, _adr: u32, _clk: u32, _fnc: u32) -> (plan: (
    [DriverCall; 3],
    i32,
))
    ensures
        final(session)@ == State::Ready,
        plan.0@ == acquire_calls(),
        plan.1 == SUCCESS,
{
    (session.acquire(), SUCCESS)
}

/// Names the driver call that writes `sz` bytes at host address `adr`, or
/// turns the request away where the session is not ready.
///
/// The data itself goes from the host's buffer to the driver and is not
/// looked at here. Keeping `adr` and `sz` inside one page is up to the host;
/// it is not checked. The host status is [`status`](crate::driver::status) of
/// the driver's result code.
#[allow(non_snake_case)]
pub fn ProgramPage(session: &Session, adr: u32, sz: u32) -> (call: Result<
    DriverCall,
    OutOfOrder,
>)
    ensures
        call == authorization(
            session@,
            (DriverCall::WriteWithLock { address: adr, length: sz }),
        ),
{
    session.authorize(DriverCall::WriteWithLock { address: adr, length: sz })
}

/// Ends erasing, programming or verifying: gives the driver calls to make, in
/// order, and the host status to return after them. The session is no longer
/// ready afterwards.
///
/// Always succeeds. The argument (the function the host has performed)
/// changes nothing.
#[allow(non_snake_case)]
pub fn UnInit(session: &mut Session, _fnc: u32) -> (plan: ([DriverCall; 2], i32))
    ensures
        final(session)@ == State::Uninitialized,
        plan.0@ == release_calls(),
        plan.1 == SUCCESS,
{
    (session.release(), SUCCESS)
}

/// Decides what to read back before `sz` bytes at host address `adr` can be
/// verified: the driver call that reads them through the cache, or, where
/// `sz` is over the read-back capacity, the outcome of the verification, with
/// nothing to read.
pub fn verify_read(adr: u32, sz: u32) -> (read: Result<DriverCall, VerifyOutcome>)
    ensures
        sz > READBACK_CAPACITY ==> read == Err::<DriverCall, VerifyOutcome>(
            VerifyOutcome::SizeTooLarge,
        ),
        sz <= READBACK_CAPACITY ==> read == Ok::<DriverCall, VerifyOutcome>(
            (DriverCall::ReadViaCacheNeedLock { address: adr, length: sz }),
        ),
{
    if sz > READBACK_CAPACITY {
        Err(VerifyOutcome::SizeTooLarge)
    } else {
        Ok(DriverCall::ReadViaCacheNeedLock { address: adr, length: sz })
    }
}

/// Verifies the region that starts at host address `adr` and holds
/// `programmed`, given the bytes `stored` that the read asked for by
/// [`verify_read`] left in the read-back buffer.
///
/// The size of the region is the length of `programmed`. The driver's result
/// code plays no part on this path: the read counts as done. Where the region
/// is over the read-back capacity, `stored` is not looked at.
#[allow(non_snake_case)]
pub fn Verify(adr: u32, programmed: &[u8], stored: &[u8]) -> (outcome: VerifyOutcome)
    requires
        programmed@.len() <= READBACK_CAPACITY ==> adr + programmed@.len() <= u32::MAX,
        programmed@.len() <= READBACK_CAPACITY ==> programmed@.len() <= stored@.len(),
    ensures
        outcome == verification(adr, programmed@, 0, stored@),
        programmed@.len() <= READBACK_CAPACITY ==> compared(
            outcome,
            adr,
            programmed@,
            stored@,
        ),
{
    if programmed.len() > READBACK_CAPACITY as usize {
        VerifyOutcome::SizeTooLarge
    } else {
        compare(adr, programmed, stored)
    }
}

/// What `Read` returns for a driver result code: [`READ_DONE`] for zero,
/// [`READ_FAILED`] for anything else.
pub open spec fn read_status_of(code: i32) -> u32 {
    if code == 0 {
        READ_DONE
    } else {
        READ_FAILED
    }
}

/// Names the driver call that reads `sz` bytes at host address `adr` into the
/// caller's buffer. For diagnosis only; a programming host never asks for it.
///
/// What the entry point returns is [`read_status`] of the driver's result
/// code.
#[allow(non_snake_case)]
pub fn Read(adr: u32, sz: u32) -> (call: DriverCall)
    ensures
        call == (DriverCall::ReadNeedLock { address: adr, length: sz }),
{
    DriverCall::ReadNeedLock { address: adr, length: sz }
}

/// Maps the driver's result code of a diagnostic read to what `Read` returns.
pub fn read_status(code: i32) -> (result: u32)
    ensures
        result == read_status_of(code),
{
    if code != 0 {
        READ_FAILED
    } else {
        READ_DONE
    }
}

} // verus!
