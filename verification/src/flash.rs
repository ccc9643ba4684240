//! The adapter for the controller-owned path, and the device descriptor.
//!
//! Every entry point here works on driver-relative addresses: it rebases the
//! host address before it names a driver call. Erasing and programming need a
//! [`Session`] that is ready.

use vstd::prelude::*;
use crate::address::{rebase, rebased, sector_index, sector_of, BASE_ADDRESS, SECTOR_SIZE};
use crate::driver::{DriverCall, TransferMode, SUCCESS};
use crate::session::{acquire_calls, authorization, release_calls, OutOfOrder, Session, State};
use crate::verify::{compare, compared, verification, VerifyOutcome, READBACK_CAPACITY};

verus! {

/// Names the driver call that erases the sector holding host address `adr`,
/// or turns the request away where the session is not ready.
///
/// The host status is [`status`](crate::driver::status) of the driver's
/// result code.
#[allow(non_snake_case)]
pub fn EraseSector(session: &Session, adr: u32) -> (call: Result<DriverCall, OutOfOrder>)
    ensures
        call == authorization(
            session@,
            (DriverCall::SectorErase { sector: sector_of(adr) as u32 }),
        ),
{
    session.authorize(DriverCall::SectorErase { sector: sector_index(adr) })
}

/// Names the driver call that erases the whole device, or turns the request
/// away where the session is not ready.
///
/// The host status is [`status`](crate::driver::status) of the driver's
/// result code.
#[allow(non_snake_case)]
pub fn EraseChip(session: &Session) -> (call: Result<DriverCall, OutOfOrder>)
    ensures
        call == authorization(session@, DriverCall::ChipErase),
{
    session.authorize(DriverCall::ChipErase)
}

/// Prepares the flash for erasing, programming or verifying: gives the driver
/// calls to make, in order, and the host status to return after them. The
/// session is ready afterwards.
///
/// Always succeeds. The three arguments (base address of the device, clock
/// frequency, and the function the host is about to perform) change nothing.
#[allow(non_snake_case)]
pub fn Init(session: &mut Session, _adr: u32, _clk: u32, _fnc: u32) -> (plan: (
    [DriverCall; 3],
    i32,
))
    ensures
        final(session)@ == State::Ready,
        plan.0@ == acquire_calls(),
        plan.1 == SUCCESS,
{
    (session.acquire(), SUCCESS)
}

/// Names the driver call that programs `sz` bytes at host address `adr` in
/// quad-I/O mode, or turns the request away where the session is not ready.
///
/// The data itself goes from the host's buffer to the driver and is not
/// looked at here. Keeping `adr` and `sz` inside one page is up to the host;
/// it is not checked. The host status is [`status`](crate::driver::status) of
/// the driver's result code.
#[allow(non_snake_case)]
pub fn ProgramPage(session: &Session, adr: u32, sz: u32) -> (call: Result<
    DriverCall,
    OutOfOrder,
>)
    ensures
        call == authorization(
            session@,
            (DriverCall::Program {
                mode: TransferMode::Qpi,
                address: rebased(adr) as u32,
                length: sz,
            }),
        ),
{
    session.authorize(
        DriverCall::Program { mode: TransferMode::Qpi, address: rebase(adr), length: sz },
    )
}

/// Ends erasing, programming or verifying: gives the driver calls to make, in
/// order, and the host status to return after them. The session is no longer
/// ready afterwards.
///
/// Always succeeds. The argument (the function the host has performed)
/// changes nothing.
#[allow(non_snake_case)]
pub fn UnInit(session: &mut Session, _fnc: u32) -> (plan: ([DriverCall; 2], i32))
    ensures
        final(session)@ == State::Uninitialized,
        plan.0@ == release_calls(),
        plan.1 == SUCCESS,
{
    (session.release(), SUCCESS)
}

/// Decides what to read back before `sz` bytes at host address `adr` can be
/// verified: the driver call that reads them in quad-I/O mode, or, where `sz`
/// is over the read-back capacity, the outcome of the verification, with
/// nothing to read.
///
/// No session is asked for. The read works while the controller owns the
/// flash bus; calling between `Init` and `UnInit` is up to the host.
pub fn verify_read(adr: u32, sz: u32) -> (read: Result<DriverCall, VerifyOutcome>)
    ensures
        sz > READBACK_CAPACITY ==> read == Err::<DriverCall, VerifyOutcome>(
            VerifyOutcome::SizeTooLarge,
        ),
        sz <= READBACK_CAPACITY ==> read == Ok::<DriverCall, VerifyOutcome>(
            (DriverCall::Read {
                mode: TransferMode::Qpi,
                lock_flag: 0,
                address: rebased(adr) as u32,
                length: sz,
            }),
        ),
{
    if sz > READBACK_CAPACITY {
        Err(VerifyOutcome::SizeTooLarge)
    } else {
        Ok(
            DriverCall::Read {
                mode: TransferMode::Qpi,
                lock_flag: 0,
                address: rebase(adr),
                length: sz,
            },
        )
    }
}

/// Verifies the region that starts at host address `adr` and holds
/// `programmed`, given the driver's answer to the read that
/// [`verify_read`] asked for: its result `code` and the bytes `stored` that
/// it read.
///
/// The size of the region is the length of `programmed`. Where that is over
/// the read-back capacity, or `code` is nonzero, `stored` is not looked at.
#[allow(non_snake_case)]
pub fn Verify(adr: u32, programmed: &[u8], code: i32, stored: &[u8]) -> (outcome: VerifyOutcome)
    requires
        programmed@.len() <= READBACK_CAPACITY ==> adr + programmed@.len() <= u32::MAX,
        programmed@.len() <= READBACK_CAPACITY && code == 0 ==> programmed@.len()
            <= stored@.len(),
    ensures
        outcome == verification(adr, programmed@, code, stored@),
        programmed@.len() <= READBACK_CAPACITY && code == 0 ==> compared(
            outcome,
            adr,
            programmed@,
            stored@,
        ),
{
    if programmed.len() > READBACK_CAPACITY as usize {
        VerifyOutcome::SizeTooLarge
    } else if code != 0 {
        VerifyOutcome::ReadFailed
    } else {
        compare(adr, programmed, stored)
    }
}

/// Number of entries in the sector table of the device descriptor.
pub const SECTOR_TABLE_LEN: usize = 512;

/// Version of the descriptor format.
pub const DESCRIPTOR_VERSION: u16 = 0x0101;

/// Device type of a flash behind an external SPI-like bus.
pub const EXT_SPI: u16 = 5;

/// Size of the device in bytes.
pub const DEVICE_SIZE: u32 = 0x1e8480;

/// Size of a programming page in bytes.
pub const PAGE_SIZE: u32 = 256;

/// Value of a byte that has been erased.
pub const ERASED_BYTE: u8 = 0xff;

/// Time the host allows for programming a page, in milliseconds.
pub const PROGRAM_TIME_OUT: u32 = 5;

/// Time the host allows for erasing a sector, in milliseconds.
pub const ERASE_TIME_OUT: u32 = 20000;

/// One entry of the sector table: from `address` on, counted from the start
/// of the device, sectors are `size` bytes large.
#[derive(Copy, Clone, Debug, PartialEq, Eq, Structural)]
pub struct FlashSector {
    pub size: u32,
    pub address: u32,
}

impl FlashSector {
    /// The entry that fills the unused part of the table: size zero at
    /// address zero.
    pub fn default() -> (sector: Self)
        ensures
            sector == (FlashSector { size: 0, address: 0 }),
    {
        FlashSector { size: 0, address: 0 }
    }

    /// The entry that ends the sector table.
    pub fn end() -> (sector: Self)
        ensures
            sector == sector_end(),
    {
        FlashSector { size: 0xffff_ffff, address: 0xffff_ffff }
    }

    /// Whether this entry ends the sector table.
    pub fn is_end(&self) -> (end: bool)
        ensures
            end <==> *self == sector_end(),
    {
        self.size == 0xffff_ffff && self.address == 0xffff_ffff
    }
}

/// The entry that ends the sector table: all ones in both fields.
pub open spec fn sector_end() -> FlashSector {
    FlashSector { size: 0xffff_ffff, address: 0xffff_ffff }
}

/// The table ends at index `n`: entry `n` is the terminator and no entry
/// before it is.
pub open spec fn ends_at(table: Seq<FlashSector>, n: int) -> bool {
    &&& 0 <= n < table.len()
    &&& table[n] == sector_end()
    &&& forall|i: int| 0 <= i < n ==> table[i] != sector_end()
}

/// The addresses of the first `n` entries never go down.
pub open spec fn ascending(table: Seq<FlashSector>, n: int) -> bool {
    forall|i: int, j: int| 0 <= i <= j < n ==> table[i].address <= table[j].address
}

/// A sector table is well formed when it has a terminator and the entries up
/// to the first terminator are in order of address, lowest first.
pub open spec fn well_formed(table: Seq<FlashSector>) -> bool {
    exists|n: int| ends_at(table, n) && ascending(table, n)
}

/// The sector table of the device: one region of sectors of [`SECTOR_SIZE`]
/// bytes from address zero, the terminator, and filler after it.
pub open spec fn sector_table() -> Seq<FlashSector> {
    Seq::new(
        SECTOR_TABLE_LEN as nat,
        |i: int|
            if i == 0 {
                FlashSector { size: SECTOR_SIZE, address: 0 }
            } else if i == 1 {
                sector_end()
            } else {
                FlashSector { size: 0, address: 0 }
            },
    )
}

/// Builds the sector table of the device.
pub fn sectors() -> (table: [FlashSector; 512])
    ensures
        table@ == sector_table(),
        ends_at(table@, 1),
        ascending(table@, 1),
        well_formed(table@),
{
    let mut table: [FlashSector; 512] = [FlashSector::default(); 512];
    table[0] = FlashSector { size: SECTOR_SIZE, address: 0x0 };
    table[1] = FlashSector::end();
    assert(table@ =~= sector_table());
    assert(ends_at(table@, 1));
    table
}

/// Reads a sector table from its first entry on and gives the index of its
/// terminator, which is also the number of regions it describes, or `None`
/// where the table is not well formed.
pub fn terminator(table: &[FlashSector]) -> (end: Option<usize>)
    ensures
        match end {
            Some(n) => ends_at(table@, n as int) && ascending(table@, n as int),
            None => !well_formed(table@),
        },
{
    let mut i: usize = 0;
    while i < table.len()
        invariant
            i <= table@.len(),
            forall|k: int| 0 <= k < i ==> table@[k] != sector_end(),
            ascending(table@, i as int),
        decreases table@.len() - i,
    {
        let entry: FlashSector = table[i];
        if entry.is_end() {
            return Some(i);
        }
        if i > 0 && entry.address < table[i - 1].address {
            assert forall|n: int| ends_at(table@, n) implies !ascending(table@, n) by {
                assert(n > i);
            }
            return None;
        }
        assert forall|a: int, b: int| 0 <= a <= b < i + 1 implies table@[a].address
            <= table@[b].address by {
            if b == i && a < i {
                assert(table@[a].address <= table@[i - 1].address);
            }
        }
        i = i + 1;
    }
    None
}

/// What the programming host needs to know about the device before it plans
/// its erase and program operations.
pub struct FlashDeviceDescription {
    /// Version of the descriptor format.
    pub vers: u16,
    /// Name of the device, as a zero-padded string.
    pub dev_name: [u8; 128],
    /// Kind of device.
    pub dev_type: u16,
    /// Host address at which the device begins.
    pub dev_addr: u32,
    /// Size of the device in bytes.
    pub device_size: u32,
    /// Size of a programming page in bytes.
    pub page_size: u32,
    /// Not used; zero.
    pub _reserved: u32,
    /// Value of a byte that has been erased.
    pub empty: u8,
    /// Time the host allows for programming a page, in milliseconds.
    pub program_time_out: u32,
    /// Time the host allows for erasing a sector, in milliseconds.
    pub erase_time_out: u32,
    /// The regions of equal-sized sectors, lowest address first, ended by
    /// the entry of all ones.
    pub flash_sectors: [FlashSector; 512],
}

impl FlashDeviceDescription {
    /// The sector table has a terminator, and the entries before it are in
    /// order of address.
    pub open spec fn well_formed(&self) -> bool {
        well_formed(self.flash_sectors@)
    }
}

/// The descriptor of the device.
pub fn flash_device() -> (device: FlashDeviceDescription)
    ensures
        device.vers == DESCRIPTOR_VERSION,
        device.dev_name@ == Seq::new(128, |i: int| 0u8),
        device.dev_type == EXT_SPI,
        device.dev_addr == BASE_ADDRESS,
        device.device_size == DEVICE_SIZE,
        device.page_size == PAGE_SIZE,
        device._reserved == 0,
        device.empty == ERASED_BYTE,
        device.program_time_out == PROGRAM_TIME_OUT,
        device.erase_time_out == ERASE_TIME_OUT,
        device.flash_sectors@ == sector_table(),
        device.well_formed(),
{
    let name: [u8; 128] = [0u8; 128];
    assert(name@ =~= Seq::new(128, |i: int| 0u8));
    FlashDeviceDescription {
        vers: DESCRIPTOR_VERSION,
        dev_name: name,
        dev_type: EXT_SPI,
        dev_addr: BASE_ADDRESS,
        device_size: DEVICE_SIZE,
        page_size: PAGE_SIZE,
        _reserved: 0,
        empty: ERASED_BYTE,
        program_time_out: PROGRAM_TIME_OUT,
        erase_time_out: ERASE_TIME_OUT,
        flash_sectors: sectors(),
    }
}

} // verus!
