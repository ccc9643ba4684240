use bl602_flash_algo::driver::{status, BusOwner, DriverCall};
use bl602_flash_algo::flash;
use bl602_flash_algo::session::Session;
use bl602_flash_algo::verify::VerifyOutcome;
use bl602_flash_algo::xip_flash;

const BASE: u32 = 0x2300_0000;
const DEVICE_SIZE: usize = 0x1e8480;

/// A flash that lives in memory: erasing sets bytes to 0xff, programming can
/// only clear bits, and every call is recorded.
struct Device {
    cells: Vec<u8>,
    owner: BusOwner,
    cache_on: bool,
    image_offset: u32,
    calls: Vec<DriverCall>,
}

fn new_device() -> Device {
    Device {
        cells: vec![0x5a; DEVICE_SIZE],
        owner: BusOwner::MemoryMapped,
        cache_on: true,
        image_offset: 0x11000,
        calls: Vec::new(),
    }
}

fn span(device: &Device, address: u32, length: u32) -> Option<std::ops::Range<usize>> {
    let start = address as usize;
    let end = start.checked_add(length as usize)?;
    if end <= device.cells.len() {
        Some(start..end)
    } else {
        None
    }
}

fn erase(device: &mut Device, address: u32, length: u32) -> i32 {
    match span(device, address, length) {
        Some(range) => {
            device.cells[range].fill(0xff);
            0
        }
        None => 1,
    }
}

fn program(device: &mut Device, address: u32, data: &[u8]) -> i32 {
    match span(device, address, data.len() as u32) {
        Some(range) => {
            for (cell, byte) in device.cells[range].iter_mut().zip(data) {
                *cell &= *byte;
            }
            0
        }
        None => 1,
    }
}

fn read(device: &Device, address: u32, out: &mut [u8]) -> i32 {
    match span(device, address, out.len() as u32) {
        Some(range) => {
            out.copy_from_slice(&device.cells[range]);
            0
        }
        None => 1,
    }
}

/// Makes one driver call on the device. `data` is what a program call writes;
/// `out` is where a read call puts what it read.
fn perform(device: &mut Device, call: DriverCall, data: &[u8], out: &mut [u8]) -> i32 {
    device.calls.push(call);
    match call {
        DriverCall::CacheReadDisable => {
            device.cache_on = false;
            0
        }
        DriverCall::CacheFlush => 0,
        DriverCall::SetFlashImageOffset { offset } => {
            device.image_offset = offset;
            0
        }
        DriverCall::SetOwner { owner } => {
            device.owner = owner;
            0
        }
        DriverCall::SectorErase { sector } => match sector.checked_mul(4096) {
            Some(address) => erase(device, address, 4096),
            None => 1,
        },
        DriverCall::ChipErase => {
            device.cells.fill(0xff);
            0
        }
        DriverCall::Program { address, length, .. } => {
            program(device, address, &data[..length as usize])
        }
        DriverCall::Read { address, length, .. } => {
            read(device, address, &mut out[..length as usize])
        }
        DriverCall::EraseWithLock { address, length } => {
            erase(device, address.wrapping_sub(BASE), length)
        }
        DriverCall::WriteWithLock { address, length } => {
            program(device, address.wrapping_sub(BASE), &data[..length as usize])
        }
        DriverCall::ReadViaCacheNeedLock { address, length }
        | DriverCall::ReadNeedLock { address, length } => {
            read(device, address.wrapping_sub(BASE), &mut out[..length as usize])
        }
    }
}

fn init(session: &mut Session, device: &mut Device) -> i32 {
    let (calls, result) = flash::Init(session, BASE, 0, 1);
    for call in calls {
        perform(device, call, &[], &mut []);
    }
    result
}

fn uninit(session: &mut Session, device: &mut Device) -> i32 {
    let (calls, result) = flash::UnInit(session, 1);
    for call in calls {
        perform(device, call, &[], &mut []);
    }
    result
}

fn erase_chip(session: &Session, device: &mut Device) -> i32 {
    match flash::EraseChip(session) {
        Ok(call) => status(perform(device, call, &[], &mut [])),
        Err(refused) => refused.status(),
    }
}

fn erase_sector(session: &Session, device: &mut Device, adr: u32) -> i32 {
    match flash::EraseSector(session, adr) {
        Ok(call) => status(perform(device, call, &[], &mut [])),
        Err(refused) => refused.status(),
    }
}

fn program_page(session: &Session, device: &mut Device, adr: u32, buf: &[u8]) -> i32 {
    match flash::ProgramPage(session, adr, buf.len() as u32) {
        Ok(call) => status(perform(device, call, buf, &mut [])),
        Err(refused) => refused.status(),
    }
}

fn verify(device: &mut Device, adr: u32, buf: &[u8], expected: &mut i16, found: &mut i16) -> u32 {
    let mut readback = [0u8; 4096];
    let outcome = match flash::verify_read(adr, buf.len() as u32) {
        Err(outcome) => outcome,
        Ok(call) => {
            let code = perform(device, call, &[], &mut readback);
            flash::Verify(adr, buf, code, &readback[..buf.len()])
        }
    };
    outcome.report(expected, found)
}

fn test_buffer() -> Vec<u8> {
    (0..=255u8).collect()
}

#[test]
fn erase_program_verify_round_trip() {
    let mut session = Session::new();
    let mut device = new_device();
    let buffer = test_buffer();
    assert_eq!(init(&mut session, &mut device), 0);
    assert_eq!(erase_chip(&session, &mut device), 0);
    assert_eq!(program_page(&session, &mut device, BASE, &buffer), 0);
    assert_eq!(uninit(&mut session, &mut device), 0);
    let mut expected: i16 = -1;
    let mut found: i16 = -1;
    assert_eq!(verify(&mut device, BASE, &buffer, &mut expected, &mut found), BASE + 256);
    assert_eq!((expected, found), (-1, -1));
}

#[test]
fn corrupted_buffer_is_reported_at_its_offset() {
    let mut session = Session::new();
    let mut device = new_device();
    let mut buffer = test_buffer();
    init(&mut session, &mut device);
    erase_chip(&session, &mut device);
    program_page(&session, &mut device, BASE, &buffer);
    uninit(&mut session, &mut device);
    buffer[10] = 0xff;
    let mut expected: i16 = -1;
    let mut found: i16 = -1;
    assert_eq!(verify(&mut device, BASE, &buffer, &mut expected, &mut found), BASE + 10);
    assert_eq!(expected, 0xff);
    assert_eq!(found, 10);
}

#[test]
fn init_and_uninit_drive_the_bus_owner() {
    let mut session = Session::new();
    let mut device = new_device();
    init(&mut session, &mut device);
    assert_eq!(device.owner, BusOwner::Controller);
    assert!(!device.cache_on);
    assert_eq!(device.image_offset, 0);
    uninit(&mut session, &mut device);
    assert_eq!(device.owner, BusOwner::MemoryMapped);
    assert_eq!(
        device.calls,
        [
            DriverCall::CacheReadDisable,
            DriverCall::SetFlashImageOffset { offset: 0 },
            DriverCall::SetOwner { owner: BusOwner::Controller },
            DriverCall::SetOwner { owner: BusOwner::MemoryMapped },
            DriverCall::CacheFlush,
        ]
    );
}

#[test]
fn erase_without_init_reaches_no_driver_call() {
    let session = Session::new();
    let mut device = new_device();
    assert_eq!(erase_chip(&session, &mut device), 1);
    assert_eq!(erase_sector(&session, &mut device, BASE), 1);
    assert_eq!(program_page(&session, &mut device, BASE, &[1, 2, 3]), 1);
    assert!(device.calls.is_empty());
    assert!(device.cells.iter().all(|cell| *cell == 0x5a));
}

#[test]
fn erase_sector_clears_exactly_one_sector() {
    let mut session = Session::new();
    let mut device = new_device();
    init(&mut session, &mut device);
    assert_eq!(erase_sector(&session, &mut device, BASE + 0x1234), 0);
    assert!(device.cells[..0x1000].iter().all(|cell| *cell == 0x5a));
    assert!(device.cells[0x1000..0x2000].iter().all(|cell| *cell == 0xff));
    assert!(device.cells[0x2000..].iter().all(|cell| *cell == 0x5a));
}

#[test]
fn driver_failure_becomes_status_one() {
    let mut session = Session::new();
    let mut device = new_device();
    init(&mut session, &mut device);
    assert_eq!(erase_sector(&session, &mut device, 0), 1);
    assert_eq!(program_page(&session, &mut device, BASE + DEVICE_SIZE as u32, &[0]), 1);
}

#[test]
fn verify_of_unprogrammed_flash_reports_first_byte() {
    let mut session = Session::new();
    let mut device = new_device();
    init(&mut session, &mut device);
    erase_chip(&session, &mut device);
    let buffer = test_buffer();
    let mut expected: i16 = -1;
    let mut found: i16 = -1;
    assert_eq!(verify(&mut device, BASE + 0x100, &buffer, &mut expected, &mut found), BASE + 0x100);
    assert_eq!(expected, 0);
    assert_eq!(found, 0xff);
}

#[test]
fn verify_outside_the_device_is_a_failed_read() {
    let mut device = new_device();
    let buffer = test_buffer();
    let mut expected: i16 = -1;
    let mut found: i16 = -1;
    assert_eq!(verify(&mut device, 0x1000, &buffer, &mut expected, &mut found), 1);
    assert_eq!((expected, found), (-1, -1));
    let outcome = match flash::verify_read(0x1000, 256) {
        Ok(call) => {
            let mut readback = [0u8; 4096];
            let code = perform(&mut device, call, &[], &mut readback);
            flash::Verify(0x1000, &buffer, code, &readback[..256])
        }
        Err(outcome) => outcome,
    };
    assert_eq!(outcome, VerifyOutcome::ReadFailed);
}

#[test]
fn verify_over_capacity_reads_nothing() {
    let mut device = new_device();
    let buffer = vec![0u8; 4097];
    let mut expected: i16 = -1;
    let mut found: i16 = -1;
    assert_eq!(verify(&mut device, BASE, &buffer, &mut expected, &mut found), 0);
    assert_eq!((expected, found), (-1, -1));
    assert!(device.calls.is_empty());
}

#[test]
fn memory_mapped_path_round_trip() {
    let mut session = Session::new();
    let mut device = new_device();
    let buffer = test_buffer();
    let (calls, result) = xip_flash::Init(&mut session, BASE, 0, 1);
    for call in calls {
        perform(&mut device, call, &[], &mut []);
    }
    assert_eq!(result, 0);
    let erase = xip_flash::EraseSector(&session, BASE + 0x3000).expect("session is ready");
    assert_eq!(status(perform(&mut device, erase, &[], &mut [])), 0);
    let write = xip_flash::ProgramPage(&session, BASE + 0x3000, 256).expect("session is ready");
    assert_eq!(status(perform(&mut device, write, &buffer, &mut [])), 0);
    let (calls, result) = xip_flash::UnInit(&mut session, 1);
    for call in calls {
        perform(&mut device, call, &[], &mut []);
    }
    assert_eq!(result, 0);

    let mut readback = [0u8; 4096];
    let call = xip_flash::verify_read(BASE + 0x3000, 256).expect("within capacity");
    perform(&mut device, call, &[], &mut readback);
    assert_eq!(
        xip_flash::Verify(BASE + 0x3000, &buffer, &readback[..256]),
        VerifyOutcome::Success { end: BASE + 0x3100 }
    );

    let mut out = [0u8; 16];
    let call = xip_flash::Read(BASE + 0x3010, 16);
    let code = perform(&mut device, call, &[], &mut out);
    assert_eq!(xip_flash::read_status(code), 2);
    assert_eq!(out, [16, 17, 18, 19, 20, 21, 22, 23, 24, 25, 26, 27, 28, 29, 30, 31]);
    let call = xip_flash::Read(0, 16);
    let code = perform(&mut device, call, &[], &mut out);
    assert_eq!(xip_flash::read_status(code), 0);
}
