//! Flash-programming adapter for the serial NOR flash of the BL602.
//!
//! A programming host drives the flash through a small set of entry points:
//! `Init`, `UnInit`, `EraseSector`, `EraseChip`, `ProgramPage` and `Verify`.
//! This crate holds what those entry points decide: how a host address maps to
//! the address the flash driver works with, which driver calls an entry point
//! makes and in what order, how a driver result becomes a host status, and how
//! a read-back is compared against the data that was programmed.
//!
//! The crate never touches the hardware. An entry point hands back the driver
//! calls to make as plain values ([`driver::DriverCall`]); whoever owns the
//! hardware performs them and hands the driver's answer to the function that
//! finishes the entry point.

pub mod address;

pub mod driver;
pub mod verify;
pub mod session;
pub mod flash;
pub mod xip_flash;
