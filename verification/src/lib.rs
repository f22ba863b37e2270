//! Core driver layer of a minimal text-console kernel.
//!
//! The crate verifies the logic that sits directly on the hardware
//! protocols: the polled ATA (PIO) disk driver, the cascaded 8259
//! interrupt-controller driver, the spinlock primitive, and the
//! memory-mapped text console.  Port-level hardware access is modelled
//! by in-memory devices with explicit semantics, so every driver
//! decision is stated in a contract and proved; the thin layer that
//! touches real ports and video memory lives outside the library.

pub mod allocator;
pub mod ata;
pub mod calc;
pub mod cpu;
pub mod keyboard;
pub mod parse;
pub mod pic;
pub mod spin;
pub mod vga_buffer;
