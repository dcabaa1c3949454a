//! PeekOS, the parts that decide: how the COM1 UART is brought up and fed,
//! what the kernel tells the serial console while it boots and how the boot
//! ends, and how the host-side orchestrator builds, boots and judges it.
//!
//! The port I/O, the QEMU process and the file system live with the callers;
//! everything here is plain computation with a contract.
pub mod wire;
pub mod uart;
pub mod boot;
pub mod boot_test;
pub mod xtask;
