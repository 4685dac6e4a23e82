//! Verified core of a minimal 64-bit boot chain: a firmware-hosted loader that
//! places a kernel image, and the kernel's own bring-up of descriptor tables,
//! interrupt vectors, an identity-mapped address space and a serial console.
//!
//! Everything here computes on plain values. Whatever touches the machine
//! (ports, control registers, firmware services) is left to the caller, which
//! performs the actions that these functions decide on.

pub mod allocator;
pub mod bits;
pub mod boot;
pub mod gdt;
pub mod interrupt;
pub mod kernel;
pub mod loader;
pub mod memory;
pub mod paging;
pub mod task;
pub mod translation;
pub mod uart;
