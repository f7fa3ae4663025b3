//! Fixed guest physical memory map for this aarch64 platform.
//!
//! ```text
//!  0x0000_0000 .. MAPPED_IO_START   : low memory / reserved
//!  MAPPED_IO_START .. DRAM_MEM_START: MMIO window (size MMIO_MEM_SIZE)
//!  DRAM_MEM_START                   : system table region (SYSTEM_MEM_SIZE)
//!  DRAM_MEM_START+SYSTEM_MEM_SIZE   : kernel image
//!  ... payload ...
//!  [initrd, page-aligned, below the FDT]
//!  [FDT blob, up to FDT_MAX_SIZE at the top of DRAM]
//!  DRAM end <= DRAM_MEM_START + DRAM_MEM_MAX_SIZE
//! ```

use vstd::prelude::*;

verus! {

/// The start of the 32-bit MMIO window reserved for devices.
pub const MAPPED_IO_START: u64 = 0x4000_0000;

/// Base of guest DRAM, immediately above the MMIO window.
pub const DRAM_MEM_START: u64 = 0x8000_0000;

/// Hard ceiling on the guest DRAM size for this platform, in bytes.
pub const DRAM_MEM_MAX_SIZE: u64 = 0x00FF_8000_0000;

/// Start of the region reserved below the kernel for system tables.
pub const SYSTEM_MEM_START: u64 = DRAM_MEM_START;

/// Size of the reserved system table region; the kernel image starts
/// immediately above it.
pub const SYSTEM_MEM_SIZE: u64 = 0x20_0000;

/// Maximum size of the flattened device tree blob.
pub const FDT_MAX_SIZE: usize = 0x20_0000;

/// Guest page granularity, used to align the initrd.
pub const GUEST_PAGE_SIZE: usize = 4096;

/// The start of the memory area reserved for MMIO devices.
pub const MMIO_MEM_START: u64 = MAPPED_IO_START;

/// The size of the memory area reserved for MMIO devices.
pub const MMIO_MEM_SIZE: u64 = DRAM_MEM_START - MAPPED_IO_START;

} // verus!
