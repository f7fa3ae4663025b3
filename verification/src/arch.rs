//! Planning of the aarch64 guest boot layout: the DRAM region, the kernel
//! load address, the device tree address, and the initrd placement.

use vstd::prelude::*;

use crate::layout::{
    DRAM_MEM_MAX_SIZE, DRAM_MEM_START, FDT_MAX_SIZE, GUEST_PAGE_SIZE, SYSTEM_MEM_SIZE,
    SYSTEM_MEM_START,
};
use crate::memory::{GuestAddress, GuestMemory};

verus! {

/// Boot protocols an aarch64 guest kernel can be entered through.
#[derive(Clone, Copy, Debug, PartialEq, Eq, Structural)]
pub enum BootProtocol {
    /// The Linux 64-bit boot protocol.
    LinuxBoot,
}

/// Entry point of a loaded guest kernel.
#[derive(Clone, Copy, Debug, PartialEq, Eq, Structural)]
pub struct EntryPoint {
    /// Address the guest starts executing at.
    pub entry_addr: GuestAddress,
    /// Protocol the kernel is entered through.
    pub protocol: BootProtocol,
}

/// The DRAM size a request of `size` bytes is granted: clamped to the
/// platform ceiling.
pub open spec fn spec_dram_size(size: usize) -> int {
    if size <= DRAM_MEM_MAX_SIZE {
        size as int
    } else {
        DRAM_MEM_MAX_SIZE as int
    }
}

/// Returns the valid memory regions for aarch64: exactly one DRAM region
/// at `DRAM_MEM_START`, its length the requested size clamped to the
/// platform ceiling.
pub fn arch_memory_regions(size: usize) -> (r: Vec<(GuestAddress, usize)>)
    ensures
        r@.len() == 1,
        r@[0].0 == GuestAddress(DRAM_MEM_START),
        r@[0].1 == spec_dram_size(size),
{
    let dram_size: usize = if (size as u64) <= DRAM_MEM_MAX_SIZE {
        size
    } else {
        DRAM_MEM_MAX_SIZE as usize
    };
    vec![(GuestAddress(DRAM_MEM_START), dram_size)]
}

/// Returns the memory address where the kernel is loaded: immediately
/// above the reserved system table region.
pub fn get_kernel_start() -> (r: u64)
    ensures
        r == SYSTEM_MEM_START + SYSTEM_MEM_SIZE,
{
    SYSTEM_MEM_START + SYSTEM_MEM_SIZE
}

/// The entry point of a kernel image the loader placed at `kernel_load`;
/// an aarch64 guest is always entered through the Linux boot protocol.
pub fn entry_point_for(kernel_load: GuestAddress) -> (r: EntryPoint)
    ensures
        r == (EntryPoint { entry_addr: kernel_load, protocol: BootProtocol::LinuxBoot }),
{
    EntryPoint { entry_addr: kernel_load, protocol: BootProtocol::LinuxBoot }
}

/// The address where the device tree blob is written: the start of the
/// highest `FDT_MAX_SIZE` bytes of guest memory when that start is a valid
/// address, else `DRAM_MEM_START`.
pub open spec fn spec_fdt_addr(mem: GuestMemory) -> u64 {
    if mem.spec_last_addr() >= FDT_MAX_SIZE - 1 && mem.spec_in_range(
        (mem.spec_last_addr() - (FDT_MAX_SIZE - 1)) as u64,
    ) {
        (mem.spec_last_addr() - (FDT_MAX_SIZE - 1)) as u64
    } else {
        DRAM_MEM_START
    }
}

/// Returns the address where the device tree blob is loaded.
///
/// If the memory is smaller than the size reserved for the FDT, the start
/// of the DRAM is returned, so that the caller may still try to load the
/// FDT there.
pub fn get_fdt_addr(mem: &GuestMemory) -> (r: u64)
    requires
        mem.wf(),
    ensures
        r == spec_fdt_addr(*mem),
{
    if let Some(addr) = mem.last_addr().checked_sub(FDT_MAX_SIZE as u64 - 1) {
        if mem.address_in_range(addr) {
            return addr.raw_value();
        }
    }
    DRAM_MEM_START
}

/// `size` rounded up to the next multiple of the guest page size.
pub open spec fn spec_round_to_pagesize(size: usize) -> int {
    ((size + GUEST_PAGE_SIZE - 1) / (GUEST_PAGE_SIZE as int)) * GUEST_PAGE_SIZE
}

/// The initrd placement: the page-rounded initrd size subtracted from the
/// FDT address, when that address exists and is valid; else nothing.
pub open spec fn spec_initrd_load_addr(mem: GuestMemory, initrd_size: usize) -> Option<u64> {
    let rounded = spec_round_to_pagesize(initrd_size);
    let fdt = spec_fdt_addr(mem);
    if rounded <= fdt && mem.spec_in_range((fdt - rounded) as u64) {
        Some((fdt - rounded) as u64)
    } else {
        None
    }
}

/// Returns the memory address where the initrd is loaded, when an
/// initrd of `initrd_size` bytes fits below the device tree.
pub fn initrd_load_addr(guest_mem: &GuestMemory, initrd_size: usize) -> (r: Option<u64>)
    requires
        guest_mem.wf(),
        initrd_size + GUEST_PAGE_SIZE - 1 <= usize::MAX,
    ensures
        r == spec_initrd_load_addr(*guest_mem, initrd_size),
{
    let sum: usize = initrd_size + (GUEST_PAGE_SIZE - 1);
    let rounded: usize = (sum / GUEST_PAGE_SIZE) * GUEST_PAGE_SIZE;
    assert((sum / GUEST_PAGE_SIZE) * GUEST_PAGE_SIZE <= sum) by (nonlinear_arith);
    match GuestAddress(get_fdt_addr(guest_mem)).checked_sub(rounded as u64) {
        Some(offset) => {
            if guest_mem.address_in_range(offset) {
                Some(offset.raw_value())
            } else {
                None
            }
        },
        None => None,
    }
}

/// When `last_addr() - (FDT_MAX_SIZE - 1)` is a valid guest address, the
/// device tree reservation spans exactly the highest `FDT_MAX_SIZE` bytes
/// of guest memory: the FDT address sits `FDT_MAX_SIZE - 1` bytes below
/// the last address.  Otherwise the FDT address falls back to
/// `DRAM_MEM_START`.
pub proof fn lemma_fdt_addr_reserves_top(mem: GuestMemory)
    requires
        mem.wf(),
    ensures
        mem.spec_last_addr() >= FDT_MAX_SIZE - 1 && mem.spec_in_range(
            (mem.spec_last_addr() - (FDT_MAX_SIZE - 1)) as u64,
        ) ==> spec_fdt_addr(mem) == mem.spec_last_addr() - (FDT_MAX_SIZE - 1),
        !(mem.spec_last_addr() >= FDT_MAX_SIZE - 1 && mem.spec_in_range(
            (mem.spec_last_addr() - (FDT_MAX_SIZE - 1)) as u64,
        )) ==> spec_fdt_addr(mem) == DRAM_MEM_START,
{
}

/// An initrd placement, when one exists, is page-aligned and strictly
/// below the device tree address.  Holds of every well-formed guest DRAM
/// region based at `DRAM_MEM_START` whose size is a whole number of pages,
/// and of every non-empty initrd.
pub proof fn lemma_initrd_below_fdt(mem: GuestMemory, initrd_size: usize)
    requires
        mem.wf(),
        mem.base.0 == DRAM_MEM_START,
        mem.size % GUEST_PAGE_SIZE == 0,
        1 <= initrd_size,
        initrd_size + GUEST_PAGE_SIZE - 1 <= usize::MAX,
    ensures
        spec_initrd_load_addr(mem, initrd_size) matches Some(addr) ==> addr % (
        GUEST_PAGE_SIZE as u64) == 0 && addr < spec_fdt_addr(mem),
{
    let q = (initrd_size + GUEST_PAGE_SIZE - 1) / (GUEST_PAGE_SIZE as int);
    let rounded = spec_round_to_pagesize(initrd_size);
    let fdt = spec_fdt_addr(mem) as int;
    assert(q >= 1);
    assert(rounded == q * GUEST_PAGE_SIZE);
    assert(rounded >= GUEST_PAGE_SIZE && rounded % (GUEST_PAGE_SIZE as int) == 0)
        by (nonlinear_arith)
        requires
            q >= 1,
            rounded == q * GUEST_PAGE_SIZE,
            GUEST_PAGE_SIZE == 4096,
    ;
    assert(fdt % (GUEST_PAGE_SIZE as int) == 0) by {
        if mem.spec_last_addr() >= FDT_MAX_SIZE - 1 && mem.spec_in_range(
            (mem.spec_last_addr() - (FDT_MAX_SIZE - 1)) as u64,
        ) {
            let pages = mem.size / GUEST_PAGE_SIZE;
            assert(mem.size == pages * GUEST_PAGE_SIZE);
            assert(fdt == DRAM_MEM_START + mem.size - FDT_MAX_SIZE);
            assert((DRAM_MEM_START + pages * GUEST_PAGE_SIZE - FDT_MAX_SIZE) % (
            GUEST_PAGE_SIZE as int) == 0) by (nonlinear_arith)
                requires
                    GUEST_PAGE_SIZE == 4096,
                    DRAM_MEM_START == 0x8000_0000,
                    FDT_MAX_SIZE == 0x20_0000,
                    pages >= 0,
            ;
        } else {
            assert((DRAM_MEM_START as int) % (GUEST_PAGE_SIZE as int) == 0);
        }
    }
    if rounded <= fdt && mem.spec_in_range((fdt - rounded) as u64) {
        assert((fdt - rounded) % (GUEST_PAGE_SIZE as int) == 0) by (nonlinear_arith)
            requires
                fdt % (GUEST_PAGE_SIZE as int) == 0,
                rounded % (GUEST_PAGE_SIZE as int) == 0,
                rounded <= fdt,
                GUEST_PAGE_SIZE == 4096,
        ;
    }
}

} // verus!
