use vmm::arch::{
    arch_memory_regions, entry_point_for, get_fdt_addr, get_kernel_start, initrd_load_addr,
    BootProtocol,
};
use vmm::layout::{
    DRAM_MEM_MAX_SIZE, DRAM_MEM_START, FDT_MAX_SIZE, GUEST_PAGE_SIZE, MAPPED_IO_START,
    MMIO_MEM_SIZE, MMIO_MEM_START, SYSTEM_MEM_SIZE, SYSTEM_MEM_START,
};
use vmm::memory::{GuestAddress, GuestMemory};

/// Guest memory as the arch region planner lays it out for `size` bytes.
fn arch_mem(size: usize) -> GuestMemory {
    let regions = arch_memory_regions(size);
    GuestMemory::new(regions[0].0, regions[0].1)
}

#[test]
fn test_regions_lt_1024gb() {
    let regions = arch_memory_regions(1usize << 29);
    assert_eq!(1, regions.len());
    assert_eq!(GuestAddress(DRAM_MEM_START), regions[0].0);
    assert_eq!(1usize << 29, regions[0].1);
}

#[test]
fn test_regions_gt_1024gb() {
    let regions = arch_memory_regions(1usize << 41);
    assert_eq!(1, regions.len());
    assert_eq!(GuestAddress(DRAM_MEM_START), regions[0].0);
    assert_eq!(DRAM_MEM_MAX_SIZE as usize, regions[0].1);
}

#[test]
fn test_get_fdt_addr() {
    let mem = arch_mem(FDT_MAX_SIZE - 0x1000);
    assert_eq!(get_fdt_addr(&mem), DRAM_MEM_START);

    let mem = arch_mem(FDT_MAX_SIZE);
    assert_eq!(get_fdt_addr(&mem), DRAM_MEM_START);

    let mem = arch_mem(FDT_MAX_SIZE + 0x1000);
    assert_eq!(get_fdt_addr(&mem), 0x1000 + DRAM_MEM_START);
}

#[test]
fn test_kernel_start_above_system_region() {
    assert_eq!(get_kernel_start(), SYSTEM_MEM_START + SYSTEM_MEM_SIZE);
    assert_eq!(get_kernel_start(), 0x8020_0000);
}

#[test]
fn test_mmio_window() {
    assert_eq!(MMIO_MEM_START, MAPPED_IO_START);
    assert_eq!(MMIO_MEM_SIZE, DRAM_MEM_START - MAPPED_IO_START);
}

#[test]
fn test_initrd_fits_below_fdt() {
    // 128 MiB of DRAM: the FDT sits FDT_MAX_SIZE below the top.
    let mem = arch_mem(128 << 20);
    let fdt_addr = get_fdt_addr(&mem);
    let addr = initrd_load_addr(&mem, 0x1001).unwrap();
    assert_eq!(addr, fdt_addr - 0x2000);
    assert_eq!(addr % GUEST_PAGE_SIZE as u64, 0);
    assert!(addr < fdt_addr);
}

#[test]
fn test_initrd_too_large() {
    // DRAM of FDT_MAX_SIZE: the FDT address falls back to the DRAM start,
    // and nothing below it is in range.
    let mem = arch_mem(FDT_MAX_SIZE);
    assert_eq!(initrd_load_addr(&mem, 0x1000), None);
    // Larger than all of guest memory.
    let mem = arch_mem(128 << 20);
    assert_eq!(initrd_load_addr(&mem, 256 << 20), None);
}

#[test]
fn test_initrd_empty() {
    // An empty initrd rounds to zero pages and lands on the FDT address
    // itself.
    let mem = arch_mem(128 << 20);
    assert_eq!(initrd_load_addr(&mem, 0), Some(get_fdt_addr(&mem)));
}

#[test]
fn test_entry_point() {
    let entry = entry_point_for(GuestAddress(get_kernel_start()));
    assert_eq!(entry.entry_addr, GuestAddress(0x8020_0000));
    assert_eq!(entry.protocol, BootProtocol::LinuxBoot);
}
