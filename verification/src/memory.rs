//! Model of the guest physical memory map consulted by the boot planner.
//!
//! The planner only reads the region layout of guest memory: its base, its
//! last address, and whether an address falls inside it.  This module holds
//! those as plain values; the host-backed bytes themselves stay with the
//! surrounding VMM, which converts its memory mapping into this model.

use vstd::prelude::*;

verus! {

/// A 64-bit guest physical address.
#[derive(Clone, Copy, Debug, PartialEq, Eq, Structural)]
pub struct GuestAddress(pub u64);

impl GuestAddress {
    /// The raw 64-bit value of the address.
    pub fn raw_value(&self) -> (r: u64)
        ensures
            r == self.0,
    {
        self.0
    }

    /// Checked subtraction of an offset; `None` on underflow.
    pub fn checked_sub(&self, other: u64) -> (r: Option<GuestAddress>)
        ensures
            other <= self.0 ==> r == Some(GuestAddress((self.0 - other) as u64)),
            other > self.0 ==> r is None,
    {
        if other <= self.0 {
            Some(GuestAddress(self.0 - other))
        } else {
            None
        }
    }
}

/// The guest physical memory map: one DRAM region of host-backed bytes.
///
/// There is exactly one DRAM region per guest, so the map is its base
/// address and its byte length.
#[derive(Clone, Copy, Debug, PartialEq, Eq, Structural)]
pub struct GuestMemory {
    /// Guest physical address of the first byte.
    pub base: GuestAddress,
    /// Number of bytes in the region.
    pub size: usize,
}

impl GuestMemory {
    /// Well-formed: at least one byte, and the last address fits in 64 bits.
    pub open spec fn wf(&self) -> bool {
        &&& 1 <= self.size
        &&& self.base.0 + self.size - 1 <= u64::MAX
    }

    /// The highest guest physical address contained in the map.
    pub open spec fn spec_last_addr(&self) -> int {
        self.base.0 + self.size - 1
    }

    /// Whether `addr` lies inside the mapped region.
    pub open spec fn spec_in_range(&self, addr: u64) -> bool {
        self.base.0 <= addr <= self.spec_last_addr()
    }

    /// Builds the map of a guest whose DRAM starts at `base` and holds
    /// `size` bytes.
    pub fn new(base: GuestAddress, size: usize) -> (r: GuestMemory)
        requires
            1 <= size,
            base.0 + size - 1 <= u64::MAX,
        ensures
            r.wf(),
            r.base == base,
            r.size == size,
    {
        GuestMemory { base, size }
    }

    /// Returns the highest guest physical address in the map.
    pub fn last_addr(&self) -> (r: GuestAddress)
        requires
            self.wf(),
        ensures
            r.0 == self.spec_last_addr(),
    {
        GuestAddress(self.base.0 + (self.size as u64 - 1))
    }

    /// Returns whether `addr` lies inside the mapped region.
    pub fn address_in_range(&self, addr: GuestAddress) -> (r: bool)
        requires
            self.wf(),
        ensures
            r == self.spec_in_range(addr.0),
    {
        self.base.0 <= addr.0 && addr.0 <= self.base.0 + (self.size as u64 - 1)
    }
}

} // verus!
