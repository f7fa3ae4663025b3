//! Boot preparation for an aarch64 micro-VM guest, together with the
//! network-byte-order slice accessors used by the in-VMM TCP/IP stack.
//!
//! The library plans the guest physical memory layout, places the kernel,
//! the initrd and the flattened device tree (FDT), and drives the ordered
//! boot-configuration protocol as a verified state machine.  All decisions
//! are made here; the surrounding VMM performs the hypervisor, file and
//! guest-memory calls each stage asks for and hands the outcomes back.

pub mod arch;
pub mod boot;
pub mod bytes;
pub mod cpu;
pub mod layout;
pub mod memory;
