//! The ordered boot-configuration protocol for an aarch64 guest.
//!
//! Configuring a guest for boot is a one-shot, linear protocol: build the
//! base CPU configuration from the vCPUs, overlay the CPU template,
//! program each vCPU, collect the MPIDRs in vCPU order, build the device
//! tree, and write it to guest memory.  The decisions of that protocol
//! live here as a state machine: the surrounding VMM performs the
//! hypervisor and memory calls that each stage asks for and hands the
//! outcome back.  Any failure aborts the boot attempt; nothing is rolled
//! back and nothing is retried.

use vstd::prelude::*;

use crate::cpu::{spec_apply_template, CpuConfiguration, CustomCpuTemplate, MachineConfig,
    VcpuConfig};
use crate::memory::GuestAddress;

verus! {

/// The initrd placement handed to the FDT builder, populated before the
/// boot protocol runs.
#[derive(Clone, Copy, Debug, PartialEq, Eq, Structural)]
pub struct InitrdConfig {
    /// Guest physical address of the first initrd byte.
    pub address: GuestAddress,
    /// Size of the initrd image in bytes.
    pub size: usize,
}

/// Errors thrown while configuring the aarch64 system.
#[derive(Clone, Copy, Debug, PartialEq, Eq, Structural)]
pub enum ConfigurationError {
    /// Building the flattened device tree for this microVM failed.
    SetupFDT,
    /// Writing the device tree to guest memory failed.
    MemoryError,
    /// The kernel file handle could not be duplicated.
    KernelFile,
    /// The kernel image could not be loaded: invalid memory configuration
    /// or invalid kernel image.
    KernelLoader,
    /// Sampling the base vCPU configuration failed.
    VcpuConfig,
    /// Programming a vCPU failed.
    VcpuConfigure,
}

/// The stages of the boot configuration protocol, in order.  Each stage
/// names the outside work the surrounding VMM performs next.
#[derive(Clone, Copy, Debug, PartialEq, Eq, Structural)]
pub enum BootStage {
    /// Sample the base CPU configuration from the vCPUs.
    BuildCpuConfig,
    /// Program the next unprogrammed vCPU.
    ProgramVcpus,
    /// Read the next programmed vCPU's MPIDR.
    CollectMpidrs,
    /// Build the device tree blob.
    BuildFdt,
    /// Write the device tree to guest memory.
    WriteFdt,
    /// The guest is configured for boot.
    Done,
}

/// The error a failure of the outside work raises at each stage; reading
/// an MPIDR cannot fail, and nothing follows `Done`.
pub fn failure_error(stage: BootStage) -> (r: Option<ConfigurationError>)
    ensures
        r == match stage {
            BootStage::BuildCpuConfig => Some(ConfigurationError::VcpuConfig),
            BootStage::ProgramVcpus => Some(ConfigurationError::VcpuConfigure),
            BootStage::CollectMpidrs => None::<ConfigurationError>,
            BootStage::BuildFdt => Some(ConfigurationError::SetupFDT),
            BootStage::WriteFdt => Some(ConfigurationError::MemoryError),
            BootStage::Done => None::<ConfigurationError>,
        },
{
    match stage {
        BootStage::BuildCpuConfig => Some(ConfigurationError::VcpuConfig),
        BootStage::ProgramVcpus => Some(ConfigurationError::VcpuConfigure),
        BootStage::CollectMpidrs => None,
        BootStage::BuildFdt => Some(ConfigurationError::SetupFDT),
        BootStage::WriteFdt => Some(ConfigurationError::MemoryError),
        BootStage::Done => None,
    }
}

/// One boot attempt in progress: the linear progression through the
/// protocol stages, with what each stage has produced so far.
pub struct BootOrchestration {
    /// Number of vCPUs to program.
    pub vcpu_count: u8,
    /// Whether simultaneous multithreading is on.
    pub smt: bool,
    /// The template overlaid on the sampled CPU configuration.
    pub template: CustomCpuTemplate,
    /// The current stage.
    pub stage: BootStage,
    /// The assembled per-vCPU configuration, once built.
    pub vcpu_config: Option<VcpuConfig>,
    /// How many vCPUs have been programmed.
    pub vcpus_programmed: u8,
    /// The MPIDRs collected so far, in vCPU order; this order becomes the
    /// FDT cpu-map order.
    pub mpidrs: Vec<u64>,
}

impl BootOrchestration {
    /// The stage data is consistent with the progression: the CPU
    /// configuration exists from the moment it was built, vCPUs are
    /// programmed before MPIDRs are read, and every count stays within
    /// the vCPU count.
    pub open spec fn wf(&self) -> bool {
        &&& (self.stage != BootStage::BuildCpuConfig ==> self.vcpu_config is Some)
        &&& (self.vcpu_config matches Some(c) ==> c.vcpu_count == self.vcpu_count && c.smt
            == self.smt)
        &&& self.vcpus_programmed <= self.vcpu_count
        &&& self.mpidrs@.len() <= self.vcpu_count
        &&& (self.stage == BootStage::BuildCpuConfig ==> self.vcpus_programmed == 0
            && self.mpidrs@.len() == 0)
        &&& (self.stage == BootStage::ProgramVcpus ==> self.vcpus_programmed < self.vcpu_count
            && self.mpidrs@.len() == 0)
        &&& (self.stage == BootStage::CollectMpidrs ==> self.vcpus_programmed == self.vcpu_count
            && self.mpidrs@.len() < self.vcpu_count)
        &&& ((self.stage == BootStage::BuildFdt || self.stage == BootStage::WriteFdt || self.stage
            == BootStage::Done) ==> self.vcpus_programmed == self.vcpu_count && self.mpidrs@.len()
            == self.vcpu_count)
    }

    /// Starts a boot attempt for the machine configuration and CPU
    /// template: the first outside work is sampling the base CPU
    /// configuration.
    pub fn new(machine_config: &MachineConfig, cpu_template: CustomCpuTemplate) -> (r:
        BootOrchestration)
        ensures
            r.wf(),
            r.stage == BootStage::BuildCpuConfig,
            r.vcpu_count == machine_config.vcpu_count,
            r.smt == machine_config.smt,
            r.template.reg_modifiers@ == cpu_template.reg_modifiers@,
            r.vcpu_config is None,
            r.vcpus_programmed == 0,
            r.mpidrs@.len() == 0,
    {
        BootOrchestration {
            vcpu_count: machine_config.vcpu_count,
            smt: machine_config.smt,
            template: cpu_template,
            stage: BootStage::BuildCpuConfig,
            vcpu_config: None,
            vcpus_programmed: 0,
            mpidrs: Vec::new(),
        }
    }

    /// Takes the sampled base CPU configuration, overlays the template,
    /// and assembles the configuration every vCPU is programmed with.
    /// With no vCPU to program the protocol moves straight to building
    /// the device tree.
    pub fn on_cpu_config_built(&mut self, base: CpuConfiguration)
        requires
            old(self).wf(),
            old(self).stage == BootStage::BuildCpuConfig,
        ensures
            final(self).wf(),
            final(self).stage == (if old(self).vcpu_count == 0 {
                BootStage::BuildFdt
            } else {
                BootStage::ProgramVcpus
            }),
            final(self).vcpu_config matches Some(c) && c.vcpu_count == old(self).vcpu_count
                && c.smt == old(self).smt && c.cpu_config.regs@ == spec_apply_template(
                base.regs@,
                old(self).template.reg_modifiers@,
            ),
            final(self).vcpu_count == old(self).vcpu_count,
            final(self).smt == old(self).smt,
            final(self).template.reg_modifiers@ == old(self).template.reg_modifiers@,
            final(self).vcpus_programmed == 0,
            final(self).mpidrs@ == old(self).mpidrs@,
    {
        let cpu_config = CpuConfiguration::apply_template(base, &self.template);
        self.vcpu_config = Some(
            VcpuConfig { vcpu_count: self.vcpu_count, smt: self.smt, cpu_config },
        );
        if self.vcpu_count == 0 {
            self.stage = BootStage::BuildFdt;
        } else {
            self.stage = BootStage::ProgramVcpus;
        }
    }

    /// Records that the next vCPU was programmed with the assembled
    /// configuration; after the last one the protocol collects MPIDRs.
    pub fn on_vcpu_programmed(&mut self)
        requires
            old(self).wf(),
            old(self).stage == BootStage::ProgramVcpus,
        ensures
            final(self).wf(),
            final(self).vcpus_programmed == old(self).vcpus_programmed + 1,
            final(self).stage == (if old(self).vcpus_programmed + 1 == old(self).vcpu_count {
                BootStage::CollectMpidrs
            } else {
                BootStage::ProgramVcpus
            }),
            final(self).vcpu_count == old(self).vcpu_count,
            final(self).smt == old(self).smt,
            final(self).template.reg_modifiers@ == old(self).template.reg_modifiers@,
            final(self).vcpu_config == old(self).vcpu_config,
            final(self).mpidrs@ == old(self).mpidrs@,
    {
        self.vcpus_programmed = self.vcpus_programmed + 1;
        if self.vcpus_programmed == self.vcpu_count {
            self.stage = BootStage::CollectMpidrs;
        }
    }

    /// Records the MPIDR of the next programmed vCPU.  Collection keeps
    /// the callers' vCPU order: the value is appended, never reordered.
    /// After the last one the protocol builds the device tree.
    pub fn on_mpidr_collected(&mut self, mpidr: u64)
        requires
            old(self).wf(),
            old(self).stage == BootStage::CollectMpidrs,
        ensures
            final(self).wf(),
            final(self).mpidrs@ == old(self).mpidrs@.push(mpidr),
            final(self).stage == (if old(self).mpidrs@.len() + 1 == old(self).vcpu_count {
                BootStage::BuildFdt
            } else {
                BootStage::CollectMpidrs
            }),
            final(self).vcpu_count == old(self).vcpu_count,
            final(self).smt == old(self).smt,
            final(self).template.reg_modifiers@ == old(self).template.reg_modifiers@,
            final(self).vcpu_config == old(self).vcpu_config,
            final(self).vcpus_programmed == old(self).vcpus_programmed,
    {
        self.mpidrs.push(mpidr);
        if self.mpidrs.len() == self.vcpu_count as usize {
            self.stage = BootStage::BuildFdt;
        }
    }

    /// Records that the device tree blob was built from the collected
    /// MPIDRs, the command line and the initrd placement; the last
    /// outside work is writing it to guest memory.
    pub fn on_fdt_built(&mut self)
        requires
            old(self).wf(),
            old(self).stage == BootStage::BuildFdt,
        ensures
            final(self).wf(),
            final(self).stage == BootStage::WriteFdt,
            final(self).vcpu_count == old(self).vcpu_count,
            final(self).smt == old(self).smt,
            final(self).template.reg_modifiers@ == old(self).template.reg_modifiers@,
            final(self).vcpu_config == old(self).vcpu_config,
            final(self).vcpus_programmed == old(self).vcpus_programmed,
            final(self).mpidrs@ == old(self).mpidrs@,
    {
        self.stage = BootStage::WriteFdt;
    }

    /// Records that the device tree was written to guest memory at the
    /// FDT address: the guest is configured for boot.
    pub fn on_fdt_written(&mut self)
        requires
            old(self).wf(),
            old(self).stage == BootStage::WriteFdt,
        ensures
            final(self).wf(),
            final(self).stage == BootStage::Done,
            final(self).vcpu_count == old(self).vcpu_count,
            final(self).smt == old(self).smt,
            final(self).template.reg_modifiers@ == old(self).template.reg_modifiers@,
            final(self).vcpu_config == old(self).vcpu_config,
            final(self).vcpus_programmed == old(self).vcpus_programmed,
            final(self).mpidrs@ == old(self).mpidrs@,
    {
        self.stage = BootStage::Done;
    }
}

/// Serializes a boot command line to the NUL-terminated byte string the
/// FDT builder takes.  `None` exactly when the command line holds an
/// interior NUL, which the caller treats as a programmer error.
pub fn cmdline_cstring_bytes(cmdline: &Vec<u8>) -> (r: Option<Vec<u8>>)
    ensures
        (exists|i: int| 0 <= i < cmdline@.len() && cmdline@[i] == 0) ==> r is None,
        !(exists|i: int| 0 <= i < cmdline@.len() && cmdline@[i] == 0) ==> (r matches Some(b)
            && b@ == cmdline@.push(0u8)),
{
    let mut out: Vec<u8> = Vec::new();
    let n = cmdline.len();
    let mut i: usize = 0;
    while i < n
        invariant
            i <= n,
            n == cmdline@.len(),
            out@ == cmdline@.take(i as int),
            forall|k: int| 0 <= k < i ==> cmdline@[k] != 0,
        decreases n - i,
    {
        let b = cmdline[i];
        if b == 0 {
            return None;
        }
        out.push(b);
        i += 1;
    }
    proof {
        assert(out@ =~= cmdline@);
    }
    out.push(0);
    Some(out)
}

} // verus!
