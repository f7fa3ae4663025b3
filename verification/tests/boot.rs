use vmm::boot::{
    cmdline_cstring_bytes, failure_error, BootOrchestration, BootStage, ConfigurationError,
    InitrdConfig,
};
use vmm::cpu::{CpuConfiguration, CustomCpuTemplate, MachineConfig};
use vmm::memory::GuestAddress;

#[test]
fn test_boot_protocol_happy_path() {
    let machine_config = MachineConfig { vcpu_count: 2, smt: false };
    let cpu_template = CustomCpuTemplate { reg_modifiers: vec![(1u64, 7u128)] };
    let mut orch = BootOrchestration::new(&machine_config, cpu_template);
    assert_eq!(orch.stage, BootStage::BuildCpuConfig);
    assert!(orch.vcpu_config.is_none());

    let base = CpuConfiguration { regs: vec![(1u64, 0u128), (2u64, 5u128)] };
    orch.on_cpu_config_built(base);
    assert_eq!(orch.stage, BootStage::ProgramVcpus);
    let vcpu_config = orch.vcpu_config.as_ref().unwrap();
    assert_eq!(vcpu_config.vcpu_count, 2);
    assert!(!vcpu_config.smt);
    assert_eq!(vcpu_config.cpu_config.regs, vec![(1u64, 7u128), (2u64, 5u128)]);

    orch.on_vcpu_programmed();
    assert_eq!(orch.stage, BootStage::ProgramVcpus);
    orch.on_vcpu_programmed();
    assert_eq!(orch.stage, BootStage::CollectMpidrs);

    orch.on_mpidr_collected(0x8000_0000);
    assert_eq!(orch.stage, BootStage::CollectMpidrs);
    orch.on_mpidr_collected(0x8000_0001);
    assert_eq!(orch.stage, BootStage::BuildFdt);
    // The FDT cpu-map order is the vCPU order; nothing is reordered.
    assert_eq!(orch.mpidrs, vec![0x8000_0000, 0x8000_0001]);

    orch.on_fdt_built();
    assert_eq!(orch.stage, BootStage::WriteFdt);
    orch.on_fdt_written();
    assert_eq!(orch.stage, BootStage::Done);
}

#[test]
fn test_boot_protocol_no_vcpus() {
    let machine_config = MachineConfig { vcpu_count: 0, smt: true };
    let cpu_template = CustomCpuTemplate { reg_modifiers: vec![] };
    let mut orch = BootOrchestration::new(&machine_config, cpu_template);
    orch.on_cpu_config_built(CpuConfiguration { regs: vec![] });
    assert_eq!(orch.stage, BootStage::BuildFdt);
    assert!(orch.mpidrs.is_empty());
}

#[test]
fn test_failure_errors_by_stage() {
    assert_eq!(
        failure_error(BootStage::BuildCpuConfig),
        Some(ConfigurationError::VcpuConfig)
    );
    assert_eq!(
        failure_error(BootStage::ProgramVcpus),
        Some(ConfigurationError::VcpuConfigure)
    );
    assert_eq!(failure_error(BootStage::CollectMpidrs), None);
    assert_eq!(failure_error(BootStage::BuildFdt), Some(ConfigurationError::SetupFDT));
    assert_eq!(failure_error(BootStage::WriteFdt), Some(ConfigurationError::MemoryError));
    assert_eq!(failure_error(BootStage::Done), None);
}

#[test]
fn test_kernel_load_errors_distinct() {
    // The two kernel-loading failures are their own variants.
    assert_ne!(ConfigurationError::KernelFile, ConfigurationError::KernelLoader);
    assert!(matches!(ConfigurationError::KernelFile, ConfigurationError::KernelFile));
}

#[test]
fn test_cmdline_cstring_bytes() {
    let cmdline = b"console=ttyS0".to_vec();
    let bytes = cmdline_cstring_bytes(&cmdline).unwrap();
    assert_eq!(bytes.len(), cmdline.len() + 1);
    assert_eq!(&bytes[..cmdline.len()], &cmdline[..]);
    assert_eq!(*bytes.last().unwrap(), 0);

    let bad = vec![b'a', 0u8, b'b'];
    assert_eq!(cmdline_cstring_bytes(&bad), None);

    let empty: Vec<u8> = vec![];
    assert_eq!(cmdline_cstring_bytes(&empty), Some(vec![0u8]));
}

#[test]
fn test_apply_template_overlay() {
    let config = CpuConfiguration { regs: vec![(1u64, 10u128), (2u64, 20u128), (3u64, 30u128)] };
    let template = CustomCpuTemplate {
        reg_modifiers: vec![(2u64, 99u128), (4u64, 44u128), (2u64, 77u128)],
    };
    let out = CpuConfiguration::apply_template(config, &template);
    // Same registers in the same order; the last modifier of a register
    // wins; a modifier of an unsampled register changes nothing.
    assert_eq!(out.regs, vec![(1u64, 10u128), (2u64, 77u128), (3u64, 30u128)]);
}

#[test]
fn test_initrd_config() {
    let initrd = InitrdConfig { address: GuestAddress(0x8100_0000), size: 0x2000 };
    assert_eq!(initrd.address, GuestAddress(0x8100_0000));
    assert_eq!(initrd.size, 0x2000);
}
