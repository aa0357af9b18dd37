use edera_check::checkers::preinstall::pvh::{
    cpu_vendor_kind, msr_to_read, msr_value, needs_efer, CpuVendor, PVHChecks, VirtStatus, MSR_FEATURE_CONTROL,
    MSR_VM_CR,
};
use edera_check::helpers::cpu::{extract_cpu_vendor, extract_flags, has_flag};
use edera_check::helpers::{Arch, CheckResultValue};

const INTEL_CPUINFO: &str = "processor\t: 0\nvendor_id\t: GenuineIntel\ncpu family\t: 6\nflags\t\t: fpu vme vmx sse2\nbogomips\t: 4800.00\n\nprocessor\t: 1\nvendor_id\t: GenuineIntel\nflags\t\t: fpu\n";

#[test]
fn vendor_is_read_from_the_first_vendor_line() {
    assert_eq!(extract_cpu_vendor(INTEL_CPUINFO), "GenuineIntel");
}

#[test]
fn flags_are_read_from_the_first_flags_line() {
    assert_eq!(extract_flags(INTEL_CPUINFO), "fpu vme vmx sse2");
}

#[test]
fn missing_vendor_is_unknown_and_missing_flags_empty() {
    assert_eq!(extract_cpu_vendor("processor : 0\n"), "Unknown");
    assert_eq!(extract_flags("processor : 0\n"), "");
    assert_eq!(extract_cpu_vendor(""), "Unknown");
}

#[test]
fn key_line_without_colon_is_skipped() {
    let info = "vendor_id GenuineIntel\nvendor_id : AuthenticAMD\n";
    assert_eq!(extract_cpu_vendor(info), "AuthenticAMD");
}

#[test]
fn value_stops_at_the_second_colon_and_is_trimmed() {
    assert_eq!(extract_cpu_vendor("vendor_id :  Odd : Vendor \r\n"), "Odd");
}

#[test]
fn flags_are_whole_words() {
    assert!(has_flag("fpu vmx sse2", "vmx"));
    assert!(!has_flag("fpu vmxx sse2", "vmx"));
    assert!(has_flag("  svm\thypervisor ", "hypervisor"));
    assert!(!has_flag("", "svm"));
}

#[test]
fn vendor_names_are_recognised() {
    assert_eq!(cpu_vendor_kind("GenuineIntel"), CpuVendor::Intel);
    assert_eq!(cpu_vendor_kind("AuthenticAMD"), CpuVendor::Amd);
    assert_eq!(cpu_vendor_kind("HygonGenuine"), CpuVendor::Other);
    assert_eq!(msr_to_read(CpuVendor::Intel), Some(MSR_FEATURE_CONTROL));
    assert_eq!(msr_to_read(CpuVendor::Amd), Some(MSR_VM_CR));
    assert_eq!(msr_to_read(CpuVendor::Other), None);
}

#[test]
fn intel_firmware_lock_and_vmx_outside_smx_decide() {
    // lock (bit 0) and vmx outside smx (bit 2) set
    assert_eq!(PVHChecks::new().check_intel("fpu vmx", Some(0b101)), VirtStatus::Enabled);
    assert_eq!(PVHChecks::new().check_intel("fpu hypervisor", Some(0b101)), VirtStatus::CanBeEnabled);
    assert_eq!(PVHChecks::new().check_intel("fpu", Some(0b101)), VirtStatus::Disabled);
    // lock bit clear: disabled in firmware, whatever the flags
    assert_eq!(PVHChecks::new().check_intel("fpu vmx", Some(0b100)), VirtStatus::Disabled);
    assert_eq!(PVHChecks::new().check_intel("fpu vmx", Some(0b001)), VirtStatus::Disabled);
    // unreadable MSR: falls back to the flag
    assert_eq!(PVHChecks::new().check_intel("fpu vmx", None), VirtStatus::CanBeEnabled);
    assert_eq!(PVHChecks::new().check_intel("fpu", None), VirtStatus::Disabled);
}

#[test]
fn amd_svmdis_and_svme_decide() {
    let svme = 1u64 << 12;
    assert_eq!(PVHChecks::new().check_amd("svm", Some(0), Some(svme)), VirtStatus::Enabled);
    assert_eq!(PVHChecks::new().check_amd("svm", Some(0), Some(0)), VirtStatus::CanBeEnabled);
    assert_eq!(PVHChecks::new().check_amd("hypervisor", Some(0), Some(0)), VirtStatus::CanBeEnabled);
    assert_eq!(PVHChecks::new().check_amd("fpu", Some(0), Some(svme)), VirtStatus::Disabled);
    assert_eq!(PVHChecks::new().check_amd("svm", Some(1 << 4), Some(svme)), VirtStatus::Disabled);
    assert_eq!(PVHChecks::new().check_amd("svm", Some(0), None), VirtStatus::CanBeEnabled);
    assert_eq!(PVHChecks::new().check_amd("fpu", Some(0), None), VirtStatus::Disabled);
    assert_eq!(PVHChecks::new().check_amd("svm", None, None), VirtStatus::CanBeEnabled);
    assert_eq!(PVHChecks::new().check_amd("fpu", None, None), VirtStatus::Disabled);
    assert!(needs_efer(Some(0)));
    assert!(!needs_efer(Some(0x10)));
    assert!(!needs_efer(None));
}

#[test]
fn discovery_dispatches_on_vendor() {
    assert_eq!(PVHChecks::new().discover_cpu_virtualization(INTEL_CPUINFO, Some(5), None), VirtStatus::Enabled);
    let amd = "vendor_id : AuthenticAMD\nflags : svm\n";
    assert_eq!(PVHChecks::new().discover_cpu_virtualization(amd, Some(0), Some(0)), VirtStatus::CanBeEnabled);
    let other = "vendor_id : SomeoneElse\nflags : vmx svm\n";
    assert_eq!(PVHChecks::new().discover_cpu_virtualization(other, Some(5), Some(5)), VirtStatus::Disabled);
}

#[test]
fn msr_bytes_are_little_endian() {
    let b = [0x01, 0x02, 0x03, 0x04, 0x05, 0x06, 0x07, 0x08];
    assert_eq!(msr_value(b), u64::from_le_bytes(b));
    assert_eq!(msr_value([0xff; 8]), u64::MAX);
    assert_eq!(msr_value([5, 0, 0, 0, 0, 0, 0, 0]), 5);
}

#[test]
fn pvh_check_and_group() {
    let c = PVHChecks::new().check_virtualization(Ok(VirtStatus::Disabled));
    assert_eq!(c.name, "PVH Support");
    assert!(matches!(c.result, CheckResultValue::Failed(ref m) if m == "Hardware Virtualization Disabled"));
    let c = PVHChecks::new().check_virtualization(Err("no cpuinfo".to_string()));
    assert!(matches!(c.result, CheckResultValue::Errored(ref m) if m == "no cpuinfo"));
    let g = PVHChecks::new().run_all(Arch::X86_64, Ok(VirtStatus::CanBeEnabled));
    assert_eq!(g.name, "PVH Checks");
    assert!(matches!(g.result, CheckResultValue::Passed));
    let g = PVHChecks::new().run_all(Arch::X86_64, Ok(VirtStatus::Disabled));
    assert!(matches!(g.result, CheckResultValue::Failed(ref m) if m.is_empty()));
    let g = PVHChecks::new().run_all(Arch::Aarch64, Ok(VirtStatus::Enabled));
    assert!(matches!(g.result, CheckResultValue::Skipped(ref m) if m == "not supported on this arch"));
    assert!(g.results.is_empty());
}
