use edera_check::checkers::iommu::IOMMUChecks;
use edera_check::checkers::numa::NUMAChecks;
use edera_check::checkers::postinstall::guest_type::GuestTypeChecks;
use edera_check::checkers::postinstall::kube::KubeChecks;
use edera_check::checkers::postinstall::services::ServiceChecks;
use edera_check::checkers::postinstall::system::SystemChecks as PostSystemChecks;
use edera_check::checkers::preinstall::byo_kernel::BYOKernelChecks;
use edera_check::checkers::preinstall::kernel::KernelChecks;
use edera_check::checkers::preinstall::kvm::KvmChecks;
use edera_check::checkers::preinstall::license::LicenseChecks;
use edera_check::checkers::preinstall::pvh::PVHChecks;
use edera_check::checkers::preinstall::system::SystemChecks;
use edera_check::checkers::script::ScriptChecks;
use edera_check::hardware::HardwareChecks;
use edera_check::helpers::{CheckGroup, CheckGroupCategory, CheckResultValue};
use edera_check::recorders::postinstall::system::SystemRecorder as PostRecorder;
use edera_check::recorders::preinstall::system::SystemRecorder as PreRecorder;

fn describe(g: &dyn CheckGroup) -> (String, String, String) {
    (g.id().to_string(), g.name().to_string(), g.category().to_display_string())
}

#[test]
fn preinstall_groups_as_the_readme_lists_them() {
    assert_eq!(describe(&SystemChecks::new()), ("system".into(), "System Checks".into(), "Required".into()));
    assert_eq!(describe(&KernelChecks::new()), ("kernel".into(), "Kernel Checks".into(), "Required".into()));
    assert_eq!(describe(&IOMMUChecks::new()), ("iommu".into(), "IOMMU Checks".into(), "Optional".into()));
    assert_eq!(describe(&PVHChecks::new()), ("pvh".into(), "PVH Checks".into(), "Optional".into()));
    assert_eq!(describe(&NUMAChecks::new()), ("numa".into(), "NUMA Checks".into(), "Advisory".into()));
    assert_eq!(
        describe(&PreRecorder::new()),
        ("sysinfo".into(), "System Info Recorder".into(), "Advisory".into())
    );
    assert_eq!(SystemChecks::new().description(), "System requirement checks");
    assert_eq!(KernelChecks::new().description(), "Kernel requirement checks");
    assert_eq!(PreRecorder::new().description(), "Record system information for reporting purposes");
}

#[test]
fn other_groups_describe_themselves() {
    assert_eq!(describe(&BYOKernelChecks::new()).0, "byokernel");
    assert!(matches!(BYOKernelChecks::new().category(), CheckGroupCategory::Optional(ref m)
        if m == "Active kernel not sufficient for Bring-Your-Own-Kernel support"));
    assert_eq!(describe(&KvmChecks::new()), ("kvm".into(), "KVM checks".into(), "Required".into()));
    assert_eq!(describe(&LicenseChecks::new()), ("license".into(), "License Checks".into(), "Optional".into()));
    assert_eq!(describe(&ScriptChecks::new()).0, "ScriptedChecks");
    assert_eq!(describe(&HardwareChecks).1, "Hardware Checks");
    assert_eq!(describe(&ServiceChecks::new()), ("services".into(), "Service Status Checks".into(), "Required".into()));
    assert_eq!(describe(&KubeChecks::new()).0, "kubernetes");
    assert_eq!(describe(&GuestTypeChecks::new()).0, "guesttype");
    assert_eq!(describe(&PostSystemChecks::new()), ("system".into(), "System Checks".into(), "Advisory".into()));
    assert_eq!(
        describe(&PostRecorder::new()),
        ("sysinfo".into(), "Postinstall System Info Recorder".into(), "Advisory".into())
    );
}

#[test]
fn service_checks_by_daemon() {
    let s = ServiceChecks::new();
    let r = s.check_daemon(Ok(true));
    assert_eq!(r.name, "Protect daemon status");
    assert!(matches!(r.result, CheckResultValue::Passed));
    let r = s.check_storage(Ok(false));
    assert!(matches!(r.result, CheckResultValue::Failed(ref m) if m == "protect-storage not running"));
    let r = s.check_network(Err("x".into()));
    assert_eq!(r.name, "Protect network daemon status");
    assert!(matches!(r.result, CheckResultValue::Errored(ref m) if m == "failed to check service protect-network: x"));
}
