//! Whether hardware virtualization (Intel VT-x or AMD-V), which PVH needs, is available and
//! not disabled in firmware, decided from `/proc/cpuinfo` and the CPU's MSRs.
use vstd::prelude::*;

use crate::helpers::cpu::{cpuinfo_field, extract_cpu_vendor, extract_flags, has_flag};
use crate::helpers::{
    group_from, group_outcome, Arch, CategoryView, CheckGroup, CheckGroupCategory, CheckGroupResult,
    CheckResult, CheckResultValue, CheckView, GroupView, ResultView,
};
use crate::text::{chars_of, chars_eq, words};

verus! {

pub const GROUP_IDENTIFIER: &'static str = "pvh";

pub const NAME: &'static str = "PVH Checks";

/// IA32_FEATURE_CONTROL, read on Intel CPUs.
pub const MSR_FEATURE_CONTROL: u32 = 0x3a;

/// VM_CR, read on AMD CPUs.
pub const MSR_VM_CR: u32 = 0xC0010114;

/// EFER, read on AMD CPUs once VM_CR shows that SVM is not disabled.
pub const MSR_EFER: u32 = 0xC0000080;

/// The state of hardware virtualization on the host.
#[derive(Debug, PartialEq, Eq, Structural, Clone, Copy)]
pub enum VirtStatus {
    /// Currently active.
    Enabled,
    /// Available but not active.
    CanBeEnabled,
    /// Not available, or disabled in firmware.
    Disabled,
}

/// The CPU vendors whose virtualization support is known.
#[derive(Debug, PartialEq, Eq, Structural, Clone, Copy)]
pub enum CpuVendor {
    Intel,
    Amd,
    Other,
}

/// The vendor that a `vendor_id` value names.
pub open spec fn vendor_of(v: Seq<char>) -> CpuVendor {
    if v == "GenuineIntel"@ {
        CpuVendor::Intel
    } else if v == "AuthenticAMD"@ {
        CpuVendor::Amd
    } else {
        CpuVendor::Other
    }
}

/// The vendor that a `vendor_id` value names.
pub fn cpu_vendor_kind(vendor: &str) -> (r: CpuVendor)
    ensures
        r == vendor_of(vendor@),
{
    let v = chars_of(vendor);
    let intel = chars_of("GenuineIntel");
    let amd = chars_of("AuthenticAMD");
    if chars_eq(&v, &intel) {
        CpuVendor::Intel
    } else if chars_eq(&v, &amd) {
        CpuVendor::Amd
    } else {
        CpuVendor::Other
    }
}

/// IA32_FEATURE_CONTROL permits VT-x: its lock bit (0) and its VMX-outside-SMX bit (2) are set.
pub open spec fn intel_bios_permits(val: u64) -> bool {
    val & 1 == 1 && (val >> 2) & 1 == 1
}

/// The Intel decision: `feature_control` is the MSR's value, or `None` when it could not be
/// read; `has_vmx` and `under_hypervisor` tell whether those flags are listed.
pub open spec fn intel_status_spec(
    has_vmx: bool,
    under_hypervisor: bool,
    feature_control: Option<u64>,
) -> VirtStatus {
    match feature_control {
        Some(val) => if !intel_bios_permits(val) {
            VirtStatus::Disabled
        } else if has_vmx {
            VirtStatus::Enabled
        } else if under_hypervisor {
            VirtStatus::CanBeEnabled
        } else {
            VirtStatus::Disabled
        },
        None => if has_vmx {
            VirtStatus::CanBeEnabled
        } else {
            VirtStatus::Disabled
        },
    }
}

/// VM_CR leaves SVM enabled: its SVMDIS bit (4) is clear.
pub open spec fn amd_bios_permits(vm_cr: u64) -> bool {
    (vm_cr >> 4) & 1 == 0
}

/// EFER.SVME (bit 12): the OS or a hypervisor turned SVM on.
pub open spec fn svme_bit(efer: u64) -> u64 {
    (efer >> 12) & 1
}

/// The AMD decision: `vm_cr` and `efer` are the MSRs' values, or `None` when they could not
/// be read (EFER is only consulted when VM_CR was read and permits SVM).
pub open spec fn amd_status_spec(
    has_svm: bool,
    under_hypervisor: bool,
    vm_cr: Option<u64>,
    efer: Option<u64>,
) -> VirtStatus {
    match vm_cr {
        Some(v) => if !amd_bios_permits(v) {
            VirtStatus::Disabled
        } else {
            match efer {
                Some(e) => if has_svm {
                    if svme_bit(e) == 1 {
                        VirtStatus::Enabled
                    } else {
                        VirtStatus::CanBeEnabled
                    }
                } else if under_hypervisor && (svme_bit(e) == 0 || svme_bit(e) == 1) {
                    VirtStatus::CanBeEnabled
                } else {
                    VirtStatus::Disabled
                },
                None => if has_svm {
                    VirtStatus::CanBeEnabled
                } else {
                    VirtStatus::Disabled
                },
            }
        },
        None => if has_svm {
            VirtStatus::CanBeEnabled
        } else {
            VirtStatus::Disabled
        },
    }
}

/// Whether `flag` is listed among the `flags` of `cpuinfo`.
pub open spec fn cpu_has_flag(cpuinfo: Seq<char>, flag: Seq<char>) -> bool {
    let flags = match cpuinfo_field(cpuinfo, "flags"@) {
        Some(v) => v,
        None => Seq::empty(),
    };
    words(flags).contains(flag)
}

/// The vendor of the CPU that `cpuinfo` describes.
pub open spec fn cpuinfo_vendor(cpuinfo: Seq<char>) -> CpuVendor {
    vendor_of(
        match cpuinfo_field(cpuinfo, "vendor_id"@) {
            Some(v) => v,
            None => "Unknown"@,
        },
    )
}

/// The state of hardware virtualization on the host that `cpuinfo` describes: `first_msr` is
/// the vendor's first MSR (`msr_to_read`), `efer` is EFER (read when `needs_efer` says so).
pub open spec fn virt_status_spec(
    cpuinfo: Seq<char>,
    first_msr: Option<u64>,
    efer: Option<u64>,
) -> VirtStatus {
    match cpuinfo_vendor(cpuinfo) {
        CpuVendor::Intel => intel_status_spec(
            cpu_has_flag(cpuinfo, "vmx"@),
            cpu_has_flag(cpuinfo, "hypervisor"@),
            first_msr,
        ),
        CpuVendor::Amd => amd_status_spec(
            cpu_has_flag(cpuinfo, "svm"@),
            cpu_has_flag(cpuinfo, "hypervisor"@),
            first_msr,
            efer,
        ),
        CpuVendor::Other => VirtStatus::Disabled,
    }
}

/// Whether EFER has to be read to decide on an AMD CPU whose VM_CR read gave `vm_cr`.
pub fn needs_efer(vm_cr: Option<u64>) -> (r: bool)
    ensures
        r == (vm_cr matches Some(v) && amd_bios_permits(v)),
{
    match vm_cr {
        Some(v) => (v >> 4) & 1 == 0,
        None => false,
    }
}

/// The MSR to read first on a CPU from `vendor`, if any.
pub fn msr_to_read(vendor: CpuVendor) -> (r: Option<u32>)
    ensures
        r == (match vendor {
            CpuVendor::Intel => Some(MSR_FEATURE_CONTROL),
            CpuVendor::Amd => Some(MSR_VM_CR),
            CpuVendor::Other => None::<u32>,
        }),
{
    match vendor {
        CpuVendor::Intel => Some(MSR_FEATURE_CONTROL),
        CpuVendor::Amd => Some(MSR_VM_CR),
        CpuVendor::Other => None,
    }
}

/// The vendor of the CPU that `cpuinfo` describes.
pub fn vendor_from_cpuinfo(cpuinfo: &str) -> (r: CpuVendor)
    ensures
        r == cpuinfo_vendor(cpuinfo@),
{
    let v = extract_cpu_vendor(cpuinfo);
    cpu_vendor_kind(v.as_str())
}

/// The unsigned value of little-endian bytes (`u64::from_le_bytes` for eight bytes).
pub open spec fn le_value(b: Seq<u8>) -> nat
    decreases b.len(),
{
    if b.len() == 0 {
        0
    } else {
        b[0] as nat + 256 * le_value(b.drop_first())
    }
}

/// `256^n`.
pub open spec fn pow256(n: nat) -> nat
    decreases n,
{
    if n == 0 {
        1
    } else {
        256 * pow256((n - 1) as nat)
    }
}

proof fn lemma_le_value_bound(b: Seq<u8>)
    ensures
        le_value(b) < pow256(b.len()),
    decreases b.len(),
{
    if b.len() > 0 {
        lemma_le_value_bound(b.drop_first());
        let x = b[0] as nat;
        let y = le_value(b.drop_first());
        let p = pow256(b.drop_first().len());
        assert(x + 256 * y < 256 * p) by (nonlinear_arith)
            requires
                x < 256,
                y < p,
        ;
    }
}

/// The value of an MSR from the eight bytes read at its offset (little-endian).
pub fn msr_value(bytes: [u8; 8]) -> (r: u64)
    ensures
        r as nat == le_value(bytes@),
{
    let ghost b = bytes@;
    let mut acc: u64 = 0;
    let mut i: usize = 8;
    assert(b.skip(8) =~= Seq::<u8>::empty());
    assert(pow256(0) == 1);
    while i > 0
        invariant
            i <= 8,
            b == bytes@,
            b.len() == 8,
            acc as nat == le_value(b.skip(i as int)),
        decreases i,
    {
        i = i - 1;
        proof {
            assert(b.skip(i as int).drop_first() =~= b.skip(i + 1));
            assert(b.skip(i as int)[0] == b[i as int]);
            lemma_le_value_bound(b.skip(i + 1));
            assert(pow256(7) == 72057594037927936) by {
                reveal_with_fuel(pow256, 8);
            }
            let k = (8 - (i + 1)) as nat;
            assert(b.skip(i + 1).len() == k);
            lemma_pow256_mono(k, 7);
            let a = acc as nat;
            assert(a * 256 + 255 <= 18446744073709551615) by (nonlinear_arith)
                requires
                    a < 72057594037927936,
            ;
        }
        acc = acc * 256 + bytes[i] as u64;
    }
    assert(b.skip(0) =~= b);
    acc
}

proof fn lemma_pow256_mono(a: nat, b: nat)
    requires
        a <= b,
    ensures
        pow256(a) <= pow256(b),
    decreases b,
{
    if a < b {
        lemma_pow256_mono(a, (b - 1) as nat);
    }
}

/// What `check_virtualization` gives for `status`.
pub open spec fn check_virtualization_view(status: Result<VirtStatus, String>) -> CheckView {
    CheckView {
        name: "PVH Support"@,
        output: None,
        result: match status {
            Ok(VirtStatus::Disabled) => ResultView::Failed("Hardware Virtualization Disabled"@),
            Ok(_) => ResultView::Passed,
            Err(e) => ResultView::Errored(e@),
        },
    }
}

/// When IA32_FEATURE_CONTROL could be read and its lock bit or its VMX-outside-SMX bit is
/// clear, firmware has disabled VT-x: the status is Disabled whatever flags the CPU lists.
pub proof fn law_intel_firmware_disable_wins(has_vmx: bool, under_hypervisor: bool, val: u64)
    requires
        val & 1 == 0 || (val >> 2) & 1 == 0,
    ensures
        intel_status_spec(has_vmx, under_hypervisor, Some(val)) == VirtStatus::Disabled,
{
}

/// When IA32_FEATURE_CONTROL could be read and permits VT-x (lock bit 0 and VMX-outside-SMX
/// bit 2 set), the `vmx` flag decides: listed, VT-x is Enabled, whatever other flags (such as
/// `hypervisor`) are listed; not listed, it CanBeEnabled under a hypervisor (which hides the
/// flag) and is Disabled otherwise.
pub proof fn law_intel_permitted_vtx_follows_vmx_flag(has_vmx: bool, under_hypervisor: bool, val: u64)
    requires
        val & 1 == 1,
        (val >> 2) & 1 == 1,
    ensures
        has_vmx ==> intel_status_spec(has_vmx, under_hypervisor, Some(val)) == VirtStatus::Enabled,
        !has_vmx && under_hypervisor ==> intel_status_spec(has_vmx, under_hypervisor, Some(val))
            == VirtStatus::CanBeEnabled,
        !has_vmx && !under_hypervisor ==> intel_status_spec(has_vmx, under_hypervisor, Some(val))
            == VirtStatus::Disabled,
{
}

/// When VM_CR could be read and its SVMDIS bit is set, firmware has disabled AMD-V: the status
/// is Disabled whatever flags the CPU lists or EFER holds.
pub proof fn law_amd_firmware_disable_wins(
    has_svm: bool,
    under_hypervisor: bool,
    vm_cr: u64,
    efer: Option<u64>,
)
    requires
        (vm_cr >> 4) & 1 == 1,
    ensures
        amd_status_spec(has_svm, under_hypervisor, Some(vm_cr), efer) == VirtStatus::Disabled,
{
}

/// Under a hypervisor that hides the `svm` flag, an AMD CPU whose firmware permits SVM and
/// whose EFER can be read is reported as CanBeEnabled, whatever EFER holds.
pub proof fn law_amd_masked_by_hypervisor(vm_cr: u64, efer: u64)
    requires
        (vm_cr >> 4) & 1 == 0,
    ensures
        amd_status_spec(false, true, Some(vm_cr), Some(efer)) == VirtStatus::CanBeEnabled,
{
    assert((efer >> 12) & 1 == 0 || (efer >> 12) & 1 == 1) by (bit_vector);
}

/// When no MSR can be read, the decision falls back to the CPU's own flag: it is CanBeEnabled
/// when the flag is listed and Disabled otherwise.
pub proof fn law_unreadable_msr_falls_back_to_flag(has_flag_listed: bool, under_hypervisor: bool)
    ensures
        intel_status_spec(has_flag_listed, under_hypervisor, None) == (if has_flag_listed {
            VirtStatus::CanBeEnabled
        } else {
            VirtStatus::Disabled
        }),
        amd_status_spec(has_flag_listed, under_hypervisor, None, None) == (if has_flag_listed {
            VirtStatus::CanBeEnabled
        } else {
            VirtStatus::Disabled
        }),
{
}

/// The PVH group.
pub struct PVHChecks;

impl PVHChecks {
    pub fn new() -> (r: PVHChecks) {
        PVHChecks
    }

    /// The Intel decision (see `intel_status_spec`).
    pub fn check_intel(&self, flags: &str, feature_control: Option<u64>) -> (r: VirtStatus)
        ensures
            r == intel_status_spec(
                words(flags@).contains("vmx"@),
                words(flags@).contains("hypervisor"@),
                feature_control,
            ),
    {
        let has_vmx = has_flag(flags, "vmx");
        let under_hypervisor = has_flag(flags, "hypervisor");
        match feature_control {
            Some(val) => {
                let lock = val & 1;
                let vmx_outside_smx = (val >> 2) & 1;
                let hw_supports = lock == 1 && vmx_outside_smx == 1;
                if !hw_supports {
                    VirtStatus::Disabled
                } else if has_vmx {
                    VirtStatus::Enabled
                } else if under_hypervisor {
                    VirtStatus::CanBeEnabled
                } else {
                    VirtStatus::Disabled
                }
            },
            None => {
                if !has_vmx {
                    VirtStatus::Disabled
                } else {
                    VirtStatus::CanBeEnabled
                }
            },
        }
    }

    /// The AMD decision (see `amd_status_spec`).
    pub fn check_amd(&self, flags: &str, vm_cr: Option<u64>, efer: Option<u64>) -> (r: VirtStatus)
        ensures
            r == amd_status_spec(
                words(flags@).contains("svm"@),
                words(flags@).contains("hypervisor"@),
                vm_cr,
                efer,
            ),
    {
        let has_svm = has_flag(flags, "svm");
        let under_hypervisor = has_flag(flags, "hypervisor");
        match vm_cr {
            Some(vmcr) => {
                let svmdis = (vmcr >> 4) & 1;
                if svmdis != 0 {
                    VirtStatus::Disabled
                } else {
                    match efer {
                        Some(e) => {
                            let svme = (e >> 12) & 1;
                            if has_svm {
                                if svme == 1 {
                                    VirtStatus::Enabled
                                } else {
                                    VirtStatus::CanBeEnabled
                                }
                            } else if under_hypervisor && (svme == 0 || svme == 1) {
                                VirtStatus::CanBeEnabled
                            } else {
                                VirtStatus::Disabled
                            }
                        },
                        None => {
                            if has_svm {
                                VirtStatus::CanBeEnabled
                            } else {
                                VirtStatus::Disabled
                            }
                        },
                    }
                }
            },
            None => {
                if !has_svm {
                    VirtStatus::Disabled
                } else {
                    VirtStatus::CanBeEnabled
                }
            },
        }
    }

    /// The state of hardware virtualization on the host that `cpuinfo` describes, given what
    /// reading the vendor's MSRs gave (`None` where a read failed or was not made).
    pub fn discover_cpu_virtualization(&self, cpuinfo: &str, first_msr: Option<u64>, efer: Option<u64>) -> (r:
        VirtStatus)
        ensures
            r == virt_status_spec(cpuinfo@, first_msr, efer),
    {
        let vendor = vendor_from_cpuinfo(cpuinfo);
        let flags = extract_flags(cpuinfo);
        match vendor {
            CpuVendor::Intel => self.check_intel(flags.as_str(), first_msr),
            CpuVendor::Amd => self.check_amd(flags.as_str(), first_msr, efer),
            CpuVendor::Other => VirtStatus::Disabled,
        }
    }

    /// The "PVH Support" check: passes when virtualization is enabled or can be enabled; `Err`
    /// carries the error met while reading the host's CPU information.
    pub fn check_virtualization(&self, status: Result<VirtStatus, String>) -> (r: CheckResult)
        ensures
            r@.name == "PVH Support"@,
            r@.output is None,
            r@.result == (match status {
                Ok(VirtStatus::Disabled) => ResultView::Failed("Hardware Virtualization Disabled"@),
                Ok(_) => ResultView::Passed,
                Err(e) => ResultView::Errored(e@),
            }),
    {
        match status {
            Ok(VirtStatus::Enabled) | Ok(VirtStatus::CanBeEnabled) => CheckResult::new(
                "PVH Support",
                CheckResultValue::Passed,
            ),
            Ok(VirtStatus::Disabled) => CheckResult::new(
                "PVH Support",
                CheckResultValue::Failed(String::from_str("Hardware Virtualization Disabled")),
            ),
            Err(e) => CheckResult::new("PVH Support", CheckResultValue::Errored(e)),
        }
    }

    /// The PVH group's result from the outcome of its check; on other architectures than x86-64
    /// the group is skipped without running a check.
    pub fn run_all(&self, arch: Arch, status: Result<VirtStatus, String>) -> (r: CheckGroupResult)
        ensures
            arch is X86_64 ==> r@ == (GroupView {
                name: NAME@,
                result: group_outcome(seq![check_virtualization_view(status)], ""@, ""@),
                results: seq![check_virtualization_view(status)],
            }),
            !(arch is X86_64) ==> r@ == (GroupView {
                name: NAME@,
                result: ResultView::Skipped("not supported on this arch"@),
                results: Seq::empty(),
            }),
    {
        match arch {
            Arch::X86_64 => {
                let ghost st = status;
                let mut results: Vec<CheckResult> = Vec::new();
                results.push(self.check_virtualization(status));
                let r = group_from(NAME, results, "", "");
                assert(r@.results =~= seq![check_virtualization_view(st)]);
                r
            },
            _ => {
                let r = CheckGroupResult {
                    name: String::from_str(NAME),
                    result: CheckResultValue::Skipped(String::from_str("not supported on this arch")),
                    results: Vec::new(),
                };
                assert(r@.results =~= Seq::<CheckView>::empty());
                r
            },
        }
    }
}

impl CheckGroup for PVHChecks {
    fn name(&self) -> (r: &str)
        ensures
            r@ == NAME@,
    {
        NAME
    }

    fn id(&self) -> (r: &str)
        ensures
            r@ == GROUP_IDENTIFIER@,
    {
        GROUP_IDENTIFIER
    }

    fn description(&self) -> (r: &str)
        ensures
            r@ == "PVH capability checks"@,
    {
        "PVH capability checks"
    }

    fn category(&self) -> (r: CheckGroupCategory)
        ensures
            r@ == CategoryView::Optional("PVH feature may not be available on this system"@),
    {
        CheckGroupCategory::Optional(String::from_str("PVH feature may not be available on this system"))
    }
}

} // verus!
