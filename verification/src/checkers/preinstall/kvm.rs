//! The KVM group: `/dev/kvm` exists and the vsock and KVM modules are available.
use vstd::prelude::*;

use crate::checkers::preinstall::pvh::{vendor_from_cpuinfo, cpuinfo_vendor, CpuVendor};
use crate::helpers::cpu::cpuinfo_field;
use crate::helpers::kernel::{
    check_modules, modules_outcome, res_list_view, res_view, strings_of, ModuleListings,
};
use crate::helpers::cpu::extract_cpu_vendor;
use crate::helpers::{
    group_from, group_outcome, Arch, CategoryView, CheckGroup, CheckGroupCategory, CheckGroupResult,
    CheckResult, CheckResultValue, CheckView, GroupView, ResultView,
};
use crate::text::{concat_strs, string_views};

verus! {

pub const GROUP_IDENTIFIER: &'static str = "kvm";

pub const NAME: &'static str = "KVM checks";

/// The modules KVM guests need on a host of architecture `arch` with a CPU from `vendor`;
/// `None` for an x86-64 CPU of unknown vendor.
pub open spec fn kvm_modules(arch: Arch, vendor: CpuVendor) -> Option<Seq<Seq<char>>> {
    match arch {
        Arch::X86_64 => match vendor {
            CpuVendor::Intel => Some(seq!["vhost_vsock"@, "kvm_intel"@]),
            CpuVendor::Amd => Some(seq!["vhost_vsock"@, "kvm_amd"@]),
            CpuVendor::Other => None,
        },
        _ => Some(seq!["vhost_vsock"@]),
    }
}

/// The vendor name that `cpuinfo` gives.
pub open spec fn vendor_name(cpuinfo: Seq<char>) -> Seq<char> {
    match cpuinfo_field(cpuinfo, "vendor_id"@) {
        Some(v) => v,
        None => "Unknown"@,
    }
}

/// What the modules check gives: `cpuinfo` is the host's `/proc/cpuinfo` (or the error met
/// reading it), which is only consulted on x86-64.
pub open spec fn has_modules_view(
    arch: Arch,
    cpuinfo: Result<Seq<char>, Seq<char>>,
    listings: &ModuleListings,
) -> CheckView {
    CheckView {
        name: "Host has necessary kernel modules"@,
        output: None,
        result: if arch is X86_64 {
            match cpuinfo {
                Err(e) => ResultView::Errored(e),
                Ok(c) => match kvm_modules(arch, cpuinfo_vendor(c)) {
                    None => ResultView::Errored("Unknown CPU vendor: "@ + vendor_name(c)),
                    Some(req) => modules_outcome(
                        res_view(listings.builtins),
                        res_list_view(listings.loaded),
                        res_view(listings.deps),
                        req,
                    ),
                },
            }
        } else {
            modules_outcome(
                res_view(listings.builtins),
                res_list_view(listings.loaded),
                res_view(listings.deps),
                seq!["vhost_vsock"@],
            )
        },
    }
}

/// What the `/dev/kvm` check gives: `exists` says whether the device exists on the host, or
/// carries the error met looking.
pub open spec fn dev_kvm_view(exists: Result<bool, Seq<char>>) -> CheckView {
    CheckView {
        name: "/dev/kvm check"@,
        output: None,
        result: match exists {
            Ok(true) => ResultView::Passed,
            Ok(false) => ResultView::Failed("/dev/kvm doesn't exist on the host"@),
            Err(e) => ResultView::Errored(e),
        },
    }
}

/// The view of a boolean result.
pub open spec fn bool_res_view(r: Result<bool, String>) -> Result<bool, Seq<char>> {
    match r {
        Ok(b) => Ok(b),
        Err(e) => Err(e@),
    }
}

pub struct KvmChecks;

impl KvmChecks {
    pub fn new() -> (r: KvmChecks) {
        KvmChecks
    }

    /// The `/dev/kvm` check.
    pub fn check_dev_kvm(&self, exists: Result<bool, String>) -> (r: CheckResult)
        ensures
            r@ == dev_kvm_view(bool_res_view(exists)),
    {
        let name = "/dev/kvm check";
        match exists {
            Ok(true) => CheckResult::new(name, CheckResultValue::Passed),
            Ok(false) => CheckResult::new(
                name,
                CheckResultValue::Failed(String::from_str("/dev/kvm doesn't exist on the host")),
            ),
            Err(e) => CheckResult::new(name, CheckResultValue::Errored(e)),
        }
    }

    /// The check that the vsock module, and on x86-64 the vendor's KVM module, are available.
    pub fn has_modules(
        &self,
        arch: Arch,
        cpuinfo: &Result<String, String>,
        listings: &ModuleListings,
    ) -> (r: CheckResult)
        ensures
            r@ == has_modules_view(arch, res_view(*cpuinfo), listings),
    {
        let name = "Host has necessary kernel modules";
        match arch {
            Arch::X86_64 => {
                match cpuinfo {
                    Err(e) => CheckResult::new(name, CheckResultValue::Errored(e.clone())),
                    Ok(c) => {
                        let vendor = vendor_from_cpuinfo(c.as_str());
                        match vendor {
                            CpuVendor::Intel => {
                                let required = strings_of(&["vhost_vsock", "kvm_intel"]);
                                assert(string_views(required@) =~= seq![
                                    "vhost_vsock"@,
                                    "kvm_intel"@,
                                ]);
                                check_modules(name, listings, &required)
                            },
                            CpuVendor::Amd => {
                                let required = strings_of(&["vhost_vsock", "kvm_amd"]);
                                assert(string_views(required@) =~= seq![
                                    "vhost_vsock"@,
                                    "kvm_amd"@,
                                ]);
                                check_modules(name, listings, &required)
                            },
                            CpuVendor::Other => {
                                let v = extract_cpu_vendor(c.as_str());
                                CheckResult::new(
                                    name,
                                    CheckResultValue::Errored(
                                        concat_strs("Unknown CPU vendor: ", v.as_str()),
                                    ),
                                )
                            },
                        }
                    },
                }
            },
            _ => {
                let required = strings_of(&["vhost_vsock"]);
                assert(string_views(required@) =~= seq!["vhost_vsock"@]);
                check_modules(name, listings, &required)
            },
        }
    }

    /// The group's result from what was read from the host.
    pub fn run_all(
        &self,
        arch: Arch,
        cpuinfo: &Result<String, String>,
        listings: &ModuleListings,
        dev_kvm_exists: Result<bool, String>,
    ) -> (r: CheckGroupResult)
        ensures
            r@ == (GroupView {
                name: NAME@,
                result: group_outcome(
                    seq![
                        has_modules_view(arch, res_view(*cpuinfo), listings),
                        dev_kvm_view(bool_res_view(dev_kvm_exists)),
                    ],
                    ""@,
                    ""@,
                ),
                results: seq![
                    has_modules_view(arch, res_view(*cpuinfo), listings),
                    dev_kvm_view(bool_res_view(dev_kvm_exists)),
                ],
            }),
    {
        let ghost d = dev_kvm_exists;
        let mut results = Vec::new();
        results.push(self.has_modules(arch, cpuinfo, listings));
        results.push(self.check_dev_kvm(dev_kvm_exists));
        let r = group_from(NAME, results, "", "");
        assert(r@.results =~= seq![
            has_modules_view(arch, res_view(*cpuinfo), listings),
            dev_kvm_view(bool_res_view(d)),
        ]);
        r
    }
}

impl CheckGroup for KvmChecks {
    fn name(&self) -> (r: &str)
        ensures
            r@ == NAME@,
    {
        NAME
    }

    fn id(&self) -> (r: &str)
        ensures
            r@ == GROUP_IDENTIFIER@,
    {
        GROUP_IDENTIFIER
    }

    fn description(&self) -> (r: &str)
        ensures
            r@ == "KVM availability checks"@,
    {
        "KVM availability checks"
    }

    fn category(&self) -> (r: CheckGroupCategory)
        ensures
            r@ == CategoryView::Required,
    {
        CheckGroupCategory::Required
    }
}

} // verus!
