//! The IOMMU group: the firmware describes an Intel (DMAR) or AMD (IVRS) IOMMU.
use vstd::prelude::*;

use crate::helpers::{
    group_from, group_outcome, Arch, CategoryView, CheckGroup, CheckGroupCategory, CheckGroupResult,
    CheckResult, CheckResultValue, CheckView, GroupView, ResultView,
};

verus! {

pub const GROUP_IDENTIFIER: &'static str = "iommu";

pub const NAME: &'static str = "IOMMU Checks";

/// Which ACPI tables exist on the host: `/sys/firmware/acpi/tables/DMAR` (Intel) and
/// `/sys/firmware/acpi/tables/IVRS` (AMD).
pub struct AcpiTables {
    pub dmar: bool,
    pub ivrs: bool,
}

/// The view of what was found of the ACPI tables.
pub open spec fn tables_view(t: Result<AcpiTables, String>) -> Result<(bool, bool), Seq<char>> {
    match t {
        Ok(t) => Ok((t.dmar, t.ivrs)),
        Err(e) => Err(e@),
    }
}

/// What the "IOMMU Support" check gives.
pub open spec fn iommu_view(tables: Result<(bool, bool), Seq<char>>) -> CheckView {
    CheckView {
        name: "IOMMU Support"@,
        output: None,
        result: match tables {
            Ok((dmar, ivrs)) => if dmar || ivrs {
                ResultView::Passed
            } else {
                ResultView::Failed("no IOMMU detected"@)
            },
            Err(e) => ResultView::Errored(e),
        },
    }
}

pub struct IOMMUChecks;

impl IOMMUChecks {
    pub fn new() -> (r: IOMMUChecks) {
        IOMMUChecks
    }

    /// Checks that an Intel or AMD IOMMU is described by the firmware.
    pub fn check_iommu(&self, tables: Result<AcpiTables, String>) -> (r: CheckResult)
        ensures
            r@ == iommu_view(tables_view(tables)),
    {
        let name = "IOMMU Support";
        match tables {
            Ok(t) => {
                if t.dmar || t.ivrs {
                    CheckResult::new(name, CheckResultValue::Passed)
                } else {
                    CheckResult::new(
                        name,
                        CheckResultValue::Failed(String::from_str("no IOMMU detected")),
                    )
                }
            },
            Err(e) => CheckResult::new(name, CheckResultValue::Errored(e)),
        }
    }

    /// The group's result; on other architectures than x86-64 no check runs.
    pub fn run_all(&self, arch: Arch, tables: Result<AcpiTables, String>) -> (r: CheckGroupResult)
        ensures
            arch is X86_64 ==> r@ == (GroupView {
                name: NAME@,
                result: group_outcome(
                    seq![iommu_view(tables_view(tables))],
                    "group failed"@,
                    "group errored"@,
                ),
                results: seq![iommu_view(tables_view(tables))],
            }),
            !(arch is X86_64) ==> r@ == (GroupView {
                name: NAME@,
                result: ResultView::Unknown,
                results: Seq::empty(),
            }),
    {
        match arch {
            Arch::X86_64 => {
                let ghost t = tables_view(tables);
                let mut results = Vec::new();
                results.push(self.check_iommu(tables));
                let r = group_from(NAME, results, "group failed", "group errored");
                assert(r@.results =~= seq![iommu_view(t)]);
                r
            },
            _ => CheckGroupResult::new(NAME),
        }
    }
}

impl CheckGroup for IOMMUChecks {
    fn name(&self) -> (r: &str)
        ensures
            r@ == NAME@,
    {
        NAME
    }

    fn id(&self) -> (r: &str)
        ensures
            r@ == GROUP_IDENTIFIER@,
    {
        GROUP_IDENTIFIER
    }

    fn description(&self) -> (r: &str)
        ensures
            r@ == "IOMMU capability checks"@,
    {
        "IOMMU capability checks"
    }

    fn category(&self) -> (r: CheckGroupCategory)
        ensures
            r@ == CategoryView::Optional("IOMMU support not detected on this system"@),
    {
        CheckGroupCategory::Optional(String::from_str("IOMMU support not detected on this system"))
    }
}

} // verus!
