//! The bring-your-own-kernel group: the running kernel is recent enough and provides the Xen
//! and networking modules that Edera needs.
use vstd::prelude::*;

use crate::helpers::kernel::{
    check_modules, modules_outcome, res_list_view, res_view, strings_of, version_is_good,
    version_lt, kver_floor, KernelVersion, ModuleListings,
};
use crate::helpers::{
    group_from, group_outcome, CategoryView, CheckGroup, CheckGroupCategory, CheckGroupResult,
    CheckView, GroupView, ResultView,
};
use crate::text::string_views;

verus! {

pub const GROUP_IDENTIFIER: &'static str = "byokernel";

pub const NAME: &'static str = "Bring-Your-Own Kernel Checks";

/// Modules that the running kernel must have as loaded, built in or loadable to be usable as a
/// bring-your-own kernel.
pub open spec fn required_modules() -> Seq<Seq<char>> {
    seq![
        "nf_tables"@,
        "xen_evtchn"@,
        "xen-privcmd"@,
        "xen-netback"@,
        "xen-pciback"@,
        "xen-blkback"@,
        "xen-gntdev"@,
        "xen-gntalloc"@,
    ]
}

/// What the modules check gives for `listings`.
pub open spec fn has_modules_view(listings: &ModuleListings) -> CheckView {
    CheckView {
        name: "Host Has Necessary Modules"@,
        output: None,
        result: modules_outcome(
            res_view(listings.builtins),
            res_list_view(listings.loaded),
            res_view(listings.deps),
            required_modules(),
        ),
    }
}

/// What the version check gives for the host's release.
pub open spec fn version_view(current: Result<KernelVersion, String>) -> CheckView {
    CheckView {
        name: "Host Kernel Version Is Good"@,
        output: None,
        result: match current {
            Err(e) => ResultView::Errored(e@),
            Ok(v) => if version_lt(v, kver_floor()) {
                ResultView::Failed("current kernel version is unsupported"@)
            } else {
                ResultView::Passed
            },
        },
    }
}

pub struct BYOKernelChecks;

impl BYOKernelChecks {
    pub fn new() -> (r: BYOKernelChecks) {
        BYOKernelChecks
    }

    /// Checks that all required Xen and networking modules are available as built-in,
    /// currently loaded, or loadable (present in `modules.dep`) for the running kernel.
    pub fn has_modules(&self, listings: &ModuleListings) -> (r: crate::helpers::CheckResult)
        ensures
            r@ == has_modules_view(listings),
    {
        let required = strings_of(
            &[
                "nf_tables",
                "xen_evtchn",
                "xen-privcmd",
                "xen-netback",
                "xen-pciback",
                "xen-blkback",
                "xen-gntdev",
                "xen-gntalloc",
            ],
        );
        assert(string_views(required@) =~= required_modules());
        check_modules("Host Has Necessary Modules", listings, &required)
    }

    /// The group's result from what was read from the host: its modules and its release.
    pub fn run_all(&self, listings: &ModuleListings, current: Result<KernelVersion, String>) -> (r:
        CheckGroupResult)
        ensures
            r@ == (GroupView {
                name: NAME@,
                result: group_outcome(
                    seq![has_modules_view(listings), version_view(current)],
                    ""@,
                    ""@,
                ),
                results: seq![has_modules_view(listings), version_view(current)],
            }),
    {
        let ghost cur = current;
        let mut results = Vec::new();
        results.push(self.has_modules(listings));
        results.push(version_is_good(current));
        let r = group_from(NAME, results, "", "");
        assert(r@.results =~= seq![has_modules_view(listings), version_view(cur)]);
        r
    }
}

impl CheckGroup for BYOKernelChecks {
    fn name(&self) -> (r: &str)
        ensures
            r@ == NAME@,
    {
        NAME
    }

    fn id(&self) -> (r: &str)
        ensures
            r@ == GROUP_IDENTIFIER@,
    {
        GROUP_IDENTIFIER
    }

    fn description(&self) -> (r: &str)
        ensures
            r@ == "Bring Your Own Kernel requirement checks"@,
    {
        "Bring Your Own Kernel requirement checks"
    }

    fn category(&self) -> (r: CheckGroupCategory)
        ensures
            r@ == CategoryView::Optional("Active kernel not sufficient for Bring-Your-Own-Kernel support"@),
    {
        CheckGroupCategory::Optional(
            String::from_str("Active kernel not sufficient for Bring-Your-Own-Kernel support"),
        )
    }
}

} // verus!
