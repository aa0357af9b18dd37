//! The preinstall kernel group: the modules Edera needs are available on the running kernel.
use vstd::prelude::*;

use crate::helpers::kernel::{
    check_modules, modules_outcome, res_list_view, res_view, strings_of, ModuleListings,
};
use crate::helpers::{
    group_from, group_outcome, CategoryView, CheckGroup, CheckGroupCategory, CheckGroupResult,
    CheckView, GroupView,
};
use crate::text::string_views;

verus! {

pub const GROUP_IDENTIFIER: &'static str = "kernel";

pub const NAME: &'static str = "Kernel Checks";

/// The modules that the running kernel must provide.
pub open spec fn required_modules() -> Seq<Seq<char>> {
    seq!["nf_tables"@, "msr"@]
}

/// What the group's single check gives for `listings`.
pub open spec fn has_modules_view(listings: &ModuleListings) -> CheckView {
    CheckView {
        name: "Host Has Necessary Modules"@,
        output: None,
        result: modules_outcome(
            res_view(listings.builtins),
            res_list_view(listings.loaded),
            res_view(listings.deps),
            required_modules(),
        ),
    }
}

pub struct KernelChecks;

impl KernelChecks {
    pub fn new() -> (r: KernelChecks) {
        KernelChecks
    }

    /// Checks that `nf_tables` and `msr` are built into, currently loaded by, or loadable
    /// (present in `modules.dep`) on the running kernel.
    pub fn has_modules(&self, listings: &ModuleListings) -> (r: crate::helpers::CheckResult)
        ensures
            r@ == has_modules_view(listings),
    {
        let required = strings_of(&["nf_tables", "msr"]);
        assert(string_views(required@) =~= required_modules());
        check_modules("Host Has Necessary Modules", listings, &required)
    }

    /// The group's result from what was read from the host.
    pub fn run_all(&self, listings: &ModuleListings) -> (r: CheckGroupResult)
        ensures
            r@ == (GroupView {
                name: NAME@,
                result: group_outcome(seq![has_modules_view(listings)], ""@, ""@),
                results: seq![has_modules_view(listings)],
            }),
    {
        let mut results = Vec::new();
        results.push(self.has_modules(listings));
        let r = group_from(NAME, results, "", "");
        assert(r@.results =~= seq![has_modules_view(listings)]);
        r
    }
}

impl CheckGroup for KernelChecks {
    fn name(&self) -> (r: &str)
        ensures
            r@ == NAME@,
    {
        NAME
    }

    fn id(&self) -> (r: &str)
        ensures
            r@ == GROUP_IDENTIFIER@,
    {
        GROUP_IDENTIFIER
    }

    fn description(&self) -> (r: &str)
        ensures
            r@ == "Kernel requirement checks"@,
    {
        "Kernel requirement checks"
    }

    fn category(&self) -> (r: CheckGroupCategory)
        ensures
            r@ == CategoryView::Required,
    {
        CheckGroupCategory::Required
    }
}

} // verus!
