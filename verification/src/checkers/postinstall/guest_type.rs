//! The guest type group: the hypervisor supports PVH guests.
use vstd::prelude::*;

use crate::helpers::{
    group_from, group_outcome, CategoryView, CheckGroup, CheckGroupCategory, CheckGroupResult,
    CheckResult, CheckResultValue, CheckView, GroupView, ResultView,
};
use crate::text::{concat_strs, opt_string_view, trimmed_is, trimmed_is_exec};

verus! {

pub const GROUP_IDENTIFIER: &'static str = "guesttype";

pub const NAME: &'static str = "Guest Support Checks";

/// What the check gives: `guest_type` is the text of `/sys/hypervisor/guest_type` (`None`
/// when the file does not exist, empty when it cannot be read), or the error met looking.
pub open spec fn guest_support_view(guest_type: Result<Option<Seq<char>>, Seq<char>>) -> CheckView {
    CheckView {
        name: "Guest Type Support"@,
        output: None,
        result: match guest_type {
            Ok(t) => if trimmed_is(t, "PVH"@) {
                ResultView::Passed
            } else {
                ResultView::Failed("PVH guests not supported"@)
            },
            Err(e) => ResultView::Errored("Error: "@ + e),
        },
    }
}

/// The view of what was read of the guest type.
pub open spec fn guest_type_view(r: Result<Option<String>, String>) -> Result<
    Option<Seq<char>>,
    Seq<char>,
> {
    match r {
        Ok(o) => Ok(opt_string_view(o)),
        Err(e) => Err(e@),
    }
}

pub struct GuestTypeChecks;

impl GuestTypeChecks {
    pub fn new() -> (r: GuestTypeChecks) {
        GuestTypeChecks
    }

    /// Checks that the hypervisor reports the PVH guest type.
    pub fn check_guest_support(&self, guest_type: &Result<Option<String>, String>) -> (r:
        CheckResult)
        ensures
            r@ == guest_support_view(guest_type_view(*guest_type)),
    {
        let name = "Guest Type Support";
        match guest_type {
            Ok(t) => {
                if trimmed_is_exec(t, "PVH") {
                    CheckResult::new(name, CheckResultValue::Passed)
                } else {
                    CheckResult::new(
                        name,
                        CheckResultValue::Failed(String::from_str("PVH guests not supported")),
                    )
                }
            },
            Err(e) => CheckResult::new(
                name,
                CheckResultValue::Errored(concat_strs("Error: ", e.as_str())),
            ),
        }
    }

    /// The group's result from what was read.
    pub fn run_all(&self, guest_type: &Result<Option<String>, String>) -> (r: CheckGroupResult)
        ensures
            r@ == (GroupView {
                name: NAME@,
                result: group_outcome(
                    seq![guest_support_view(guest_type_view(*guest_type))],
                    ""@,
                    ""@,
                ),
                results: seq![guest_support_view(guest_type_view(*guest_type))],
            }),
    {
        let mut results = Vec::new();
        results.push(self.check_guest_support(guest_type));
        let r = group_from(NAME, results, "", "");
        assert(r@.results =~= seq![guest_support_view(guest_type_view(*guest_type))]);
        r
    }
}

impl CheckGroup for GuestTypeChecks {
    fn name(&self) -> (r: &str)
        ensures
            r@ == NAME@,
    {
        NAME
    }

    fn id(&self) -> (r: &str)
        ensures
            r@ == GROUP_IDENTIFIER@,
    {
        GROUP_IDENTIFIER
    }

    fn description(&self) -> (r: &str)
        ensures
            r@ == "Supported guest type checks"@,
    {
        "Supported guest type checks"
    }

    fn category(&self) -> (r: CheckGroupCategory)
        ensures
            r@ == CategoryView::Optional("PVH guest support not available on this system"@),
    {
        CheckGroupCategory::Optional(String::from_str("PVH guest support not available on this system"))
    }
}

} // verus!
