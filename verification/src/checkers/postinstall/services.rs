//! The postinstall services group: the Edera daemons are running.
use vstd::prelude::*;

use crate::helpers::services::{bool_view, service_check, service_view};
use crate::helpers::{
    group_from, group_outcome, CategoryView, CheckGroup, CheckGroupCategory, CheckGroupResult,
    CheckResult, CheckView, GroupView,
};

verus! {

pub const GROUP_IDENTIFIER: &'static str = "services";

pub const NAME: &'static str = "Service Status Checks";

/// Whether each daemon is running, as asked of the init system (or the error met asking).
pub struct ServiceStates {
    pub daemon: Result<bool, String>,
    pub storage: Result<bool, String>,
    pub network: Result<bool, String>,
}

/// The checks of the group, in order.
pub open spec fn service_checks(s: &ServiceStates) -> Seq<CheckView> {
    seq![
        service_view("Protect daemon status"@, "protect-daemon"@, bool_view(s.daemon)),
        service_view("Protect storage daemon status"@, "protect-storage"@, bool_view(s.storage)),
        service_view("Protect network daemon status"@, "protect-network"@, bool_view(s.network)),
    ]
}

pub struct ServiceChecks;

impl ServiceChecks {
    pub fn new() -> (r: ServiceChecks) {
        ServiceChecks
    }

    /// The services the group asks about, in order.
    pub fn service_names(&self) -> (r: Vec<String>)
        ensures
            crate::text::string_views(r@) == seq![
                "protect-daemon"@,
                "protect-storage"@,
                "protect-network"@,
            ],
    {
        let r = crate::helpers::kernel::strings_of(
            &["protect-daemon", "protect-storage", "protect-network"],
        );
        assert(crate::text::string_views(r@) =~= seq![
            "protect-daemon"@,
            "protect-storage"@,
            "protect-network"@,
        ]);
        r
    }

    /// Checks that `protect-daemon` is running, from what the init system answered.
    pub fn check_daemon(&self, running: Result<bool, String>) -> (r: CheckResult)
        ensures
            r@ == service_view("Protect daemon status"@, "protect-daemon"@, bool_view(running)),
    {
        service_check("Protect daemon status", "protect-daemon", running)
    }

    /// Checks that `protect-storage` is running, from what the init system answered.
    pub fn check_storage(&self, running: Result<bool, String>) -> (r: CheckResult)
        ensures
            r@ == service_view(
                "Protect storage daemon status"@,
                "protect-storage"@,
                bool_view(running),
            ),
    {
        service_check("Protect storage daemon status", "protect-storage", running)
    }

    /// Checks that `protect-network` is running, from what the init system answered.
    pub fn check_network(&self, running: Result<bool, String>) -> (r: CheckResult)
        ensures
            r@ == service_view(
                "Protect network daemon status"@,
                "protect-network"@,
                bool_view(running),
            ),
    {
        service_check("Protect network daemon status", "protect-network", running)
    }

    /// The group's result from what the init system answered.
    pub fn run_all(&self, states: ServiceStates) -> (r: CheckGroupResult)
        ensures
            r@ == (GroupView {
                name: NAME@,
                result: group_outcome(service_checks(&states), "group failed"@, "group errored"@),
                results: service_checks(&states),
            }),
    {
        let ghost expected = service_checks(&states);
        let mut results = Vec::new();
        results.push(self.check_daemon(states.daemon));
        results.push(self.check_storage(states.storage));
        results.push(self.check_network(states.network));
        let r = group_from(NAME, results, "group failed", "group errored");
        assert(r@.results =~= expected);
        r
    }
}

impl CheckGroup for ServiceChecks {
    fn name(&self) -> (r: &str)
        ensures
            r@ == NAME@,
    {
        NAME
    }

    fn id(&self) -> (r: &str)
        ensures
            r@ == GROUP_IDENTIFIER@,
    {
        GROUP_IDENTIFIER
    }

    fn description(&self) -> (r: &str)
        ensures
            r@ == "Check status of required host services"@,
    {
        "Check status of required host services"
    }

    fn category(&self) -> (r: CheckGroupCategory)
        ensures
            r@ == CategoryView::Required,
    {
        CheckGroupCategory::Required
    }
}

} // verus!
