//! The Kubernetes group: the Edera CRI and the kubelet are running.
use vstd::prelude::*;

use crate::helpers::services::{bool_view, service_check, service_view};
use crate::helpers::{
    group_from, group_outcome, CategoryView, CheckGroup, CheckGroupCategory, CheckGroupResult,
    CheckView, GroupView,
};

verus! {

pub const GROUP_IDENTIFIER: &'static str = "kubernetes";

pub const NAME: &'static str = "Kubernetes Capability Checks";

/// The checks of the group, in order, for whether `protect-cri` and `kubelet` run.
pub open spec fn kube_checks(cri: Result<bool, Seq<char>>, kubelet: Result<bool, Seq<char>>) -> Seq<
    CheckView,
> {
    seq![
        service_view("Protect CRI daemon status"@, "protect-cri"@, cri),
        service_view("kubelet status"@, "kubelet"@, kubelet),
    ]
}

pub struct KubeChecks;

impl KubeChecks {
    pub fn new() -> (r: KubeChecks) {
        KubeChecks
    }

    /// Checks that the `protect-cri` container runtime interface service is active.
    pub fn check_cri(&self, running: Result<bool, String>) -> (r: crate::helpers::CheckResult)
        ensures
            r@ == service_view("Protect CRI daemon status"@, "protect-cri"@, bool_view(running)),
    {
        service_check("Protect CRI daemon status", "protect-cri", running)
    }

    /// Checks that the `kubelet` service is active.
    pub fn check_kubelet(&self, running: Result<bool, String>) -> (r: crate::helpers::CheckResult)
        ensures
            r@ == service_view("kubelet status"@, "kubelet"@, bool_view(running)),
    {
        service_check("kubelet status", "kubelet", running)
    }

    /// The group's result from what the init system answered.
    pub fn run_all(&self, cri: Result<bool, String>, kubelet: Result<bool, String>) -> (r:
        CheckGroupResult)
        ensures
            r@ == (GroupView {
                name: NAME@,
                result: group_outcome(
                    kube_checks(bool_view(cri), bool_view(kubelet)),
                    "group failed"@,
                    "group errored"@,
                ),
                results: kube_checks(bool_view(cri), bool_view(kubelet)),
            }),
    {
        let ghost expected = kube_checks(bool_view(cri), bool_view(kubelet));
        let mut results = Vec::new();
        results.push(self.check_cri(cri));
        results.push(self.check_kubelet(kubelet));
        let r = group_from(NAME, results, "group failed", "group errored");
        assert(r@.results =~= expected);
        r
    }
}

impl CheckGroup for KubeChecks {
    fn name(&self) -> (r: &str)
        ensures
            r@ == NAME@,
    {
        NAME
    }

    fn id(&self) -> (r: &str)
        ensures
            r@ == GROUP_IDENTIFIER@,
    {
        GROUP_IDENTIFIER
    }

    fn description(&self) -> (r: &str)
        ensures
            r@ == "Check status of Kubernetes integration"@,
    {
        "Check status of Kubernetes integration"
    }

    fn category(&self) -> (r: CheckGroupCategory)
        ensures
            r@ == CategoryView::Optional("Kubernetes feature not available on this system"@),
    {
        CheckGroupCategory::Optional(
            String::from_str("Kubernetes feature not available on this system"),
        )
    }
}

} // verus!
