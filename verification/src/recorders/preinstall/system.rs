//! The preinstall host recorder: a snapshot of the host's configuration for the report.
use vstd::prelude::*;

use crate::helpers::{
    group_from, group_outcome, CategoryView, CheckGroup, CheckGroupCategory, CheckGroupResult,
    GroupView,
};
use crate::recorders::common::{
    host_observations_complete, host_records, CommonSystemRecorder, HostObservations,
};

verus! {

pub const GROUP_IDENTIFIER: &'static str = "sysinfo";

pub const NAME: &'static str = "System Info Recorder";

pub struct SystemRecorder {
    common: CommonSystemRecorder,
}

impl SystemRecorder {
    pub fn new() -> (r: SystemRecorder) {
        SystemRecorder { common: CommonSystemRecorder::new() }
    }

    /// The group's result from what the host gave: every host record, in order; the group
    /// fails or errs as its records do.
    pub fn run_all(&self, o: HostObservations) -> (r: CheckGroupResult)
        requires
            host_observations_complete(&o),
        ensures
            r@ == (GroupView {
                name: NAME@,
                result: group_outcome(host_records(&o), "group failed"@, "group errored"@),
                results: host_records(&o),
            }),
    {
        let results = self.common.record_host(o);
        group_from(NAME, results, "group failed", "group errored")
    }
}

impl CheckGroup for SystemRecorder {
    fn name(&self) -> (r: &str)
        ensures
            r@ == NAME@,
    {
        NAME
    }

    fn id(&self) -> (r: &str)
        ensures
            r@ == GROUP_IDENTIFIER@,
    {
        GROUP_IDENTIFIER
    }

    fn description(&self) -> (r: &str)
        ensures
            r@ == "Record system information for reporting purposes"@,
    {
        "Record system information for reporting purposes"
    }

    fn category(&self) -> (r: CheckGroupCategory)
        ensures
            r@ == CategoryView::Advisory,
    {
        CheckGroupCategory::Advisory
    }
}

} // verus!
