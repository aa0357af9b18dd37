//! The postinstall system group: advisory free space under `/var/lib`.
use vstd::prelude::*;

use crate::checkers::preinstall::system::{
    disk_space_check, disk_view, disks_res_view, DiskSpace, DiskWording,
};
use crate::helpers::{
    group_from, group_outcome, CategoryView, CheckGroup, CheckGroupCategory, CheckGroupResult,
    CheckResult, GroupView,
};

verus! {

pub const GROUP_IDENTIFIER: &'static str = "system";

pub const NAME: &'static str = "System Checks";

/// 20 GiB.
pub const RECOMMENDED_DISK_VAR: u64 = 21474836480;

pub struct SystemChecks;

impl SystemChecks {
    pub fn new() -> (r: SystemChecks) {
        SystemChecks
    }

    /// Checks that the filesystem covering `mount_path` has the recommended `free_thresh`
    /// bytes free, among the mounted filesystems `disks` (or the error met listing them).
    pub fn enough_disk(&self, mount_path: &str, free_thresh: u64, disks: &Result<Vec<DiskSpace>, String>) -> (r:
        CheckResult)
        ensures
            r@ == disk_view(
                mount_path@,
                free_thresh,
                DiskWording::Recommended,
                disks_res_view(*disks),
            ),
    {
        disk_space_check(mount_path, free_thresh, DiskWording::Recommended, disks)
    }

    /// The group's result from the mounted filesystems (or the error met listing them).
    pub fn run_all(&self, disks: &Result<Vec<DiskSpace>, String>) -> (r: CheckGroupResult)
        ensures
            r@ == (GroupView {
                name: NAME@,
                result: group_outcome(
                    seq![
                        disk_view(
                            "/var/lib"@,
                            RECOMMENDED_DISK_VAR,
                            DiskWording::Recommended,
                            disks_res_view(*disks),
                        ),
                    ],
                    ""@,
                    ""@,
                ),
                results: seq![
                    disk_view(
                        "/var/lib"@,
                        RECOMMENDED_DISK_VAR,
                        DiskWording::Recommended,
                        disks_res_view(*disks),
                    ),
                ],
            }),
    {
        let mut results = Vec::new();
        results.push(self.enough_disk("/var/lib", RECOMMENDED_DISK_VAR, disks));
        let r = group_from(NAME, results, "", "");
        assert(r@.results =~= seq![
            disk_view(
                "/var/lib"@,
                RECOMMENDED_DISK_VAR,
                DiskWording::Recommended,
                disks_res_view(*disks),
            ),
        ]);
        r
    }
}

impl CheckGroup for SystemChecks {
    fn name(&self) -> (r: &str)
        ensures
            r@ == NAME@,
    {
        NAME
    }

    fn id(&self) -> (r: &str)
        ensures
            r@ == GROUP_IDENTIFIER@,
    {
        GROUP_IDENTIFIER
    }

    fn description(&self) -> (r: &str)
        ensures
            r@ == "System checks"@,
    {
        "System checks"
    }

    fn category(&self) -> (r: CheckGroupCategory)
        ensures
            r@ == CategoryView::Advisory,
    {
        CheckGroupCategory::Advisory
    }
}

} // verus!
