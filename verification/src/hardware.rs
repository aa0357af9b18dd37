//! Hardware checks: records the PCI devices, DMI tables, CPU, kernel command line and GRUB
//! configuration of the host, for information.
use vstd::prelude::*;

use crate::helpers::{
    group_from, group_outcome, CategoryView, CheckGroup, CheckGroupCategory, CheckGroupResult,
    CheckResult, CheckResultValue, CheckView, GroupView, ResultView,
};
use crate::recorders::common::{
    grub_cfg_paths, tool_outcome_view, tool_record, tool_view, Shortfall, ToolOutput,
};
use crate::text::{concat_strs, string_views};

verus! {

pub const GROUP_IDENTIFIER: &'static str = "HardwareChecks";

pub const NAME: &'static str = "Hardware Checks";

/// What recording the file at `path` gives when reading it gave `read`.
pub open spec fn file_record_view(path: Seq<char>, read: Result<Seq<char>, Seq<char>>) -> CheckView {
    let name = "Record "@ + path;
    match read {
        Err(e) => CheckView {
            name,
            output: None,
            result: ResultView::Errored("failed to read "@ + path + ": "@ + e),
        },
        Ok(c) => CheckView { name, output: Some(c), result: ResultView::Passed },
    }
}

/// The view of what reading a file's text gave.
pub open spec fn text_view(r: Result<String, String>) -> Result<Seq<char>, Seq<char>> {
    match r {
        Ok(s) => Ok(s@),
        Err(e) => Err(e@),
    }
}

/// What recording the GRUB configuration gives: `found` is the first candidate that exists
/// (its path and what reading it gave), if any.
pub open spec fn grub_view(found: Option<(Seq<char>, Result<Seq<char>, Seq<char>>)>) -> CheckView {
    match found {
        Some((p, read)) => file_record_view(p, read),
        None => CheckView {
            name: "Record grub config"@,
            output: None,
            result: ResultView::Errored(
                "failed to find any [\"/boot/grub2/grub.cfg\", \"/boot/grub/grub.cfg\"]"@,
            ),
        },
    }
}

/// The first candidate among `candidates` (paths with what reading them gave, `None` for a
/// path that does not exist) that exists.
pub open spec fn first_existing(
    paths: Seq<Seq<char>>,
    reads: Seq<Option<Result<Seq<char>, Seq<char>>>>,
) -> Option<(Seq<char>, Result<Seq<char>, Seq<char>>)>
    decreases reads.len(),
{
    if reads.len() == 0 || paths.len() == 0 {
        None
    } else {
        match reads[0] {
            Some(r) => Some((paths[0], r)),
            None => first_existing(paths.drop_first(), reads.drop_first()),
        }
    }
}

/// The views of what reading the candidates gave.
pub open spec fn reads_view(v: Seq<Option<Result<String, String>>>) -> Seq<
    Option<Result<Seq<char>, Seq<char>>>,
> {
    v.map_values(
        |x: Option<Result<String, String>>|
            match x {
                Some(r) => Some(text_view(r)),
                None => None,
            },
    )
}

/// What the host gave for each record of the group: the `lspci -vvv` and `dmidecode` runs,
/// `/proc/cpuinfo` and `/proc/cmdline`, and the GRUB candidates (in the order of
/// `grub_cfg_paths`, `None` for one that does not exist).
pub struct HardwareObservations {
    pub lspci: Result<ToolOutput, String>,
    pub dmidecode: Result<ToolOutput, String>,
    pub cpuinfo: Result<String, String>,
    pub cmdline: Result<String, String>,
    pub grub: Vec<Option<Result<String, String>>>,
}

/// The records of the group, in order.
pub open spec fn hardware_checks(o: &HardwareObservations) -> Seq<CheckView> {
    seq![
        tool_view("Record"@, "lspci -vvv"@, Shortfall::Error, tool_outcome_view(o.lspci)),
        tool_view("Record"@, "dmidecode"@, Shortfall::Error, tool_outcome_view(o.dmidecode)),
        file_record_view("/proc/cpuinfo"@, text_view(o.cpuinfo)),
        file_record_view("/proc/cmdline"@, text_view(o.cmdline)),
        grub_view(first_existing(grub_cfg_paths(), reads_view(o.grub@))),
    ]
}

pub struct HardwareChecks;

impl HardwareChecks {
    /// The record of the file at `path`.
    pub fn record_file(&self, path: &str, read: Result<String, String>) -> (r: CheckResult)
        ensures
            r@ == file_record_view(path@, text_view(read)),
    {
        let name = concat_strs("Record ", path);
        match read {
            Err(e) => {
                let mut m = concat_strs("failed to read ", path);
                m.append(": ");
                m.append(e.as_str());
                CheckResult::new(name.as_str(), CheckResultValue::Errored(m))
            },
            Ok(c) => CheckResult::new_with_output(name.as_str(), CheckResultValue::Passed, Some(c)),
        }
    }

    /// Records `lspci -vvv`.
    pub fn record_lspci(&self, outcome: Result<ToolOutput, String>) -> (r: CheckResult)
        ensures
            r@ == tool_view("Record"@, "lspci -vvv"@, Shortfall::Error, tool_outcome_view(outcome)),
    {
        tool_record("Record", "lspci -vvv", Shortfall::Error, outcome)
    }

    /// Records `dmidecode`.
    pub fn record_dmidecode(&self, outcome: Result<ToolOutput, String>) -> (r: CheckResult)
        ensures
            r@ == tool_view("Record"@, "dmidecode"@, Shortfall::Error, tool_outcome_view(outcome)),
    {
        tool_record("Record", "dmidecode", Shortfall::Error, outcome)
    }

    /// Records `/proc/cpuinfo`.
    pub fn record_cpuinfo(&self, read: Result<String, String>) -> (r: CheckResult)
        ensures
            r@ == file_record_view("/proc/cpuinfo"@, text_view(read)),
    {
        self.record_file("/proc/cpuinfo", read)
    }

    /// Records `/proc/cmdline`.
    pub fn record_cmdline(&self, read: Result<String, String>) -> (r: CheckResult)
        ensures
            r@ == file_record_view("/proc/cmdline"@, text_view(read)),
    {
        self.record_file("/proc/cmdline", read)
    }

    /// Records the first GRUB configuration that exists among the candidates.
    pub fn record_grub_cfg(&self, reads: Vec<Option<Result<String, String>>>) -> (r: CheckResult)
        ensures
            r@ == grub_view(first_existing(grub_cfg_paths(), reads_view(reads@))),
    {
        let paths = crate::recorders::common::grub_cfg_candidates();
        let ghost pv = string_views(paths@);
        let ghost rv = reads_view(reads@);
        let mut pending = reads;
        let mut i: usize = 0;
        assert(pv.skip(0) =~= pv);
        assert(rv.skip(0) =~= rv);
        while pending.len() > 0 && i < paths.len()
            invariant
                i <= paths.len(),
                pv == string_views(paths@),
                pv == grub_cfg_paths(),
                rv == reads_view(reads@),
                i <= rv.len(),
                reads_view(pending@) == rv.skip(i as int),
                first_existing(pv, rv) == first_existing(pv.skip(i as int), rv.skip(i as int)),
            decreases pending.len(),
        {
            let ghost before = reads_view(pending@);
            let read = pending.remove(0);
            assert(reads_view(pending@) =~= before.drop_first());
            assert(rv.skip(i as int).drop_first() =~= rv.skip(i + 1));
            assert(pv.skip(i as int).drop_first() =~= pv.skip(i + 1));
            assert(pv.skip(i as int)[0] == paths@[i as int]@);
            match read {
                Some(r) => {
                    return self.record_file(paths[i].as_str(), r);
                },
                None => {},
            }
            i = i + 1;
        }
        CheckResult::new(
            "Record grub config",
            CheckResultValue::Errored(
                String::from_str(
                    "failed to find any [\"/boot/grub2/grub.cfg\", \"/boot/grub/grub.cfg\"]",
                ),
            ),
        )
    }

    /// The group's result from what the host gave.
    pub fn run_all(&self, o: HardwareObservations) -> (r: CheckGroupResult)
        ensures
            r@ == (GroupView {
                name: NAME@,
                result: group_outcome(hardware_checks(&o), "group failed"@, "group errored"@),
                results: hardware_checks(&o),
            }),
    {
        let ghost expected = hardware_checks(&o);
        let mut results = Vec::new();
        results.push(self.record_lspci(o.lspci));
        results.push(self.record_dmidecode(o.dmidecode));
        results.push(self.record_cpuinfo(o.cpuinfo));
        results.push(self.record_cmdline(o.cmdline));
        results.push(self.record_grub_cfg(o.grub));
        let r = group_from(NAME, results, "group failed", "group errored");
        assert(r@.results =~= expected);
        r
    }
}

impl CheckGroup for HardwareChecks {
    fn name(&self) -> (r: &str)
        ensures
            r@ == NAME@,
    {
        NAME
    }

    fn id(&self) -> (r: &str)
        ensures
            r@ == GROUP_IDENTIFIER@,
    {
        GROUP_IDENTIFIER
    }

    fn description(&self) -> (r: &str)
        ensures
            r@ == "Hardware requirement checks - records for informational purposes"@,
    {
        "Hardware requirement checks - records for informational purposes"
    }

    fn category(&self) -> (r: CheckGroupCategory)
        ensures
            r@ == CategoryView::Advisory,
    {
        CheckGroupCategory::Advisory
    }
}

} // verus!
