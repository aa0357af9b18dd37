//! The postinstall host recorder: the host snapshot plus the hypervisor's state, the journals
//! of the Edera services and the daemon's configuration.
use vstd::prelude::*;

use crate::helpers::{
    check_views, group_from, group_outcome, CategoryView, CheckGroup, CheckGroupCategory,
    CheckGroupResult, CheckResult, CheckResultValue, CheckView, GroupView, ResultView,
};
use crate::recorders::common::{
    file_view, host_observations_complete, host_records, tool_outcome_view, tool_view,
    CommonSystemRecorder, FileRead, HostObservations, Shortfall, ToolOutput,
};

verus! {

pub const GROUP_IDENTIFIER: &'static str = "sysinfo";

pub const NAME: &'static str = "Postinstall System Info Recorder";

/// The record of running `tool` that ran as `outcome`.
pub open spec fn captured(tool: Seq<char>, outcome: Result<ToolOutput, String>) -> CheckView {
    tool_view("Captured"@, tool, Shortfall::Skip, tool_outcome_view(outcome))
}

/// What recording the daemon configuration gives: the file's record, or skipped when it does
/// not exist.
pub open spec fn daemon_toml_view(read: FileRead) -> CheckView {
    match file_view("/var/lib/edera/protect/daemon.toml"@, read) {
        Some(c) => c,
        None => CheckView {
            name: "Captured /var/lib/edera/protect/daemon.toml"@,
            output: None,
            result: ResultView::Skipped("file not found"@),
        },
    }
}

/// What the host gave for each record of the postinstall recorder.
pub struct PostinstallObservations {
    /// What the host gave for the records every host recorder makes.
    pub host: HostObservations,
    /// How `protect-ctl host hv-console` ran.
    pub hv_console: Result<ToolOutput, String>,
    /// How `protect-ctl host hv-debug-info` ran.
    pub hv_debug_info: Result<ToolOutput, String>,
    /// How `journalctl -u protect-daemon -o export` ran.
    pub daemon_logs: Result<ToolOutput, String>,
    /// How `journalctl -u protect-cri -o export` ran.
    pub cri_logs: Result<ToolOutput, String>,
    /// How `journalctl -u protect-storage -o export` ran.
    pub storage_logs: Result<ToolOutput, String>,
    /// How `journalctl -u kubelet -o export` ran.
    pub kubelet_logs: Result<ToolOutput, String>,
    /// How `journalctl -u protect-network -o export` ran.
    pub network_logs: Result<ToolOutput, String>,
    /// How `journalctl -u containerd -o export` ran.
    pub containerd_logs: Result<ToolOutput, String>,
    /// How `journalctl -u oxenstored -o export` ran.
    pub oxenstored_logs: Result<ToolOutput, String>,
    /// What reading `/sys/hypervisor/properties/capabilities` gave.
    pub xen_capabilities: FileRead,
    /// How `journalctl -b -o export` ran.
    pub boot_log: Result<ToolOutput, String>,
    /// How `journalctl -u protect-orchestrator -o export` ran.
    pub orchestrator_logs: Result<ToolOutput, String>,
    /// How `journalctl -u protect-preinit -o export` ran.
    pub preinit_logs: Result<ToolOutput, String>,
    /// What reading `/var/lib/edera/protect/daemon.toml` gave.
    pub daemon_toml: FileRead,
}

/// The records of the postinstall recorder besides the host records, in order.
pub open spec fn postinstall_records(o: &PostinstallObservations) -> Seq<CheckView> {
    seq![
        captured("protect-ctl host hv-console"@, o.hv_console),
        captured("protect-ctl host hv-debug-info"@, o.hv_debug_info),
        captured("journalctl -u protect-daemon -o export"@, o.daemon_logs),
        captured("journalctl -u protect-cri -o export"@, o.cri_logs),
        captured("journalctl -u protect-storage -o export"@, o.storage_logs),
        captured("journalctl -u kubelet -o export"@, o.kubelet_logs),
        captured("journalctl -u protect-network -o export"@, o.network_logs),
        captured("journalctl -u containerd -o export"@, o.containerd_logs),
        captured("journalctl -u oxenstored -o export"@, o.oxenstored_logs),
        file_view("/sys/hypervisor/properties/capabilities"@, o.xen_capabilities)->0,
        captured("journalctl -b -o export"@, o.boot_log),
        captured("journalctl -u protect-orchestrator -o export"@, o.orchestrator_logs),
        captured("journalctl -u protect-preinit -o export"@, o.preinit_logs),
        daemon_toml_view(o.daemon_toml),
    ]
}

/// All the records of the postinstall recorder, in order.
pub open spec fn all_records(o: &PostinstallObservations) -> Seq<CheckView> {
    host_records(&o.host) + postinstall_records(o)
}

pub struct SystemRecorder {
    common: CommonSystemRecorder,
}

impl SystemRecorder {
    pub fn new() -> (r: SystemRecorder) {
        SystemRecorder { common: CommonSystemRecorder::new() }
    }

    /// Records the hypervisor console log, `protect-ctl host hv-console`.
    pub fn record_hv_console(&self, outcome: Result<ToolOutput, String>) -> (r: CheckResult)
        ensures
            r@ == captured("protect-ctl host hv-console"@, outcome),
    {
        self.common.run_tool("protect-ctl host hv-console", outcome)
    }

    /// Records the hypervisor debug state, `protect-ctl host hv-debug-info`.
    pub fn record_hv_debug_info(&self, outcome: Result<ToolOutput, String>) -> (r: CheckResult)
        ensures
            r@ == captured("protect-ctl host hv-debug-info"@, outcome),
    {
        self.common.run_tool("protect-ctl host hv-debug-info", outcome)
    }

    /// Records the `protect-daemon` journal.
    pub fn record_daemon_logs(&self, outcome: Result<ToolOutput, String>) -> (r: CheckResult)
        ensures
            r@ == captured("journalctl -u protect-daemon -o export"@, outcome),
    {
        self.common.run_tool("journalctl -u protect-daemon -o export", outcome)
    }

    /// Records the `protect-cri` journal.
    pub fn record_cri_logs(&self, outcome: Result<ToolOutput, String>) -> (r: CheckResult)
        ensures
            r@ == captured("journalctl -u protect-cri -o export"@, outcome),
    {
        self.common.run_tool("journalctl -u protect-cri -o export", outcome)
    }

    /// Records the `protect-storage` journal.
    pub fn record_storage_logs(&self, outcome: Result<ToolOutput, String>) -> (r: CheckResult)
        ensures
            r@ == captured("journalctl -u protect-storage -o export"@, outcome),
    {
        self.common.run_tool("journalctl -u protect-storage -o export", outcome)
    }

    /// Records the `kubelet` journal.
    pub fn record_kubelet_logs(&self, outcome: Result<ToolOutput, String>) -> (r: CheckResult)
        ensures
            r@ == captured("journalctl -u kubelet -o export"@, outcome),
    {
        self.common.run_tool("journalctl -u kubelet -o export", outcome)
    }

    /// Records the `protect-network` journal.
    pub fn record_network_logs(&self, outcome: Result<ToolOutput, String>) -> (r: CheckResult)
        ensures
            r@ == captured("journalctl -u protect-network -o export"@, outcome),
    {
        self.common.run_tool("journalctl -u protect-network -o export", outcome)
    }

    /// Records the `containerd` journal.
    pub fn record_containerd_logs(&self, outcome: Result<ToolOutput, String>) -> (r: CheckResult)
        ensures
            r@ == captured("journalctl -u containerd -o export"@, outcome),
    {
        self.common.run_tool("journalctl -u containerd -o export", outcome)
    }

    /// Records the `oxenstored` journal.
    pub fn record_oxenstored_logs(&self, outcome: Result<ToolOutput, String>) -> (r: CheckResult)
        ensures
            r@ == captured("journalctl -u oxenstored -o export"@, outcome),
    {
        self.common.run_tool("journalctl -u oxenstored -o export", outcome)
    }

    /// Records the hypervisor's capability string, `/sys/hypervisor/properties/capabilities`,
    /// which a host booted into Edera has.
    pub fn record_xen_capabilities(&self, read: FileRead) -> (r: CheckResult)
        requires
            !(read is Missing),
        ensures
            file_view("/sys/hypervisor/properties/capabilities"@, read) == Some(r@),
    {
        match self.common.record_file("/sys/hypervisor/properties/capabilities", read) {
            Some(c) => c,
            None => CheckResult::new(
                "Captured /sys/hypervisor/properties/capabilities",
                CheckResultValue::Unknown,
            ),
        }
    }

    /// Records the journal of the current boot.
    pub fn record_boot_log(&self, outcome: Result<ToolOutput, String>) -> (r: CheckResult)
        ensures
            r@ == captured("journalctl -b -o export"@, outcome),
    {
        self.common.run_tool("journalctl -b -o export", outcome)
    }

    /// Records the `protect-orchestrator` journal.
    pub fn record_orchestrator_logs(&self, outcome: Result<ToolOutput, String>) -> (r: CheckResult)
        ensures
            r@ == captured("journalctl -u protect-orchestrator -o export"@, outcome),
    {
        self.common.run_tool("journalctl -u protect-orchestrator -o export", outcome)
    }

    /// Records the `protect-preinit` journal.
    pub fn record_preinit_logs(&self, outcome: Result<ToolOutput, String>) -> (r: CheckResult)
        ensures
            r@ == captured("journalctl -u protect-preinit -o export"@, outcome),
    {
        self.common.run_tool("journalctl -u protect-preinit -o export", outcome)
    }

    /// Records the Edera Protect daemon configuration; skipped when the file does not exist.
    pub fn record_daemon_toml(&self, read: FileRead) -> (r: CheckResult)
        ensures
            r@ == daemon_toml_view(read),
    {
        match self.common.record_file("/var/lib/edera/protect/daemon.toml", read) {
            Some(c) => c,
            None => CheckResult::new(
                "Captured /var/lib/edera/protect/daemon.toml",
                CheckResultValue::Skipped(String::from_str("file not found")),
            ),
        }
    }

    /// The group's result from what the host gave: the host records, then the hypervisor,
    /// journal and configuration records, in order; the group fails or errs as its records do.
    pub fn run_all(&self, o: PostinstallObservations) -> (r: CheckGroupResult)
        requires
            host_observations_complete(&o.host),
            !(o.xen_capabilities is Missing),
        ensures
            r@ == (GroupView {
                name: NAME@,
                result: group_outcome(all_records(&o), "group failed"@, "group errored"@),
                results: all_records(&o),
            }),
    {
        let ghost expected = all_records(&o);
        let ghost host = host_records(&o.host);
        let mut results = self.common.record_host(o.host);
        results.push(self.record_hv_console(o.hv_console));
        results.push(self.record_hv_debug_info(o.hv_debug_info));
        results.push(self.record_daemon_logs(o.daemon_logs));
        results.push(self.record_cri_logs(o.cri_logs));
        results.push(self.record_storage_logs(o.storage_logs));
        results.push(self.record_kubelet_logs(o.kubelet_logs));
        results.push(self.record_network_logs(o.network_logs));
        results.push(self.record_containerd_logs(o.containerd_logs));
        results.push(self.record_oxenstored_logs(o.oxenstored_logs));
        results.push(self.record_xen_capabilities(o.xen_capabilities));
        results.push(self.record_boot_log(o.boot_log));
        results.push(self.record_orchestrator_logs(o.orchestrator_logs));
        results.push(self.record_preinit_logs(o.preinit_logs));
        results.push(self.record_daemon_toml(o.daemon_toml));
        assert(check_views(results@) =~= expected) by {
            assert(host.len() == 12);
            assert forall|i: int| 0 <= i < 12 implies check_views(results@)[i] == host[i] by {}
        }
        group_from(NAME, results, "group failed", "group errored")
    }
}

impl CheckGroup for SystemRecorder {
    fn name(&self) -> (r: &str)
        ensures
            r@ == NAME@,
    {
        NAME
    }

    fn id(&self) -> (r: &str)
        ensures
            r@ == GROUP_IDENTIFIER@,
    {
        GROUP_IDENTIFIER
    }

    fn description(&self) -> (r: &str)
        ensures
            r@ == "Record postinstall system information"@,
    {
        "Record postinstall system information"
    }

    fn category(&self) -> (r: CheckGroupCategory)
        ensures
            r@ == CategoryView::Advisory,
    {
        CheckGroupCategory::Advisory
    }
}

} // verus!
