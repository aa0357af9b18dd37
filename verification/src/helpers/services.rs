//! Which init system runs the host, how to ask it whether a service is running, and how the
//! answer becomes a check result.
use vstd::prelude::*;

use crate::helpers::{CheckResult, CheckResultValue, CheckView, ResultView};
use crate::text::{concat_strs, opt_string_view, string_views, trimmed_is, trimmed_is_exec};

verus! {

/// The host's init system.
#[derive(Debug, Clone, Copy, PartialEq, Eq, Structural)]
pub enum InitSystem {
    Systemd,
    OpenRC,
    Unknown,
}

/// The init system of a host whose PID 1 has command name `pid1_comm` (the output of
/// `ps -p 1 -o comm=`, `None` when `ps` could not run) and on which `rc-service` was or was
/// not found.
pub open spec fn init_system_of(pid1_comm: Option<Seq<char>>, rc_service_found: bool) -> InitSystem {
    if trimmed_is(pid1_comm, "systemd"@) {
        InitSystem::Systemd
    } else if rc_service_found {
        InitSystem::OpenRC
    } else {
        InitSystem::Unknown
    }
}

/// Systemd when PID 1 is `systemd`, otherwise OpenRC when `rc-service` exists, otherwise
/// Unknown.
pub fn detect_init_system(pid1_comm: &Option<String>, rc_service_found: bool) -> (r: InitSystem)
    ensures
        r == init_system_of(opt_string_view(*pid1_comm), rc_service_found),
{
    if trimmed_is_exec(pid1_comm, "systemd") {
        InitSystem::Systemd
    } else if rc_service_found {
        InitSystem::OpenRC
    } else {
        InitSystem::Unknown
    }
}

/// A command: the program and its arguments.
pub struct ServiceCommand {
    pub program: String,
    pub args: Vec<String>,
}

/// The command that tells, by its exit status, whether `service` is running under `init`;
/// `Err` for an unknown init system.
pub open spec fn status_command(init: InitSystem, service: Seq<char>) -> Result<
    (Seq<char>, Seq<Seq<char>>),
    Seq<char>,
> {
    match init {
        InitSystem::Systemd => Ok(("systemctl"@, seq!["is-active"@, "--quiet"@, service])),
        InitSystem::OpenRC => Ok(("rc-service"@, seq![service, "status"@])),
        InitSystem::Unknown => Err("unknown init system"@),
    }
}

/// The command that tells whether `service` is running under `init`.
pub fn is_running_command(init: InitSystem, service: &str) -> (r: Result<ServiceCommand, String>)
    ensures
        match r {
            Ok(c) => status_command(init, service@) == Ok::<
                (Seq<char>, Seq<Seq<char>>),
                Seq<char>,
            >((c.program@, string_views(c.args@))),
            Err(e) => status_command(init, service@) == Err::<
                (Seq<char>, Seq<Seq<char>>),
                Seq<char>,
            >(e@),
        },
{
    match init {
        InitSystem::Systemd => {
            let mut args = Vec::new();
            args.push(String::from_str("is-active"));
            args.push(String::from_str("--quiet"));
            args.push(String::from_str(service));
            assert(string_views(args@) =~= seq!["is-active"@, "--quiet"@, service@]);
            Ok(ServiceCommand { program: String::from_str("systemctl"), args })
        },
        InitSystem::OpenRC => {
            let mut args = Vec::new();
            args.push(String::from_str(service));
            args.push(String::from_str("status"));
            assert(string_views(args@) =~= seq![service@, "status"@]);
            Ok(ServiceCommand { program: String::from_str("rc-service"), args })
        },
        InitSystem::Unknown => Err(String::from_str("unknown init system")),
    }
}

/// What a service check named `name` on service `sname` gives when asking whether the service
/// runs answered `running` (or failed with an error).
pub open spec fn service_view(
    name: Seq<char>,
    sname: Seq<char>,
    running: Result<bool, Seq<char>>,
) -> CheckView {
    CheckView {
        name,
        output: None,
        result: match running {
            Ok(true) => ResultView::Passed,
            Ok(false) => ResultView::Failed(sname + " not running"@),
            Err(e) => ResultView::Errored("failed to check service "@ + sname + ": "@ + e),
        },
    }
}

/// The view of a boolean result.
pub open spec fn bool_view(r: Result<bool, String>) -> Result<bool, Seq<char>> {
    match r {
        Ok(b) => Ok(b),
        Err(e) => Err(e@),
    }
}

/// The check named `name` that service `sname` is running.
pub fn service_check(name: &str, sname: &str, running: Result<bool, String>) -> (r: CheckResult)
    ensures
        r@ == service_view(name@, sname@, bool_view(running)),
{
    match running {
        Ok(true) => CheckResult::new(name, CheckResultValue::Passed),
        Ok(false) => CheckResult::new(
            name,
            CheckResultValue::Failed(concat_strs(sname, " not running")),
        ),
        Err(e) => {
            let mut m = concat_strs("failed to check service ", sname);
            m.append(": ");
            m.append(e.as_str());
            CheckResult::new(name, CheckResultValue::Errored(m))
        },
    }
}

} // verus!
