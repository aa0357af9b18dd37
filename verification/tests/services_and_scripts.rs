use edera_check::checkers::postinstall::guest_type::GuestTypeChecks;
use edera_check::checkers::postinstall::kube::KubeChecks;
use edera_check::checkers::postinstall::services::{ServiceChecks, ServiceStates};
use edera_check::checkers::preinstall::kvm::KvmChecks;
use edera_check::checkers::preinstall::license::{LicenseChecks, LicenseStatus};
use edera_check::checkers::script::{
    ScriptChecks, ScriptDir, ScriptEntry, ScriptOutput, PVH_SCRIPT, PVH_SCRIPT_FILE,
};
use edera_check::helpers::kernel::ModuleListings;
use edera_check::helpers::services::{detect_init_system, is_running_command, service_check, InitSystem};
use edera_check::helpers::{Arch, CheckResultValue};

fn failure_of(v: &CheckResultValue) -> String {
    match v {
        CheckResultValue::Failed(m) => m.clone(),
        _ => panic!("expected a failure"),
    }
}

fn error_of(v: &CheckResultValue) -> String {
    match v {
        CheckResultValue::Errored(m) => m.clone(),
        _ => panic!("expected an error"),
    }
}

#[test]
fn init_system_detection() {
    assert_eq!(detect_init_system(&Some("systemd\n".into()), true), InitSystem::Systemd);
    assert_eq!(detect_init_system(&Some("init".into()), true), InitSystem::OpenRC);
    assert_eq!(detect_init_system(&Some("init".into()), false), InitSystem::Unknown);
    assert_eq!(detect_init_system(&None, false), InitSystem::Unknown);
}

#[test]
fn status_commands_per_init_system() {
    let c = is_running_command(InitSystem::Systemd, "protect-daemon").ok().unwrap();
    assert_eq!(c.program, "systemctl");
    assert_eq!(c.args, vec!["is-active", "--quiet", "protect-daemon"]);
    let c = is_running_command(InitSystem::OpenRC, "kubelet").ok().unwrap();
    assert_eq!(c.program, "rc-service");
    assert_eq!(c.args, vec!["kubelet", "status"]);
    assert_eq!(is_running_command(InitSystem::Unknown, "x").err().unwrap(), "unknown init system");
}

#[test]
fn service_check_outcomes() {
    assert!(matches!(service_check("n", "s", Ok(true)).result, CheckResultValue::Passed));
    assert_eq!(failure_of(&service_check("n", "s", Ok(false)).result), "s not running");
    assert_eq!(
        error_of(&service_check("n", "s", Err("unknown init system".into())).result),
        "failed to check service s: unknown init system"
    );
}

#[test]
fn service_group_over_the_three_daemons() {
    let s = ServiceChecks::new();
    assert_eq!(s.service_names(), vec!["protect-daemon", "protect-storage", "protect-network"]);
    let g = s.run_all(ServiceStates { daemon: Ok(true), storage: Ok(false), network: Ok(true) });
    assert_eq!(g.results.len(), 3);
    assert_eq!(failure_of(&g.results[1].result), "protect-storage not running");
    assert_eq!(failure_of(&g.result), "group failed");
}

#[test]
fn kube_group() {
    let g = KubeChecks::new().run_all(Ok(true), Err("boom".into()));
    assert_eq!(g.results[0].name, "Protect CRI daemon status");
    assert_eq!(g.results[1].name, "kubelet status");
    assert_eq!(error_of(&g.result), "group errored");
}

#[test]
fn guest_type_must_be_pvh() {
    let c = GuestTypeChecks::new();
    assert!(matches!(c.check_guest_support(&Ok(Some("PVH\n".into()))).result, CheckResultValue::Passed));
    assert_eq!(failure_of(&c.check_guest_support(&Ok(Some("HVM".into()))).result), "PVH guests not supported");
    assert_eq!(failure_of(&c.check_guest_support(&Ok(None)).result), "PVH guests not supported");
    assert_eq!(error_of(&c.check_guest_support(&Err("denied".into())).result), "Error: denied");
}

#[test]
fn script_list_holds_every_regular_file() {
    let entries = vec![
        ScriptEntry { path: "/s/a.sh".into(), is_file: true },
        ScriptEntry { path: "/s/README.md".into(), is_file: true },
        ScriptEntry { path: "/s/sub".into(), is_file: false },
        ScriptEntry { path: "/s/b.sh".into(), is_file: true },
    ];
    let c = ScriptChecks::new();
    assert_eq!(
        c.script_list(ScriptDir::Listed(entries)).ok().unwrap(),
        vec!["/s/a.sh", "/s/README.md", "/s/b.sh"]
    );
    let only_readme = vec![ScriptEntry { path: "/s/README.md".into(), is_file: true }];
    assert_eq!(c.script_list(ScriptDir::Listed(only_readme)).ok().unwrap(), vec!["/s/README.md"]);
    assert!(c.script_list(ScriptDir::Missing).ok().unwrap().is_empty());
    assert!(c.script_list(ScriptDir::NotADirectory).ok().unwrap().is_empty());
    assert_eq!(c.script_list(ScriptDir::Failed("denied".into())).err().unwrap(), "denied");
}

#[test]
fn script_names_itself_by_its_last_marker_line() {
    let out = ScriptOutput {
        success: true,
        code: Some(0),
        stdout: "EDERA_PREFLIGHT_CHECK_NAME=First\nhello\nEDERA_PREFLIGHT_CHECK_NAME=Second\n".into(),
        stderr: String::new(),
    };
    let r = ScriptChecks::new().run_script("/s/a.sh", Ok(out));
    assert_eq!(r.name, "Second");
    assert!(matches!(r.result, CheckResultValue::Passed));
    assert!(r.output_to_record.unwrap().starts_with("EDERA_PREFLIGHT_CHECK_NAME=First"));
}

#[test]
fn failing_script_reports_code_and_stderr() {
    let out = ScriptOutput { success: false, code: Some(1), stdout: "x".into(), stderr: "err".into() };
    let r = ScriptChecks::new().run_script("/s/a.sh", Ok(out));
    assert_eq!(r.name, "/s/a.sh");
    assert_eq!(failure_of(&r.result), "script returned Some(1): err");
    let out = ScriptOutput { success: false, code: None, stdout: String::new(), stderr: String::new() };
    let r = ScriptChecks::new().run_script("/s/a.sh", Ok(out));
    assert_eq!(failure_of(&r.result), "script returned None: ");
    let out = ScriptOutput { success: false, code: Some(-3), stdout: String::new(), stderr: "e".into() };
    assert_eq!(failure_of(&ScriptChecks::new().run_script("p", Ok(out)).result), "script returned Some(-3): e");
}

#[test]
fn script_that_cannot_start_errs() {
    let r = ScriptChecks::new().run_script("/s/a.sh", Err("permission denied".into()));
    assert_eq!(r.name, "/s/a.sh");
    assert_eq!(error_of(&r.result), "permission denied");
    assert!(r.output_to_record.is_none());
}

fn ran(success: bool, code: i32, stdout: &str) -> Result<ScriptOutput, String> {
    Ok(ScriptOutput { success, code: Some(code), stdout: stdout.into(), stderr: String::new() })
}

#[test]
fn script_group() {
    let c = ScriptChecks::new();
    let g = c.run_all(Err("no dir".into()), Some("/tmp/pvh.sh".into()), vec![]);
    assert_eq!(error_of(&g.result), "failed to initialize group: no dir");
    assert!(g.results.is_empty());
    let listed: Result<Vec<String>, String> = Ok(vec!["a".into(), "b".into()]);
    let g = c.run_all(
        listed,
        Some("/tmp/edera_preflight_pvh.sh".into()),
        vec![ran(true, 0, ""), ran(false, 2, ""), ran(true, 0, "EDERA_PREFLIGHT_CHECK_NAME=Can PVH Be Enabled\n")],
    );
    assert_eq!(g.name, "Scripted Checks");
    assert_eq!(g.results.len(), 3);
    assert_eq!(g.results[0].name, "a");
    assert_eq!(g.results[2].name, "Can PVH Be Enabled");
    assert_eq!(failure_of(&g.result), "group failed");
    let g = c.run_all(Ok(vec![]), None, vec![]);
    assert!(g.results.is_empty());
    assert!(matches!(g.result, CheckResultValue::Passed));
}

#[test]
fn the_builtin_script_runs_after_the_listed_ones() {
    let c = ScriptChecks::new();
    let listed: Result<Vec<String>, String> = Ok(vec!["/s/a.sh".into()]);
    assert_eq!(
        c.scripts_to_run(&listed, &Some("/tmp/edera_preflight_pvh.sh".into())).ok().unwrap(),
        vec!["/s/a.sh", "/tmp/edera_preflight_pvh.sh"]
    );
    assert_eq!(c.scripts_to_run(&listed, &None).ok().unwrap(), vec!["/s/a.sh"]);
    assert_eq!(c.scripts_to_run(&Err("e".into()), &None).err().unwrap(), "e");
    assert!(PVH_SCRIPT.starts_with("#!/bin/sh"));
    assert!(PVH_SCRIPT.contains("EDERA_PREFLIGHT_CHECK_NAME=Can PVH Be Enabled"));
    assert_eq!(PVH_SCRIPT_FILE, "edera_preflight_pvh.sh");
}

#[test]
fn kvm_modules_depend_on_vendor() {
    let c = KvmChecks::new();
    let listings = ModuleListings {
        builtins: Ok(String::new()),
        loaded: Ok(vec!["vhost_vsock".into(), "kvm_intel".into()]),
        deps: Ok(String::new()),
    };
    let intel: Result<String, String> = Ok("vendor_id\t: GenuineIntel\n".into());
    let amd: Result<String, String> = Ok("vendor_id\t: AuthenticAMD\n".into());
    let other: Result<String, String> = Ok("vendor_id\t: Hygon\n".into());
    assert!(matches!(c.has_modules(Arch::X86_64, &intel, &listings).result, CheckResultValue::Passed));
    assert_eq!(failure_of(&c.has_modules(Arch::X86_64, &amd, &listings).result), "missing [\"kvm_amd\"]");
    assert_eq!(error_of(&c.has_modules(Arch::X86_64, &other, &listings).result), "Unknown CPU vendor: Hygon");
    let bad: Result<String, String> = Err("no cpuinfo".into());
    assert!(matches!(c.has_modules(Arch::Aarch64, &bad, &listings).result, CheckResultValue::Passed));
}

#[test]
fn kvm_group_needs_dev_kvm() {
    let c = KvmChecks::new();
    assert_eq!(failure_of(&c.check_dev_kvm(Ok(false)).result), "/dev/kvm doesn't exist on the host");
    assert_eq!(error_of(&c.check_dev_kvm(Err("e".into())).result), "e");
    let listings = ModuleListings { builtins: Ok(String::new()), loaded: Ok(vec!["vhost_vsock".into()]), deps: Ok(String::new()) };
    let g = c.run_all(Arch::Aarch64, &Err("unused".into()), &listings, Ok(true));
    assert_eq!(g.name, "KVM checks");
    assert!(matches!(g.result, CheckResultValue::Passed));
}

#[test]
fn license_checks() {
    let c = LicenseChecks::new();
    assert_eq!(c.get_license_client(Some("key".into())).ok().unwrap(), "key");
    let e = c.get_license_client(None).err().unwrap();
    assert_eq!(error_of(&e.result), "LICENCE_KEY_ENV_VAR is not set");
    let ok = c.check_license_legit(Ok(LicenseStatus { not_activated: true, text: "NotActivated".into() }));
    assert!(matches!(ok.result, CheckResultValue::Passed));
    let bad = c.check_license_legit(Ok(LicenseStatus { not_activated: false, text: "Activated".into() }));
    assert_eq!(failure_of(&bad.result), "Unexpected ValidationStatus: Activated");
    assert_eq!(failure_of(&c.check_license_legit(Err("offline".into())).result), "offline");
    let g = c.run_all(Err(c.client_error("bad key".into())));
    assert_eq!(error_of(&g.result), "Could not create license client");
    assert_eq!(error_of(&g.results[0].result), "bad key");
}
