use std::io::Write;

use edera_check::hardware::{HardwareChecks, HardwareObservations};
use edera_check::helpers::CheckResultValue;
use edera_check::recorders::common::{
    grub_cfg_candidates, kernel_cfg_candidates, split_command, tool_record, CommonSystemRecorder,
    FileRead, HostObservations, Shortfall, ToolOutput,
};
use edera_check::recorders::postinstall::system::{
    PostinstallObservations, SystemRecorder as PostinstallRecorder,
};
use edera_check::recorders::preinstall::system::SystemRecorder as PreinstallRecorder;

fn gz(text: &str) -> Vec<u8> {
    let mut e = flate2::write::GzEncoder::new(Vec::new(), flate2::Compression::default());
    e.write_all(text.as_bytes()).unwrap();
    e.finish().unwrap()
}

fn out(success: bool, stdout: &str, stderr: &str) -> ToolOutput {
    ToolOutput { success, stdout: stdout.into(), stderr: stderr.into() }
}

#[test]
fn commands_split_at_single_spaces() {
    let c = split_command("journalctl -u protect-daemon -o export");
    assert_eq!(c.program, "journalctl");
    assert_eq!(c.args, vec!["-u", "protect-daemon", "-o", "export"]);
    let c = split_command("dmidecode");
    assert_eq!(c.program, "dmidecode");
    assert!(c.args.is_empty());
    let c = split_command("a  b");
    assert_eq!(c.args, vec!["", "b"]);
}

#[test]
fn tool_records() {
    let r = CommonSystemRecorder::new().record_lspci(Ok(out(true, "  dev\n", "")));
    assert_eq!(r.name, "Captured lspci -vvv");
    assert!(matches!(r.result, CheckResultValue::Passed));
    assert_eq!(r.output_to_record.as_deref(), Some("dev"));
    let r = CommonSystemRecorder::new().run_tool("x", Ok(out(false, "", "boom")));
    assert!(matches!(r.result, CheckResultValue::Skipped(ref m) if m == "boom"));
    let r = tool_record("Record", "x", Shortfall::Error, Err("not found".into()));
    assert!(matches!(r.result, CheckResultValue::Errored(ref m) if m == "not found"));
    assert!(r.output_to_record.is_none());
}

#[test]
fn file_records_decode_text_and_gzip() {
    let c = CommonSystemRecorder::new();
    assert!(c.record_file("/p", FileRead::Missing).is_none());
    let r = c.record_file("/proc/cpuinfo", FileRead::Read(b"cpu\n".to_vec())).unwrap();
    assert_eq!(r.name, "Captured /proc/cpuinfo");
    assert_eq!(r.output_to_record.as_deref(), Some("cpu\n"));
    let r = c.record_file("/proc/config.gz", FileRead::Read(gz("CONFIG_XEN=y\n"))).unwrap();
    assert!(matches!(r.result, CheckResultValue::Passed));
    assert_eq!(r.output_to_record.as_deref(), Some("CONFIG_XEN=y\n"));
    let r = c.record_file("/p", FileRead::Failed("denied".into())).unwrap();
    assert!(matches!(r.result, CheckResultValue::Errored(ref m) if m == "failed to read /p: denied"));
}

#[test]
fn undecodable_files_err() {
    let c = CommonSystemRecorder::new();
    let bad = vec![0xffu8, 0xfe, 0x00];
    let expected = String::from_utf8(bad.clone()).unwrap_err().to_string();
    let r = c.record_file("/p", FileRead::Read(bad)).unwrap();
    assert!(matches!(r.result, CheckResultValue::Errored(ref m) if *m == format!("failed to decode /p: {expected}")));
    let r = c.record_file("/q", FileRead::Read(vec![0x1f, 0x8b, 1, 2, 3])).unwrap();
    assert!(matches!(r.result, CheckResultValue::Errored(ref m) if m.starts_with("failed to decode /q: ")));
}

#[test]
fn files_every_host_has_are_recorded() {
    let c = CommonSystemRecorder::new();
    let r = c.record_meminfo(FileRead::Read(b"MemTotal: 1 kB".to_vec()));
    assert_eq!(r.name, "Captured /proc/meminfo");
    assert_eq!(r.output_to_record.as_deref(), Some("MemTotal: 1 kB"));
    let r = c.record_mountinfo(FileRead::Failed("denied".into()));
    assert!(matches!(r.result, CheckResultValue::Errored(ref m) if m == "failed to read /proc/self/mountinfo: denied"));
    assert_eq!(c.record_cmdline(FileRead::Read(vec![])).name, "Captured /proc/cmdline");
}

#[test]
fn grub_and_kernel_config_records() {
    let c = CommonSystemRecorder::new();
    assert_eq!(grub_cfg_candidates(), vec!["/boot/grub2/grub.cfg", "/boot/grub/grub.cfg"]);
    let r = c.record_grub_cfg(vec![FileRead::Missing, FileRead::Read(b"menuentry".to_vec())]);
    assert_eq!(r.name, "Captured /boot/grub/grub.cfg");
    let r = c.record_grub_cfg(vec![FileRead::Missing, FileRead::Missing]);
    assert_eq!(r.name, "Record grub config");
    assert!(matches!(r.result, CheckResultValue::Skipped(ref m)
        if m == "no grub config found in [\"/boot/grub2/grub.cfg\", \"/boot/grub/grub.cfg\"]"));
    assert_eq!(kernel_cfg_candidates("6.1.0"), vec!["/proc/config.gz", "/boot/config-6.1.0"]);
    let r = c.record_kernel_cfg(Ok("6.1.0".into()), vec![FileRead::Read(gz("X=y")), FileRead::Missing]);
    assert_eq!(r.name, "Captured /proc/config.gz");
    assert_eq!(r.output_to_record.as_deref(), Some("X=y"));
    let r = c.record_kernel_cfg(Ok("6.1.0".into()), vec![FileRead::Missing, FileRead::Missing]);
    assert!(matches!(r.result, CheckResultValue::Skipped(ref m)
        if m == "no kernel config found in [\"/proc/config.gz\", \"/boot/config-6.1.0\"]"));
    let r = c.record_kernel_cfg(Err("uname".into()), vec![]);
    assert!(matches!(r.result, CheckResultValue::Errored(ref m) if m == "failed to find kernel version"));
}

#[test]
fn kernel_release_from_uname() {
    let c = CommonSystemRecorder::new();
    assert_eq!(c.current_kernel_version(&out(true, "6.8.0-generic\n", "")).unwrap(), "6.8.0-generic");
    assert_eq!(c.current_kernel_version(&out(false, "", "bad")).unwrap_err(), "bad");
}

#[test]
fn loaded_modules_and_daemon_config() {
    let c = CommonSystemRecorder::new();
    let p = PostinstallRecorder::new();
    let r = c.record_loaded_modules(Ok(Ok(vec!["msr".into(), "kvm".into()])));
    assert_eq!(r.output_to_record.as_deref(), Some("msr\nkvm"));
    let r = c.record_loaded_modules(Ok(Err("procfs".into())));
    assert!(matches!(r.result, CheckResultValue::Errored(ref m) if m == "procfs"));
    let r = c.record_loaded_modules(Err("host".into()));
    assert!(matches!(r.result, CheckResultValue::Skipped(ref m) if m == "host"));
    let r = p.record_daemon_toml(FileRead::Missing);
    assert_eq!(r.name, "Captured /var/lib/edera/protect/daemon.toml");
    assert!(matches!(r.result, CheckResultValue::Skipped(ref m) if m == "file not found"));
    let r = p.record_daemon_toml(FileRead::Read(b"[daemon]".to_vec()));
    assert_eq!(r.output_to_record.as_deref(), Some("[daemon]"));
}

fn smbios3_entry_point(table_len: u32) -> Vec<u8> {
    let mut ep = Vec::new();
    ep.extend_from_slice(b"_SM3_");
    ep.push(0); // checksum, fixed below
    ep.push(24); // length
    ep.extend_from_slice(&[3, 0, 0, 1, 0]); // major, minor, docrev, revision, reserved
    ep.extend_from_slice(&table_len.to_le_bytes());
    ep.extend_from_slice(&0u64.to_le_bytes());
    let sum = ep.iter().fold(0u8, |a, b| a.wrapping_add(*b));
    ep[5] = 0u8.wrapping_sub(sum);
    ep
}

#[test]
fn dmidecode_records_fall_short_by_stage() {
    let c = CommonSystemRecorder::new();
    let skipped = |ep: Result<Vec<u8>, String>, t: Result<Vec<u8>, String>, d: Result<Vec<Result<String, String>>, String>| {
        match c.record_dmidecode(ep, t, d).result {
            CheckResultValue::Skipped(m) => m,
            _ => panic!("expected a skip"),
        }
    };
    assert_eq!(
        skipped(Err("missing".into()), Err("x".into()), Ok(vec![])),
        "could not read smbios_entry_point: missing"
    );
    let garbage = vec![0u8; 8];
    let err = dmidecode::EntryPoint::search(&garbage).err().unwrap();
    assert_eq!(
        skipped(Ok(garbage), Ok(vec![]), Ok(vec![])),
        format!("could not parse DMI entry point: {err:?}")
    );
    assert_eq!(
        skipped(Ok(smbios3_entry_point(0)), Err("denied".into()), Ok(vec![])),
        "could not read DMI table: denied"
    );
    assert_eq!(
        skipped(Ok(smbios3_entry_point(0)), Ok(vec![]), Err("task 3 panicked".into())),
        "task 3 panicked"
    );
    let r = c.record_dmidecode(Err("x".into()), Err("x".into()), Ok(vec![]));
    assert_eq!(r.name, "Captured dmidecode");
}

#[test]
fn dmidecode_records_each_structure_on_a_line() {
    let c = CommonSystemRecorder::new();
    // One OEM-strings structure (type 11) with a single string, then the end-of-table marker.
    let mut table = vec![11u8, 5, 0x01, 0x00, 1];
    table.extend_from_slice(b"edera\0\0");
    table.extend_from_slice(&[127u8, 4, 0x02, 0x00, 0, 0]);
    let ep = smbios3_entry_point(table.len() as u32);
    let found = dmidecode::EntryPoint::search(&ep).expect("a valid entry point");
    let decoded: Vec<Result<String, String>> = found
        .structures(&table)
        .map(|s| match s {
            Ok(s) => Ok(format!("{s:#?}")),
            Err(e) => Err(format!("{e:?}")),
        })
        .collect();
    let expected = decoded
        .iter()
        .map(|d| match d {
            Ok(s) => format!("{s}\n"),
            Err(e) => format!("Error: {e}\n"),
        })
        .collect::<String>()
        .trim()
        .to_string();
    let r = c.record_dmidecode(Ok(ep.clone()), Ok(table.clone()), Ok(decoded));
    assert!(matches!(r.result, CheckResultValue::Passed));
    assert_eq!(r.output_to_record.as_deref(), Some(expected.as_str()));
    let r = c.record_dmidecode(
        Ok(ep),
        Ok(table),
        Ok(vec![Ok("Bios {\n    vendor: \"x\",\n}".into()), Err("BadSize(4, 2)".into())]),
    );
    assert_eq!(
        r.output_to_record.as_deref(),
        Some("Bios {\n    vendor: \"x\",\n}\nError: BadSize(4, 2)")
    );
}

fn good_host() -> HostObservations {
    let f = |t: &str| FileRead::Read(t.as_bytes().to_vec());
    HostObservations {
        lspci: Ok(out(true, "pci", "")),
        dmi_entry_point: Err("no dmi".into()),
        dmi_table: Err("no dmi".into()),
        dmi_structures: Ok(vec![]),
        cpuinfo: f("cpu"),
        cmdline: f("ro"),
        grub_cfg: vec![FileRead::Missing, f("grub")],
        kernel_release: Ok("6.1.0".into()),
        kernel_cfg: vec![f("X=y"), FileRead::Missing],
        loaded_modules: Ok(Ok(vec!["msr".into()])),
        meminfo: f("mem"),
        vmstat: f("vm"),
        slabinfo: f("slab"),
        mounts: f("mounts"),
        mountinfo: f("mountinfo"),
    }
}

#[test]
fn preinstall_recorder_makes_the_host_records() {
    let g = PreinstallRecorder::new().run_all(good_host());
    assert_eq!(g.name, "System Info Recorder");
    let names: Vec<&str> = g.results.iter().map(|c| c.name.as_str()).collect();
    assert_eq!(
        names,
        vec![
            "Captured lspci -vvv",
            "Captured dmidecode",
            "Captured /proc/cpuinfo",
            "Captured /proc/cmdline",
            "Captured /boot/grub/grub.cfg",
            "Captured /proc/config.gz",
            "Record current host kernel loaded modules",
            "Captured /proc/meminfo",
            "Captured /proc/vmstat",
            "Captured /proc/slabinfo",
            "Captured /proc/mounts",
            "Captured /proc/self/mountinfo",
        ]
    );
    assert!(matches!(g.result, CheckResultValue::Passed));
    let mut h = good_host();
    h.loaded_modules = Ok(Err("procfs".into()));
    let g = PreinstallRecorder::new().run_all(h);
    assert!(matches!(g.result, CheckResultValue::Errored(ref m) if m == "group errored"));
}

#[test]
fn postinstall_recorder_adds_hypervisor_and_journals() {
    let ok = || Ok(out(true, "log", ""));
    let o = PostinstallObservations {
        host: good_host(),
        hv_console: ok(),
        hv_debug_info: ok(),
        daemon_logs: ok(),
        cri_logs: ok(),
        storage_logs: ok(),
        kubelet_logs: Err("no kubelet".into()),
        network_logs: ok(),
        containerd_logs: ok(),
        oxenstored_logs: ok(),
        xen_capabilities: FileRead::Read(b"xen-3.0-x86_64".to_vec()),
        boot_log: ok(),
        orchestrator_logs: ok(),
        preinit_logs: ok(),
        daemon_toml: FileRead::Missing,
    };
    let g = PostinstallRecorder::new().run_all(o);
    assert_eq!(g.name, "Postinstall System Info Recorder");
    assert_eq!(g.results.len(), 26);
    assert_eq!(g.results[12].name, "Captured protect-ctl host hv-console");
    assert_eq!(g.results[17].name, "Captured journalctl -u kubelet -o export");
    assert!(matches!(g.results[17].result, CheckResultValue::Skipped(ref m) if m == "no kubelet"));
    assert_eq!(g.results[21].name, "Captured /sys/hypervisor/properties/capabilities");
    assert!(matches!(g.results[25].result, CheckResultValue::Skipped(ref m) if m == "file not found"));
    assert!(matches!(g.result, CheckResultValue::Passed));
    let p = PostinstallRecorder::new();
    assert_eq!(p.record_boot_log(ok()).name, "Captured journalctl -b -o export");
    assert_eq!(p.record_hv_debug_info(ok()).output_to_record.as_deref(), Some("log"));
}

#[test]
fn hardware_group() {
    let h = HardwareChecks;
    let r = h.record_grub_cfg(vec![None, None]);
    assert!(matches!(r.result, CheckResultValue::Errored(ref m)
        if m == "failed to find any [\"/boot/grub2/grub.cfg\", \"/boot/grub/grub.cfg\"]"));
    let r = h.record_grub_cfg(vec![Some(Ok("cfg".into())), Some(Err("x".into()))]);
    assert_eq!(r.name, "Record /boot/grub2/grub.cfg");
    let r = h.record_cpuinfo(Err("denied".into()));
    assert!(matches!(r.result, CheckResultValue::Errored(ref m) if m == "failed to read /proc/cpuinfo: denied"));
    let g = h.run_all(HardwareObservations {
        lspci: Ok(out(true, "pci", "")),
        dmidecode: Ok(out(true, "dmi", "")),
        cpuinfo: Ok("cpu".into()),
        cmdline: Ok("ro".into()),
        grub: vec![None, Some(Ok("grub".into()))],
    });
    assert_eq!(g.name, "Hardware Checks");
    let names: Vec<&str> = g.results.iter().map(|c| c.name.as_str()).collect();
    assert_eq!(
        names,
        vec![
            "Record lspci -vvv",
            "Record dmidecode",
            "Record /proc/cpuinfo",
            "Record /proc/cmdline",
            "Record /boot/grub/grub.cfg",
        ]
    );
    assert!(matches!(g.result, CheckResultValue::Passed));
}
