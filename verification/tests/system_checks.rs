use edera_check::checkers::iommu::{AcpiTables, IOMMUChecks};
use edera_check::checkers::numa::{count_nodes, is_node_name_exec, NUMAChecks};
use edera_check::checkers::postinstall::system::SystemChecks as PostSystemChecks;
use edera_check::checkers::preinstall::system::{
    available_space_for_path, disk_space_check, DiskSpace, DiskWording, SystemChecks,
    SystemObservations,
};
use edera_check::helpers::{Arch, CheckResultValue};

fn disk(mp: &str, available: u64) -> DiskSpace {
    DiskSpace { mount_point: mp.to_string(), available }
}

fn failed(v: &CheckResultValue) -> String {
    match v {
        CheckResultValue::Failed(m) => m.clone(),
        _ => panic!("expected a failure"),
    }
}

fn errored(v: &CheckResultValue) -> String {
    match v {
        CheckResultValue::Errored(m) => m.clone(),
        _ => panic!("expected an error"),
    }
}

#[test]
fn longest_covering_mount_wins() {
    let disks = vec![disk("/", 10), disk("/var", 20), disk("/var/lib", 30), disk("/v", 40)];
    assert_eq!(available_space_for_path(&disks, "/var/lib"), Some(30));
    assert_eq!(available_space_for_path(&disks, "/var/log"), Some(20));
    assert_eq!(available_space_for_path(&disks, "/usr"), Some(10));
}

#[test]
fn mount_points_cover_by_whole_components() {
    // "/v" is not a prefix of "/var" as a path.
    let disks = vec![disk("/v", 40)];
    assert_eq!(available_space_for_path(&disks, "/var"), None);
    assert_eq!(available_space_for_path(&Vec::new(), "/var"), None);
}

#[test]
fn among_equal_mount_points_the_last_wins() {
    let disks = vec![disk("/boot", 1), disk("/boot", 2)];
    assert_eq!(available_space_for_path(&disks, "/boot"), Some(2));
}

#[test]
fn disk_check_passes_at_the_threshold() {
    let disks = Ok(vec![disk("/", 100)]);
    let r = SystemChecks::new().enough_disk("/usr", 100, &disks);
    assert_eq!(r.name, "Enough Disk Space for /usr");
    assert!(matches!(r.result, CheckResultValue::Passed));
}

#[test]
fn disk_check_reports_sizes_as_bytesize_shows_them() {
    let disks = Ok(vec![disk("/", 1024)]);
    let r = SystemChecks::new().enough_disk("/boot", 209715200, &disks);
    let expected = format!(
        "/boot has {} free, need at least {}",
        bytesize::ByteSize(1024),
        bytesize::ByteSize(209715200)
    );
    assert_eq!(failed(&r.result), expected);
    let r = PostSystemChecks::new().enough_disk("/var/lib", 21474836480, &disks);
    let expected = format!(
        "/var/lib has {} free, at least {} is recommended for ",
        bytesize::ByteSize(1024),
        bytesize::ByteSize(21474836480)
    );
    assert_eq!(failed(&r.result), expected);
}

#[test]
fn disk_check_without_covering_mount_fails() {
    let disks = Ok(vec![disk("/data", 1 << 40)]);
    let r = disk_space_check("/usr", 1, DiskWording::Needed, &disks);
    assert_eq!(failed(&r.result), "no mounted filesystem found covering /usr");
}

#[test]
fn disk_check_errs_when_disks_cannot_be_listed() {
    let r = disk_space_check("/usr", 1, DiskWording::Recommended, &Err("no disks".to_string()));
    assert_eq!(errored(&r.result), "no disks");
}

#[test]
fn memory_floor_is_four_gib() {
    let s = SystemChecks::new();
    assert!(matches!(s.enough_memory(Ok(4294967296)).result, CheckResultValue::Passed));
    assert_eq!(failed(&s.enough_memory(Ok(4294967295)).result), "total memory is less than 4294967296");
    assert_eq!(errored(&s.enough_memory(Err("sysinfo".into())).result), "sysinfo");
    assert_eq!(s.enough_memory(Ok(0)).name, "Enough Memory");
}

fn good_observations() -> SystemObservations {
    SystemObservations {
        total_memory: Ok(8 << 30),
        disks: Ok(vec![disk("/", 100 << 30)]),
        nft_found: true,
        package_manager_found: true,
        grub_mkconfig_found: true,
        service_manager_found: true,
        utilities: Ok(vec![("tar".into(), true), ("grep".into(), true)]),
    }
}

#[test]
fn preinstall_system_group_passes_on_a_good_host() {
    let g = SystemChecks::new().run_all(good_observations());
    assert_eq!(g.name, "System Checks");
    assert_eq!(g.results.len(), 9);
    let names: Vec<&str> = g.results.iter().map(|c| c.name.as_str()).collect();
    assert_eq!(
        names,
        vec![
            "Enough Memory",
            "Enough Disk Space for /usr",
            "Enough Disk Space for /var/lib",
            "Enough Disk Space for /boot",
            "'nft' Binary Present",
            "Package Manager Binary Present",
            "'grub-mkconfig' Binary Present",
            "Service Manager Binary Present",
            "Basic Linux Utility Binaries Present",
        ]
    );
    assert!(matches!(g.result, CheckResultValue::Passed));
}

#[test]
fn missing_tools_make_the_group_err() {
    let mut o = good_observations();
    o.nft_found = false;
    o.utilities = Ok(vec![("tar".to_string(), false), ("grep".to_string(), false)]);
    let g = SystemChecks::new().run_all(o);
    assert_eq!(
        errored(&g.results[4].result),
        "'nft' binary is required but not present, install `nftables`"
    );
    assert_eq!(
        errored(&g.results[8].result),
        "required basic Linux utility binaries not found in PATH: tar, grep"
    );
    assert!(matches!(g.result, CheckResultValue::Errored(_)));
}

#[test]
fn binary_checks_pass_when_found() {
    let s = SystemChecks::new();
    assert!(matches!(s.has_nft_bin(true).result, CheckResultValue::Passed));
    assert_eq!(
        errored(&s.has_package_manager_bin(false).result),
        "no supported package manager found in PATH (tried: dnf, yum, zypper, apt-get, apk)"
    );
    assert_eq!(
        errored(&s.has_grub_mkconfig_bin(false).result),
        "neither 'grub-mkconfig' nor 'grub2-mkconfig' found in PATH"
    );
    assert_eq!(
        errored(&s.has_service_manager_bin(false).result),
        "neither 'systemctl' nor 'rc-update' found in PATH"
    );
    assert!(matches!(s.has_linux_util_bins(&Ok(vec![])).result, CheckResultValue::Passed));
    let probe = Ok(vec![("tar".to_string(), true), ("grep".to_string(), false)]);
    assert_eq!(
        errored(&s.has_linux_util_bins(&probe).result),
        "required basic Linux utility binaries not found in PATH: grep"
    );
    assert_eq!(
        errored(&s.has_linux_util_bins(&Err("task failed".into())).result),
        "could not probe for basic Linux utility binaries: task failed"
    );
}

#[test]
fn tool_lists_are_the_documented_ones() {
    let s = SystemChecks::new();
    assert_eq!(s.basic_utilities(), vec!["tar", "grep"]);
    assert_eq!(s.package_managers(), vec!["dnf", "yum", "zypper", "apt-get", "apk"]);
    assert_eq!(s.grub_mkconfig_bins(), vec!["grub-mkconfig", "grub2-mkconfig"]);
    assert_eq!(s.service_manager_bins(), vec!["systemctl", "rc-update"]);
}

#[test]
fn postinstall_system_group_recommends_twenty_gib() {
    let g = PostSystemChecks::new().run_all(&Ok(vec![disk("/var/lib", 20 << 30)]));
    assert!(matches!(g.result, CheckResultValue::Passed));
    let g = PostSystemChecks::new().run_all(&Ok(vec![disk("/var/lib", (20 << 30) - 1)]));
    assert!(matches!(g.result, CheckResultValue::Failed(_)));
}

#[test]
fn iommu_is_found_from_either_table() {
    let c = IOMMUChecks::new();
    assert!(matches!(c.check_iommu(Ok(AcpiTables { dmar: true, ivrs: false })).result, CheckResultValue::Passed));
    assert!(matches!(c.check_iommu(Ok(AcpiTables { dmar: false, ivrs: true })).result, CheckResultValue::Passed));
    assert_eq!(failed(&c.check_iommu(Ok(AcpiTables { dmar: false, ivrs: false })).result), "no IOMMU detected");
    let g = c.run_all(Arch::X86_64, Ok(AcpiTables { dmar: false, ivrs: false }));
    assert_eq!(failed(&g.result), "group failed");
    let g = c.run_all(Arch::Aarch64, Ok(AcpiTables { dmar: false, ivrs: false }));
    assert!(g.results.is_empty());
    assert!(matches!(g.result, CheckResultValue::Unknown));
}

#[test]
fn numa_nodes_are_counted_by_name() {
    assert!(is_node_name_exec(&"node0".to_string()));
    assert!(is_node_name_exec(&"node12".to_string()));
    assert!(is_node_name_exec(&"node".to_string()));
    assert!(!is_node_name_exec(&"node1a".to_string()));
    assert!(!is_node_name_exec(&"possible".to_string()));
    let entries: Vec<String> = ["node0", "node1", "has_cpu", "online"].iter().map(|s| s.to_string()).collect();
    assert_eq!(count_nodes(&entries), 2);
}

#[test]
fn more_than_one_numa_node_fails() {
    let c = NUMAChecks::new();
    let one: Result<Vec<String>, String> = Ok(vec!["node0".into(), "online".into()]);
    assert!(matches!(c.check_numa(&one).result, CheckResultValue::Passed));
    let two: Result<Vec<String>, String> = Ok(vec!["node0".into(), "node1".into()]);
    assert_eq!(failed(&c.check_numa(&two).result), "2 NUMA nodes detected");
    let g = c.run_all(Arch::X86_64, &two);
    assert_eq!(failed(&g.result), "group errored");
    let g = c.run_all(Arch::Other, &two);
    assert!(g.results.is_empty());
}
