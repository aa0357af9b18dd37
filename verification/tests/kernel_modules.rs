use edera_check::checkers::preinstall::byo_kernel::BYOKernelChecks;
use edera_check::checkers::preinstall::kernel::KernelChecks;
use edera_check::helpers::kernel::{
    check_modules, find_builtins, find_loadable, find_loaded, host_kver_above_floor,
    version_is_good, KernelVersion, ModuleListings,
};
use edera_check::helpers::CheckResultValue;

fn names(v: &[&str]) -> Vec<String> {
    v.iter().map(|s| s.to_string()).collect()
}

#[test]
fn builtin_lines_remove_the_first_name_they_contain() {
    let builtins = "kernel/net/netfilter/nf_tables.ko\nkernel/drivers/other.ko\n";
    let left = find_builtins(builtins, &names(&["msr", "nf_tables"]));
    assert_eq!(left, names(&["msr"]));
}

#[test]
fn one_builtin_line_removes_only_one_name() {
    // A line that contains two required names removes only the first of them.
    let left = find_builtins("a/xen-gntdev-xen-gntalloc.ko", &names(&["xen-gntdev", "xen-gntalloc"]));
    assert_eq!(left, names(&["xen-gntalloc"]));
}

#[test]
fn loaded_names_must_match_exactly() {
    let loaded = names(&["nf_tables_extra", "msr"]);
    let left = find_loaded(&loaded, &names(&["nf_tables", "msr"]));
    assert_eq!(left, names(&["nf_tables"]));
}

#[test]
fn loadable_looks_only_before_the_colon() {
    let deps = "kernel/arch/x86/msr.ko:\nkernel/foo.ko: kernel/net/nf_tables.ko\n";
    let found = find_loadable(deps, &names(&["nf_tables", "msr"]));
    assert_eq!(found, names(&["msr"]));
}

#[test]
fn loadable_modules_are_those_modules_dep_lists() {
    let deps = "kernel/net/netfilter/nf_tables.ko: kernel/net/netfilter/nfnetlink.ko\n";
    assert_eq!(find_loadable(deps, &names(&["nf_tables", "msr"])), names(&["nf_tables"]));
    assert!(find_loadable("", &names(&["msr"])).is_empty());
}

#[test]
fn modules_check_passes_when_everything_is_found() {
    let listings = ModuleListings {
        builtins: Ok("kernel/net/netfilter/nf_tables.ko\n".to_string()),
        loaded: Ok(names(&["msr"])),
        deps: Ok(String::new()),
    };
    let r = check_modules("Host Has Necessary Modules", &listings, &names(&["nf_tables", "msr"]));
    assert_eq!(r.name, "Host Has Necessary Modules");
    assert!(matches!(r.result, CheckResultValue::Passed));
}

#[test]
fn modules_check_names_the_missing_modules() {
    let listings = ModuleListings {
        builtins: Ok(String::new()),
        loaded: Ok(vec![]),
        deps: Ok("kernel/net/netfilter/nf_tables.ko:\n".to_string()),
    };
    let r = KernelChecks::new().has_modules(&listings);
    match r.result {
        CheckResultValue::Failed(m) => assert_eq!(m, "missing [\"msr\"]"),
        _ => panic!("expected a failure"),
    }
}

#[test]
fn modules_check_errors_on_the_first_unreadable_listing() {
    let listings = ModuleListings {
        builtins: Err("no builtins".to_string()),
        loaded: Err("no modules".to_string()),
        deps: Ok(String::new()),
    };
    let r = check_modules("m", &listings, &names(&["msr"]));
    match r.result {
        CheckResultValue::Errored(m) => assert_eq!(m, "getting kernel builtins no builtins"),
        _ => panic!("expected an error"),
    }
    let listings = ModuleListings {
        builtins: Ok(String::new()),
        loaded: Ok(vec![]),
        deps: Err("no deps".to_string()),
    };
    let r = check_modules("m", &listings, &names(&["msr"]));
    match r.result {
        CheckResultValue::Errored(m) => assert_eq!(m, "getting kernel modules no deps"),
        _ => panic!("expected an error"),
    }
}

#[test]
fn kernel_group_takes_its_check_outcome() {
    let listings = ModuleListings {
        builtins: Ok(String::new()),
        loaded: Ok(names(&["nf_tables", "msr"])),
        deps: Ok(String::new()),
    };
    let g = KernelChecks::new().run_all(&listings);
    assert_eq!(g.name, "Kernel Checks");
    assert_eq!(g.results.len(), 1);
    assert!(matches!(g.result, CheckResultValue::Passed));
}

#[test]
fn kernel_version_floor_is_5_15_0() {
    let floor = KernelVersion::new(5, 15, 0);
    assert!(host_kver_above_floor(&KernelVersion::new(5, 15, 0), &floor));
    assert!(host_kver_above_floor(&KernelVersion::new(6, 0, 0), &floor));
    assert!(!host_kver_above_floor(&KernelVersion::new(5, 14, 300), &floor));
    assert!(KernelVersion::new(4, 255, 9).older_than(&floor));
    assert!(matches!(version_is_good(Ok(KernelVersion::new(6, 1, 2))).result, CheckResultValue::Passed));
    match version_is_good(Ok(KernelVersion::new(5, 10, 0))).result {
        CheckResultValue::Failed(m) => assert_eq!(m, "current kernel version is unsupported"),
        _ => panic!("expected a failure"),
    }
    match version_is_good(Err("uname failed".into())).result {
        CheckResultValue::Errored(m) => assert_eq!(m, "uname failed"),
        _ => panic!("expected an error"),
    }
}

#[test]
fn newer_kernel_still_passes_on_concrete_versions() {
    let floor = KernelVersion::new(5, 15, 0);
    let v = KernelVersion::new(5, 15, 3);
    let w = KernelVersion::new(5, 16, 0);
    assert!(host_kver_above_floor(&v, &floor));
    assert!(!w.older_than(&v));
    assert!(host_kver_above_floor(&w, &floor));
}

#[test]
fn byo_kernel_group_fails_when_the_kernel_is_old() {
    let all = names(&[
        "nf_tables", "xen_evtchn", "xen-privcmd", "xen-netback", "xen-pciback", "xen-blkback",
        "xen-gntdev", "xen-gntalloc",
    ]);
    let listings = ModuleListings { builtins: Ok(String::new()), loaded: Ok(all), deps: Ok(String::new()) };
    let g = BYOKernelChecks::new().run_all(&listings, Ok(KernelVersion::new(5, 4, 0)));
    assert_eq!(g.name, "Bring-Your-Own Kernel Checks");
    assert_eq!(g.results.len(), 2);
    assert!(matches!(g.results[0].result, CheckResultValue::Passed));
    assert!(matches!(g.results[1].result, CheckResultValue::Failed(_)));
    assert!(matches!(g.result, CheckResultValue::Failed(_)));
    let g = BYOKernelChecks::new().run_all(&listings, Ok(KernelVersion::new(6, 8, 0)));
    assert!(matches!(g.result, CheckResultValue::Passed));
}
