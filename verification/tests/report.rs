use edera_check::helpers::order::sort_by_category;
use edera_check::helpers::{CheckGroupCategory, CheckResult, CheckResultValue};
use edera_check::report::{
    archive_name, booted_under_edera, in_host_pid_namespace, list_groups, preinstall_groups,
    report_dir_name, report_file_contents, report_file_name, run_order, select_groups, Overall,
    PreinstallGroup,
};

fn strings(v: &[&str]) -> Vec<String> {
    v.iter().map(|s| s.to_string()).collect()
}

#[test]
fn report_file_names_are_flat() {
    assert_eq!(report_file_name("/etc/edera/scripts/kvm.sh"), "_etc_edera_scripts_kvmsh");
    assert_eq!(report_file_name("Enough Disk Space for /var/lib"), "Enough_Disk_Space_for__var_lib");
    assert_eq!(report_file_name("v1.2.3"), "v123");
    assert_eq!(report_file_name(""), "");
    let n = report_file_name("a b/c.d");
    assert!(!n.contains('/') && !n.contains(' ') && !n.contains('.'));
}

#[test]
fn report_records_output_or_result() {
    let c = CheckResult::new_with_output("x", CheckResultValue::Passed, Some("raw".into()));
    assert_eq!(report_file_contents(&c), "raw");
    let c = CheckResult::new("x", CheckResultValue::Failed("bad".into()));
    assert_eq!(report_file_contents(&c), "Failed: bad");
}

#[test]
fn report_directory_and_archive_names() {
    assert_eq!(
        report_dir_name("preinstall", "myhost\n", "20240101-120000"),
        "edera-preinstall-report-myhost-20240101-120000"
    );
    assert_eq!(archive_name("edera-preinstall-report-h-1"), "edera-preinstall-report-h-1.tar.gz");
    // A host name with dots gives the directory an "extension", which is replaced.
    assert_eq!(archive_name("edera-report-host.example.com-1"), "edera-report-host.example.tar.gz");
    assert_eq!(archive_name(".hidden"), ".hidden.tar.gz");
}

#[test]
fn boot_state_and_namespace() {
    assert!(booted_under_edera(true, &Some("xen\n".into())));
    assert!(!booted_under_edera(false, &Some("xen".into())));
    assert!(!booted_under_edera(true, &Some("kvm".into())));
    assert!(!booted_under_edera(true, &None));
    assert!(in_host_pid_namespace(&Some("kthreadd\n".into())));
    assert!(!in_host_pid_namespace(&Some("bash".into())));
    assert!(!in_host_pid_namespace(&None));
}

#[test]
fn preinstall_group_list() {
    assert_eq!(
        preinstall_groups(false, false),
        vec![
            PreinstallGroup::System,
            PreinstallGroup::Pvh,
            PreinstallGroup::Kernel,
            PreinstallGroup::Iommu,
            PreinstallGroup::Numa,
        ]
    );
    let all = preinstall_groups(true, true);
    assert_eq!(all.len(), 7);
    assert_eq!(all[5], PreinstallGroup::ByoKernel);
    assert_eq!(all[6], PreinstallGroup::SystemRecorder);
}

#[test]
fn selection_keeps_requested_groups_and_reports_unknown_ones() {
    let ids = strings(&["system", "pvh", "kernel", "iommu", "numa"]);
    let s = select_groups(&ids, &vec![]);
    assert_eq!(s.kept, vec![0, 1, 2, 3, 4]);
    assert!(s.unknown.is_empty());
    let s = select_groups(&ids, &strings(&["numa", "bogus", "pvh"]));
    assert_eq!(s.kept, vec![1, 4]);
    assert_eq!(s.unknown, vec!["bogus"]);
}

#[test]
fn groups_run_required_first_and_stably() {
    let cats = vec![
        CheckGroupCategory::Advisory,
        CheckGroupCategory::Required,
        CheckGroupCategory::Optional("b".into()),
        CheckGroupCategory::Required,
        CheckGroupCategory::Optional("a".into()),
    ];
    assert_eq!(run_order(&cats), vec![1, 3, 4, 2, 0]);
    assert_eq!(sort_by_category(&cats), vec![1, 3, 4, 2, 0]);
    let same = vec![CheckGroupCategory::Advisory, CheckGroupCategory::Advisory];
    assert_eq!(run_order(&same), vec![0, 1]);
}

#[test]
fn any_failed_group_fails_the_run() {
    let mut o = Overall::new();
    assert!(o.passed());
    o.record(&CheckGroupCategory::Required, &CheckResultValue::Passed);
    assert!(o.passed());
    o.record(&CheckGroupCategory::Optional("o".into()), &CheckResultValue::Failed("x".into()));
    assert!(o.required_passed());
    assert!(!o.passed());
    assert!(matches!(o.all, CheckResultValue::Failed(ref m) if m == "group failed"));
    let mut o = Overall::new();
    o.record(&CheckGroupCategory::Advisory, &CheckResultValue::Errored("x".into()));
    assert!(o.required_passed());
    assert!(!o.passed());
    assert!(matches!(o.all, CheckResultValue::Errored(ref m) if m == "group errored"));
    let mut o = Overall::new();
    o.record(&CheckGroupCategory::Advisory, &CheckResultValue::Skipped("n/a".into()));
    assert!(o.passed());
}

#[test]
fn required_part_tracks_required_groups() {
    let mut o = Overall::new();
    o.record(&CheckGroupCategory::Required, &CheckResultValue::Failed("x".into()));
    assert!(!o.required_passed());
    assert!(matches!(o.required, CheckResultValue::Failed(ref m) if m == "group failed"));
    o.record(&CheckGroupCategory::Required, &CheckResultValue::Errored("x".into()));
    assert!(matches!(o.required, CheckResultValue::Errored(ref m) if m == "group errored"));
    // A later failure does not downgrade an error.
    o.record(&CheckGroupCategory::Required, &CheckResultValue::Failed("x".into()));
    assert!(matches!(o.required, CheckResultValue::Errored(_)));
}

#[test]
fn listing_aligns_columns() {
    let l = list_groups(
        &strings(&["system", "byokernel"]),
        &strings(&["Required", "Optional"]),
        &strings(&["System requirement checks", "BYO"]),
    );
    assert_eq!(l.header, "  ID         Category  Description");
    assert_eq!(l.rule, format!("  {}", "-".repeat(9 + 2 + 8 + 2 + 11)));
    assert_eq!(l.rows.len(), 2);
    assert_eq!(l.rows[0].id, "system");
    assert_eq!(l.rows[0].id_pad, "   ");
    assert_eq!(l.rows[1].id_pad, "");
    assert_eq!(l.rows[0].category_pad, "");
    assert_eq!(l.rows[1].description, "BYO");
    let empty = list_groups(&vec![], &vec![], &vec![]);
    assert_eq!(empty.header, "  ID  Category  Description");
}
