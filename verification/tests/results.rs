use edera_check::helpers::console::{LineIcon, LogLevel, TextStyle};
use edera_check::helpers::{
    group_from, group_result_of, CheckGroupCategory, CheckGroupResult, CheckResult,
    CheckResultValue,
};

fn check(name: &str, v: CheckResultValue) -> CheckResult {
    CheckResult::new(name, v)
}

#[test]
fn display_of_result_values() {
    assert_eq!(CheckResultValue::Passed.to_display_string(), "Passed");
    assert_eq!(CheckResultValue::Failed(String::new()).to_display_string(), "Failed");
    assert_eq!(CheckResultValue::Failed("x".into()).to_display_string(), "Failed: x");
    assert_eq!(CheckResultValue::Errored(String::new()).to_display_string(), "Errored");
    assert_eq!(CheckResultValue::Errored("boom".into()).to_display_string(), "Errored: boom");
    assert_eq!(CheckResultValue::Skipped(String::new()).to_display_string(), "Skipped");
    assert_eq!(CheckResultValue::Skipped("n/a".into()).to_display_string(), "Skipped: n/a");
    assert_eq!(CheckResultValue::Unknown.to_display_string(), "Unknown");
}

#[test]
fn display_of_categories() {
    assert_eq!(CheckGroupCategory::Required.to_display_string(), "Required");
    assert_eq!(CheckGroupCategory::Optional("why".into()).to_display_string(), "Optional");
    assert_eq!(CheckGroupCategory::Advisory.to_display_string(), "Advisory");
}

#[test]
fn check_result_constructors() {
    let c = CheckResult::new("a", CheckResultValue::Passed);
    assert_eq!(c.name, "a");
    assert!(c.output_to_record.is_none());
    let c = CheckResult::new_with_output("b", CheckResultValue::Passed, Some("out".into()));
    assert_eq!(c.output_to_record.as_deref(), Some("out"));
    let g = CheckGroupResult::new("group");
    assert_eq!(g.name, "group");
    assert!(matches!(g.result, CheckResultValue::Unknown));
    assert!(g.results.is_empty());
}

#[test]
fn group_result_errored_dominates_failed() {
    let rs = vec![
        check("a", CheckResultValue::Failed("f".into())),
        check("b", CheckResultValue::Errored("e".into())),
        check("c", CheckResultValue::Passed),
    ];
    assert!(matches!(group_result_of(&rs, "group failed", "group errored"),
        CheckResultValue::Errored(ref m) if m == "group errored"));
}

#[test]
fn group_result_failed_without_errors() {
    let rs = vec![
        check("a", CheckResultValue::Passed),
        check("b", CheckResultValue::Failed("f".into())),
    ];
    assert!(matches!(group_result_of(&rs, "group failed", "group errored"),
        CheckResultValue::Failed(ref m) if m == "group failed"));
}

#[test]
fn group_result_is_order_independent_on_an_example() {
    let a = vec![
        check("a", CheckResultValue::Errored("e".into())),
        check("b", CheckResultValue::Failed("f".into())),
    ];
    let b = vec![
        check("b", CheckResultValue::Failed("f".into())),
        check("a", CheckResultValue::Errored("e".into())),
    ];
    let ra = group_result_of(&a, "F", "E").to_display_string();
    let rb = group_result_of(&b, "F", "E").to_display_string();
    assert_eq!(ra, rb);
}

#[test]
fn skipped_and_unknown_checks_pass_the_group() {
    let rs = vec![
        check("a", CheckResultValue::Skipped("nope".into())),
        check("b", CheckResultValue::Unknown),
        check("c", CheckResultValue::Passed),
    ];
    assert!(matches!(group_result_of(&rs, "F", "E"), CheckResultValue::Passed));
    assert!(matches!(group_result_of(&Vec::new(), "F", "E"), CheckResultValue::Passed));
}

#[test]
fn log_lines_of_a_passed_group() {
    let g = group_from("Sys", vec![check("a", CheckResultValue::Passed)], "", "");
    let lines = g.log_group(&CheckGroupCategory::Required);
    assert_eq!(lines.len(), 1);
    assert_eq!(lines[0].icon, Some(LineIcon::Check));
    assert_eq!(lines[0].segments[0].text, "Sys: Passed");
    assert_eq!(lines[0].segments[0].style, TextStyle::GreenBold);
}

#[test]
fn log_lines_of_a_failed_optional_group() {
    let g = group_from("PVH", vec![check("a", CheckResultValue::Failed("x".into()))], "", "");
    let lines = g.log_group(&CheckGroupCategory::Optional("PVH may be missing".into()));
    assert_eq!(lines.len(), 2);
    assert_eq!(lines[0].icon, Some(LineIcon::Warn));
    assert_eq!(lines[0].segments[0].text, "PVH may be missing");
    assert_eq!(lines[1].segments[0].text, "PVH: Failed");
    assert_eq!(lines[1].segments[1].text, " [Optional]");
    let lines = g.log_group(&CheckGroupCategory::Required);
    assert_eq!(lines.len(), 1);
    assert_eq!(lines[0].icon, Some(LineIcon::Error));
    assert_eq!(lines[0].segments[0].style, TextStyle::RedBold);
}

#[test]
fn log_lines_of_a_skipped_group_and_checks() {
    let g = CheckGroupResult {
        name: "PVH Checks".into(),
        result: CheckResultValue::Skipped("not supported".into()),
        results: vec![check("x", CheckResultValue::Errored("e".into()))],
    };
    let lines = g.log_group(&CheckGroupCategory::Advisory);
    assert_eq!(lines[0].segments[0].text, "PVH Checks: Skipped: not supported");
    assert_eq!(lines[0].segments[1].text, " - ");
    assert_eq!(lines[0].segments[2].text, "not supported");
    let checks = g.log_individual_checks();
    assert_eq!(checks.len(), 1);
    assert_eq!(checks[0].icon, None);
    assert_eq!(checks[0].segments[0].text, "    \u{2022} x: Errored: e");
    assert_eq!(checks[0].segments[0].style, TextStyle::RedDim);
}

#[test]
fn log_records_carry_levels() {
    let g = group_from(
        "G",
        vec![
            check("a", CheckResultValue::Passed),
            check("b", CheckResultValue::Failed("f".into())),
            check("c", CheckResultValue::Errored("e".into())),
            check("d", CheckResultValue::Skipped(String::new())),
        ],
        "group failed",
        "group errored",
    );
    let records = g.log_check_records();
    assert_eq!(records.len(), 4);
    assert_eq!(records[0], (LogLevel::Info, "[G] a: Passed".to_string()));
    assert_eq!(records[1], (LogLevel::Warn, "[G] b: Failed: f".to_string()));
    assert_eq!(records[2], (LogLevel::Error, "[G] c: Errored: e".to_string()));
    assert_eq!(records[3], (LogLevel::Warn, "[G] d: Skipped".to_string()));
    assert_eq!(g.log_record(), (LogLevel::Error, "[G] Errored: group errored".to_string()));
}
