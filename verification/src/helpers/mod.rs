//! Results of individual checks and of check groups, how a group's result is
//! derived from its checks, and how results are presented.
use vstd::prelude::*;

use crate::text::concat_strs;

pub mod console;
pub mod cpu;
pub mod kernel;
pub mod order;
pub mod paths;
pub mod services;

verus! {

/// CheckResultValue is the final value for the result of an individual check.
///
/// Failed means a check ran successfully but did not pass. Errored means a check hit an
/// error while executing. Skipped means the check did not apply; Unknown is the value of a
/// group that has not run yet.
pub enum CheckResultValue {
    Passed,
    Failed(String),
    Errored(String),
    Skipped(String),
    Unknown,
}

/// The value of a `CheckResultValue`, messages taken as character sequences.
pub enum ResultView {
    Passed,
    Failed(Seq<char>),
    Errored(Seq<char>),
    Skipped(Seq<char>),
    Unknown,
}

impl View for CheckResultValue {
    type V = ResultView;

    open spec fn view(&self) -> ResultView {
        match self {
            CheckResultValue::Passed => ResultView::Passed,
            CheckResultValue::Failed(m) => ResultView::Failed(m@),
            CheckResultValue::Errored(m) => ResultView::Errored(m@),
            CheckResultValue::Skipped(m) => ResultView::Skipped(m@),
            CheckResultValue::Unknown => ResultView::Unknown,
        }
    }
}

/// A label followed, when the message is not empty, by `": "` and the message.
pub open spec fn labelled(label: Seq<char>, msg: Seq<char>) -> Seq<char> {
    if msg.len() == 0 {
        label
    } else {
        label + ": "@ + msg
    }
}

/// How a result value is displayed.
pub open spec fn result_text(r: ResultView) -> Seq<char> {
    match r {
        ResultView::Passed => "Passed"@,
        ResultView::Failed(m) => labelled("Failed"@, m),
        ResultView::Errored(m) => labelled("Errored"@, m),
        ResultView::Skipped(m) => labelled("Skipped"@, m),
        ResultView::Unknown => "Unknown"@,
    }
}

fn labelled_exec(label: &str, msg: &String) -> (r: String)
    ensures
        r@ == labelled(label@, msg@),
{
    if msg.as_str().is_empty() {
        String::from_str(label)
    } else {
        let head = concat_strs(label, ": ");
        let r = concat_strs(head.as_str(), msg.as_str());
        assert(r@ == label@ + ": "@ + msg@);
        r
    }
}

impl CheckResultValue {
    /// The text of this value, as `Display` shows it.
    pub fn to_display_string(&self) -> (r: String)
        ensures
            r@ == result_text(self@),
    {
        match self {
            CheckResultValue::Passed => String::from_str("Passed"),
            CheckResultValue::Failed(m) => labelled_exec("Failed", m),
            CheckResultValue::Errored(m) => labelled_exec("Errored", m),
            CheckResultValue::Skipped(m) => labelled_exec("Skipped", m),
            CheckResultValue::Unknown => String::from_str("Unknown"),
        }
    }

    /// Whether this value is `Failed`.
    pub fn is_failed(&self) -> (r: bool)
        ensures
            r == (self@ is Failed),
    {
        match self {
            CheckResultValue::Failed(_) => true,
            _ => false,
        }
    }

    /// Whether this value is `Errored`.
    pub fn is_errored(&self) -> (r: bool)
        ensures
            r == (self@ is Errored),
    {
        match self {
            CheckResultValue::Errored(_) => true,
            _ => false,
        }
    }
}

/// Whether a group's pass/fail state is a blocker, only means that an optional feature
/// is unavailable (with the reason), or is informational.
pub enum CheckGroupCategory {
    Required,
    Optional(String),
    Advisory,
}

/// The value of a `CheckGroupCategory`.
pub enum CategoryView {
    Required,
    Optional(Seq<char>),
    Advisory,
}

impl View for CheckGroupCategory {
    type V = CategoryView;

    open spec fn view(&self) -> CategoryView {
        match self {
            CheckGroupCategory::Required => CategoryView::Required,
            CheckGroupCategory::Optional(s) => CategoryView::Optional(s@),
            CheckGroupCategory::Advisory => CategoryView::Advisory,
        }
    }
}

/// How a category is displayed.
pub open spec fn category_text(c: CategoryView) -> Seq<char> {
    match c {
        CategoryView::Required => "Required"@,
        CategoryView::Optional(_) => "Optional"@,
        CategoryView::Advisory => "Advisory"@,
    }
}

impl CheckGroupCategory {
    /// The text of this category, as `Display` shows it.
    pub fn to_display_string(&self) -> (r: String)
        ensures
            r@ == category_text(self@),
    {
        match self {
            CheckGroupCategory::Required => String::from_str("Required"),
            CheckGroupCategory::Optional(_) => String::from_str("Optional"),
            CheckGroupCategory::Advisory => String::from_str("Advisory"),
        }
    }

    /// Whether this is the `Required` category.
    pub fn is_required(&self) -> (r: bool)
        ensures
            r == (self@ is Required),
    {
        match self {
            CheckGroupCategory::Required => true,
            _ => false,
        }
    }
}

/// CheckResult is the end result of an individual check. It carries the name of the individual
/// check as well as the end result.
pub struct CheckResult {
    /// name is the name of the individual check
    pub name: String,
    /// result is the final result of an individual check
    pub result: CheckResultValue,
    /// output_to_record is an optional field used to return output that should be recorded into an
    /// information bundle
    pub output_to_record: Option<String>,
}

/// The value of a `CheckResult`.
pub struct CheckView {
    pub name: Seq<char>,
    pub result: ResultView,
    pub output: Option<Seq<char>>,
}

/// The view of an optional string.
pub open spec fn opt_view(o: Option<String>) -> Option<Seq<char>> {
    match o {
        Some(s) => Some(s@),
        None => None,
    }
}

impl View for CheckResult {
    type V = CheckView;

    open spec fn view(&self) -> CheckView {
        CheckView { name: self.name@, result: self.result@, output: opt_view(self.output_to_record) }
    }
}

impl CheckResult {
    pub fn new(name: &str, result: CheckResultValue) -> (r: CheckResult)
        ensures
            r@ == (CheckView { name: name@, result: result@, output: None }),
    {
        Self::new_with_output(name, result, None)
    }

    pub fn new_with_output(
        name: &str,
        result: CheckResultValue,
        output_to_record: Option<String>,
    ) -> (r: CheckResult)
        ensures
            r@ == (CheckView { name: name@, result: result@, output: opt_view(output_to_record) }),
    {
        CheckResult { name: String::from_str(name), result, output_to_record }
    }
}

/// CheckGroupResult is the result for a top-level group of checks. The result field is calculated
/// from the set of individual checks within that group.
pub struct CheckGroupResult {
    /// name is the name of the group of checks
    pub name: String,
    /// result is the top-level result of the group of checks.
    pub result: CheckResultValue,
    /// results is the list of results from each individual check within this group.
    pub results: Vec<CheckResult>,
}

/// The value of a `CheckGroupResult`.
pub struct GroupView {
    pub name: Seq<char>,
    pub result: ResultView,
    pub results: Seq<CheckView>,
}

/// The views of a sequence of check results.
pub open spec fn check_views(s: Seq<CheckResult>) -> Seq<CheckView> {
    s.map_values(|c: CheckResult| c@)
}

impl View for CheckGroupResult {
    type V = GroupView;

    open spec fn view(&self) -> GroupView {
        GroupView { name: self.name@, result: self.result@, results: check_views(self.results@) }
    }
}

/// Whether some check in `rs` errored.
pub open spec fn any_errored(rs: Seq<CheckView>) -> bool {
    exists|i: int| 0 <= i < rs.len() && #[trigger] rs[i].result is Errored
}

/// Whether some check in `rs` failed.
pub open spec fn any_failed(rs: Seq<CheckView>) -> bool {
    exists|i: int| 0 <= i < rs.len() && #[trigger] rs[i].result is Failed
}

/// The result of a group whose checks gave `rs`: Errored (with `errored_msg`) when any check
/// errored, else Failed (with `failed_msg`) when any check failed, else Passed.
pub open spec fn group_outcome(
    rs: Seq<CheckView>,
    failed_msg: Seq<char>,
    errored_msg: Seq<char>,
) -> ResultView {
    if any_errored(rs) {
        ResultView::Errored(errored_msg)
    } else if any_failed(rs) {
        ResultView::Failed(failed_msg)
    } else {
        ResultView::Passed
    }
}

/// The result of a group whose checks gave `results` (the fold that every check group runs
/// over its checks).
pub fn group_result_of(results: &Vec<CheckResult>, failed_msg: &str, errored_msg: &str) -> (r:
    CheckResultValue)
    ensures
        r@ == group_outcome(check_views(results@), failed_msg@, errored_msg@),
{
    let ghost rs = check_views(results@);
    let mut errored = false;
    let mut failed = false;
    let mut i: usize = 0;
    while i < results.len()
        invariant
            i <= results.len(),
            rs == check_views(results@),
            errored == (exists|j: int| 0 <= j < i && #[trigger] rs[j].result is Errored),
            failed == (exists|j: int| 0 <= j < i && #[trigger] rs[j].result is Failed),
        decreases results.len() - i,
    {
        assert(rs[i as int] == results@[i as int]@);
        let e = results[i].result.is_errored();
        let f = results[i].result.is_failed();
        assert(e == (rs[i as int].result is Errored));
        assert(f == (rs[i as int].result is Failed));
        if e {
            errored = true;
        }
        if f {
            failed = true;
        }
        i = i + 1;
    }
    if errored {
        CheckResultValue::Errored(String::from_str(errored_msg))
    } else if failed {
        CheckResultValue::Failed(String::from_str(failed_msg))
    } else {
        CheckResultValue::Passed
    }
}

/// A group result named `name` whose result is derived from `results`.
pub fn group_from(name: &str, results: Vec<CheckResult>, failed_msg: &str, errored_msg: &str) -> (r:
    CheckGroupResult)
    ensures
        r@ == (GroupView {
            name: name@,
            result: group_outcome(check_views(results@), failed_msg@, errored_msg@),
            results: check_views(results@),
        }),
{
    let result = group_result_of(&results, failed_msg, errored_msg);
    CheckGroupResult { name: String::from_str(name), result, results }
}

impl CheckGroupResult {
    /// A group named `name` that has not run any check yet.
    pub fn new(name: &str) -> (r: CheckGroupResult)
        ensures
            r@ == (GroupView { name: name@, result: ResultView::Unknown, results: Seq::empty() }),
    {
        let r = CheckGroupResult {
            name: String::from_str(name),
            result: CheckResultValue::Unknown,
            results: Vec::new(),
        };
        assert(check_views(r.results@) =~= Seq::<CheckView>::empty());
        r
    }
}

/// The architecture the checks run on, for the checks that differ between them.
#[derive(Debug, PartialEq, Eq, Structural, Clone, Copy)]
pub enum Arch {
    X86_64,
    Aarch64,
    Other,
}

/// CheckGroup is a group of checks: its name, its identifier (used when selecting groups to
/// run, so it should be env/cli friendly), a longer description, and whether its pass/fail
/// state is a blocker.
pub trait CheckGroup {
    fn name(&self) -> &str;

    fn id(&self) -> &str;

    fn description(&self) -> &str;

    fn category(&self) -> CheckGroupCategory;
}

/// A group's result does not depend on the order of its checks: two groups whose checks gave
/// the same results, in any order, get the same result.
pub proof fn law_group_outcome_order_independent(
    a: Seq<CheckView>,
    b: Seq<CheckView>,
    failed_msg: Seq<char>,
    errored_msg: Seq<char>,
)
    requires
        a.to_multiset() == b.to_multiset(),
    ensures
        group_outcome(a, failed_msg, errored_msg) == group_outcome(b, failed_msg, errored_msg),
{
    a.to_multiset_ensures();
    b.to_multiset_ensures();
    if any_errored(a) {
        let i = choose|i: int| 0 <= i < a.len() && #[trigger] a[i].result is Errored;
        assert(a.contains(a[i]));
        assert(a.to_multiset().count(a[i]) > 0);
        assert(b.to_multiset().count(a[i]) > 0);
        assert(b.contains(a[i]));
        let j = choose|j: int| 0 <= j < b.len() && b[j] == a[i];
        assert(b[j].result is Errored);
    }
    if any_errored(b) {
        let i = choose|i: int| 0 <= i < b.len() && #[trigger] b[i].result is Errored;
        assert(b.contains(b[i]));
        assert(b.to_multiset().count(b[i]) > 0);
        assert(a.to_multiset().count(b[i]) > 0);
        assert(a.contains(b[i]));
        let j = choose|j: int| 0 <= j < a.len() && a[j] == b[i];
        assert(a[j].result is Errored);
    }
    if any_failed(a) {
        let i = choose|i: int| 0 <= i < a.len() && #[trigger] a[i].result is Failed;
        assert(a.contains(a[i]));
        assert(a.to_multiset().count(a[i]) > 0);
        assert(b.to_multiset().count(a[i]) > 0);
        assert(b.contains(a[i]));
        let j = choose|j: int| 0 <= j < b.len() && b[j] == a[i];
        assert(b[j].result is Failed);
    }
    if any_failed(b) {
        let i = choose|i: int| 0 <= i < b.len() && #[trigger] b[i].result is Failed;
        assert(b.contains(b[i]));
        assert(b.to_multiset().count(b[i]) > 0);
        assert(a.to_multiset().count(b[i]) > 0);
        assert(a.contains(b[i]));
        let j = choose|j: int| 0 <= j < a.len() && a[j] == b[i];
        assert(a[j].result is Failed);
    }
}

/// An errored check makes its whole group errored, whatever the other checks gave.
pub proof fn law_errored_check_errs_group(
    rs: Seq<CheckView>,
    i: int,
    failed_msg: Seq<char>,
    errored_msg: Seq<char>,
)
    requires
        0 <= i < rs.len(),
        rs[i].result is Errored,
    ensures
        group_outcome(rs, failed_msg, errored_msg) == ResultView::Errored(errored_msg),
{
}

/// A group passes exactly when none of its checks failed or errored; skipped checks and
/// checks of unknown result do not hold a group back.
pub proof fn law_group_passes_iff_no_failure(
    rs: Seq<CheckView>,
    failed_msg: Seq<char>,
    errored_msg: Seq<char>,
)
    ensures
        (group_outcome(rs, failed_msg, errored_msg) == ResultView::Passed) <==> (forall|i: int|
            0 <= i < rs.len() ==> !(#[trigger] rs[i].result is Failed) && !(
            rs[i].result is Errored)),
{
}

} // verus!
