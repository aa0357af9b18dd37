//! The report a run leaves behind and the decisions of the preinstall command: which groups
//! run, in which order, and whether the run as a whole passes.
use vstd::prelude::*;

use crate::helpers::order::{category_views, sort_by_category, stable_order};
use crate::helpers::{
    result_text, CategoryView, CheckGroupCategory, CheckResult, CheckResultValue, CheckView,
    ResultView,
};
use crate::text::{
    chars_eq, chars_of, concat_strs, push_char, string_of, string_views, trim, trim_exec,
    trimmed_is, trimmed_is_exec, opt_string_view,
};

verus! {

/// The name of the file that records a check named `name`: spaces and slashes become
/// underscores and dots are dropped.
pub open spec fn sanitized(name: Seq<char>) -> Seq<char>
    decreases name.len(),
{
    if name.len() == 0 {
        Seq::empty()
    } else {
        let prev = sanitized(name.drop_last());
        let c = name.last();
        if c == ' ' || c == '/' {
            prev.push('_')
        } else if c == '.' {
            prev
        } else {
            prev.push(c)
        }
    }
}

/// The flat file name under which the check named `name` is recorded.
pub fn report_file_name(name: &str) -> (r: String)
    ensures
        r@ == sanitized(name@),
{
    let s = chars_of(name);
    let mut r = String::new();
    let mut i: usize = 0;
    assert(s@.take(0) =~= Seq::<char>::empty());
    while i < s.len()
        invariant
            i <= s.len(),
            s@ == name@,
            r@ == sanitized(s@.take(i as int)),
        decreases s.len() - i,
    {
        assert(s@.take(i + 1).drop_last() =~= s@.take(i as int));
        assert(s@.take(i + 1).last() == s@[i as int]);
        let c = s[i];
        if c == ' ' || c == '/' {
            push_char(&mut r, '_');
        } else if c != '.' {
            push_char(&mut r, c);
        }
        i = i + 1;
    }
    assert(s@.take(s.len() as int) =~= s@);
    r
}

/// A recorded check's file name is flat: it holds no slash, no space and no dot.
pub proof fn law_report_file_name_is_flat(name: Seq<char>)
    ensures
        forall|i: int|
            0 <= i < sanitized(name).len() ==> #[trigger] sanitized(name)[i] != '/'
                && sanitized(name)[i] != ' ' && sanitized(name)[i] != '.',
    decreases name.len(),
{
    if name.len() > 0 {
        law_report_file_name_is_flat(name.drop_last());
        let p = sanitized(name.drop_last());
        assert forall|i: int| 0 <= i < sanitized(name).len() implies #[trigger] sanitized(name)[i]
            != '/' && sanitized(name)[i] != ' ' && sanitized(name)[i] != '.' by {
            if i < p.len() {
                assert(sanitized(name)[i] == p[i]);
            }
        }
    }
}

/// What the report records for a check: its recorded output if it has one, else its result.
pub open spec fn report_contents_spec(c: CheckView) -> Seq<char> {
    match c.output {
        Some(o) => o,
        None => result_text(c.result),
    }
}

/// What the report records for `check`.
pub fn report_file_contents(check: &CheckResult) -> (r: String)
    ensures
        r@ == report_contents_spec(check@),
{
    match &check.output_to_record {
        Some(text) => text.clone(),
        None => check.result.to_display_string(),
    }
}

/// The name of the directory holding a report of `stage` for the host named by `hostname`
/// (the raw contents of the hostname file) made at `timestamp`.
pub open spec fn report_dir_name_spec(stage: Seq<char>, hostname: Seq<char>, timestamp: Seq<char>) -> Seq<
    char,
> {
    "edera-"@ + stage + "-report-"@ + trim(hostname) + "-"@ + timestamp
}

/// The name of the report directory.
pub fn report_dir_name(stage: &str, hostname: &str, timestamp: &str) -> (r: String)
    ensures
        r@ == report_dir_name_spec(stage@, hostname@, timestamp@),
{
    let h = string_of(&trim_exec(&chars_of(hostname)));
    let mut r = concat_strs("edera-", stage);
    r.append("-report-");
    r.append(h.as_str());
    r.append("-");
    r.append(timestamp);
    r
}

/// The position of the last `'.'` of `s`, or -1.
pub open spec fn last_dot(s: Seq<char>) -> int
    decreases s.len(),
{
    if s.len() == 0 {
        -1
    } else if s.last() == '.' {
        s.len() - 1
    } else {
        last_dot(s.drop_last())
    }
}

/// The archive name for a report directory whose own name (its last path component, with no
/// `'/'`) is `dir`, as `Path::set_extension("tar.gz")` makes it: an extension (what follows
/// the last `'.'` that does not start the name) is replaced, otherwise `.tar.gz` is appended.
pub open spec fn archive_name_spec(dir: Seq<char>) -> Seq<char> {
    if last_dot(dir) > 0 {
        dir.take(last_dot(dir)) + ".tar.gz"@
    } else {
        dir + ".tar.gz"@
    }
}

/// The name of the archive, placed beside it, that packs the report directory named `dir`.
pub fn archive_name(dir: &str) -> (r: String)
    ensures
        r@ == archive_name_spec(dir@),
{
    let s = chars_of(dir);
    let mut dot: usize = 0;
    let mut found = false;
    let mut i: usize = 0;
    assert(s@.take(0) =~= Seq::<char>::empty());
    while i < s.len()
        invariant
            i <= s.len(),
            s@ == dir@,
            last_dot(s@.take(i as int)) == (if found {
                dot as int
            } else {
                -1
            }),
            found ==> dot < i,
        decreases s.len() - i,
    {
        assert(s@.take(i + 1).drop_last() =~= s@.take(i as int));
        assert(s@.take(i + 1).last() == s@[i as int]);
        if s[i] == '.' {
            dot = i;
            found = true;
        }
        i = i + 1;
    }
    assert(s@.take(s.len() as int) =~= s@);
    if found && dot > 0 {
        let mut r = String::new();
        let mut j: usize = 0;
        while j < dot
            invariant
                j <= dot < s.len(),
                r@ == s@.take(j as int),
            decreases dot - j,
        {
            push_char(&mut r, s[j]);
            assert(s@.take(j + 1) =~= s@.take(j as int).push(s@[j as int]));
            j = j + 1;
        }
        r.append(".tar.gz");
        r
    } else {
        concat_strs(dir, ".tar.gz")
    }
}

/// Whether the host is already booted under Edera: the install marker exists and the
/// hypervisor type (`None` when `/sys/hypervisor/type` does not exist, empty when it cannot be
/// read) is `xen`.
pub fn booted_under_edera(install_marker_exists: bool, hypervisor_type: &Option<String>) -> (r:
    bool)
    ensures
        r == (install_marker_exists && trimmed_is(opt_string_view(*hypervisor_type), "xen"@)),
{
    install_marker_exists && trimmed_is_exec(hypervisor_type, "xen")
}

/// Whether this process runs in the host's PID namespace: PID 2 exists and is `kthreadd`
/// (`pid2_comm` is the command name of PID 2, `None` when there is no PID 2).
pub fn in_host_pid_namespace(pid2_comm: &Option<String>) -> (r: bool)
    ensures
        r == trimmed_is(opt_string_view(*pid2_comm), "kthreadd"@),
{
    trimmed_is_exec(pid2_comm, "kthreadd")
}

/// The groups the preinstall command can run.
#[derive(Debug, PartialEq, Eq, Structural, Clone, Copy)]
pub enum PreinstallGroup {
    System,
    Pvh,
    Kernel,
    Iommu,
    Numa,
    ByoKernel,
    SystemRecorder,
}

/// The groups of a preinstall run, in the order they are listed.
pub open spec fn preinstall_groups_spec(byo_kernel: bool, record_hostinfo: bool) -> Seq<
    PreinstallGroup,
> {
    let base = seq![
        PreinstallGroup::System,
        PreinstallGroup::Pvh,
        PreinstallGroup::Kernel,
        PreinstallGroup::Iommu,
        PreinstallGroup::Numa,
    ];
    let with_byo = if byo_kernel {
        base.push(PreinstallGroup::ByoKernel)
    } else {
        base
    };
    if record_hostinfo {
        with_byo.push(PreinstallGroup::SystemRecorder)
    } else {
        with_byo
    }
}

/// The groups of a preinstall run: the five standard groups, then the bring-your-own-kernel
/// group when asked for, then the host recorder when host information is recorded.
pub fn preinstall_groups(byo_kernel: bool, record_hostinfo: bool) -> (r: Vec<PreinstallGroup>)
    ensures
        r@ == preinstall_groups_spec(byo_kernel, record_hostinfo),
{
    let mut r = Vec::new();
    r.push(PreinstallGroup::System);
    r.push(PreinstallGroup::Pvh);
    r.push(PreinstallGroup::Kernel);
    r.push(PreinstallGroup::Iommu);
    r.push(PreinstallGroup::Numa);
    if byo_kernel {
        r.push(PreinstallGroup::ByoKernel);
    }
    if record_hostinfo {
        r.push(PreinstallGroup::SystemRecorder);
    }
    assert(r@ =~= preinstall_groups_spec(byo_kernel, record_hostinfo));
    r
}

/// Which groups a run keeps and which requested identifiers are unknown.
pub struct Selection {
    /// Positions of the kept groups, in their listed order.
    pub kept: Vec<usize>,
    /// The requested identifiers that name no group, in the order they were requested.
    pub unknown: Vec<String>,
}

/// The positions `0..n`.
pub open spec fn all_positions(n: int) -> Seq<int> {
    Seq::new(n as nat, |i: int| i)
}

/// The positions of the groups (with identifiers `ids`) that `only` names.
pub open spec fn named_positions(ids: Seq<Seq<char>>, only: Seq<Seq<char>>) -> Seq<int>
    decreases ids.len(),
{
    if ids.len() == 0 {
        Seq::empty()
    } else {
        let prev = named_positions(ids.drop_last(), only);
        if only.contains(ids.last()) {
            prev.push(ids.len() - 1)
        } else {
            prev
        }
    }
}

/// The requested identifiers of `only` that are not among `ids`.
pub open spec fn unknown_ids(ids: Seq<Seq<char>>, only: Seq<Seq<char>>) -> Seq<Seq<char>>
    decreases only.len(),
{
    if only.len() == 0 {
        Seq::empty()
    } else {
        let prev = unknown_ids(ids, only.drop_last());
        if ids.contains(only.last()) {
            prev
        } else {
            prev.push(only.last())
        }
    }
}

/// A run restricted to `only` keeps exactly the groups whose identifier is requested, in the
/// order they are listed, and reports exactly the requested identifiers that name no group.
pub proof fn law_selection_keeps_exactly_requested(ids: Seq<Seq<char>>, only: Seq<Seq<char>>)
    ensures
        forall|i: int|
            0 <= i < ids.len() ==> (named_positions(ids, only).contains(i) <==> only.contains(
                #[trigger] ids[i],
            )),
        forall|k: int|
            0 <= k < named_positions(ids, only).len() ==> 0 <= #[trigger] named_positions(
                ids,
                only,
            )[k] < ids.len(),
        forall|k: int, l: int|
            0 <= k < l < named_positions(ids, only).len() ==> #[trigger] named_positions(
                ids,
                only,
            )[k] < #[trigger] named_positions(ids, only)[l],
        forall|u: Seq<char>| #[trigger]
            unknown_ids(ids, only).contains(u) <==> (only.contains(u) && !ids.contains(u)),
{
    lemma_named_positions(ids, only);
    lemma_unknown_ids(ids, only);
}

proof fn lemma_named_positions(ids: Seq<Seq<char>>, only: Seq<Seq<char>>)
    ensures
        forall|i: int|
            0 <= i < ids.len() ==> (named_positions(ids, only).contains(i) <==> only.contains(
                #[trigger] ids[i],
            )),
        forall|k: int|
            0 <= k < named_positions(ids, only).len() ==> 0 <= #[trigger] named_positions(
                ids,
                only,
            )[k] < ids.len(),
        forall|k: int, l: int|
            0 <= k < l < named_positions(ids, only).len() ==> #[trigger] named_positions(
                ids,
                only,
            )[k] < #[trigger] named_positions(ids, only)[l],
    decreases ids.len(),
{
    if ids.len() > 0 {
        let p = ids.drop_last();
        lemma_named_positions(p, only);
        let prev = named_positions(p, only);
        let cur = named_positions(ids, only);
        let last = ids.len() - 1;
        assert forall|i: int| 0 <= i < ids.len() implies (cur.contains(i) <==> only.contains(
            #[trigger] ids[i],
        )) by {
            if i < last {
                assert(ids[i] == p[i]);
                if cur.contains(i) {
                    let k = choose|k: int| 0 <= k < cur.len() && cur[k] == i;
                    if k < prev.len() {
                        assert(prev[k] == i);
                    }
                }
                if prev.contains(i) {
                    let k = choose|k: int| 0 <= k < prev.len() && prev[k] == i;
                    assert(cur[k] == i);
                }
            } else {
                if only.contains(ids[i]) {
                    assert(cur[cur.len() - 1] == i);
                } else if cur.contains(i) {
                    let k = choose|k: int| 0 <= k < cur.len() && cur[k] == i;
                    assert(prev[k] == i);
                }
            }
        }
    }
}

proof fn lemma_unknown_ids(ids: Seq<Seq<char>>, only: Seq<Seq<char>>)
    ensures
        forall|u: Seq<char>| #[trigger]
            unknown_ids(ids, only).contains(u) <==> (only.contains(u) && !ids.contains(u)),
    decreases only.len(),
{
    if only.len() > 0 {
        let p = only.drop_last();
        lemma_unknown_ids(ids, p);
        let prev = unknown_ids(ids, p);
        let cur = unknown_ids(ids, only);
        assert forall|u: Seq<char>| #[trigger] cur.contains(u) <==> (only.contains(u)
            && !ids.contains(u)) by {
            if only.contains(u) {
                let k = choose|k: int| 0 <= k < only.len() && only[k] == u;
                if k < only.len() - 1 {
                    assert(p[k] == u);
                }
            }
            if p.contains(u) {
                let k = choose|k: int| 0 <= k < p.len() && p[k] == u;
                assert(only[k] == u);
            }
            if cur.contains(u) && !prev.contains(u) {
                let k = choose|k: int| 0 <= k < cur.len() && cur[k] == u;
                assert(k == cur.len() - 1);
            }
            if prev.contains(u) {
                let k = choose|k: int| 0 <= k < prev.len() && prev[k] == u;
                assert(cur[k] == u);
            }
            if !ids.contains(only.last()) {
                assert(cur[cur.len() - 1] == only.last());
            }
        }
    }
}

/// Whether `needle` is among `hay`.
fn contains_string(hay: &Vec<String>, needle: &String) -> (r: bool)
    ensures
        r == string_views(hay@).contains(needle@),
{
    let n = chars_of(needle.as_str());
    let ghost v = string_views(hay@);
    let mut i: usize = 0;
    while i < hay.len()
        invariant
            i <= hay.len(),
            v == string_views(hay@),
            n@ == needle@,
            forall|j: int| 0 <= j < i ==> v[j] != needle@,
        decreases hay.len() - i,
    {
        let h = chars_of(hay[i].as_str());
        if chars_eq(&h, &n) {
            assert(v[i as int] == needle@);
            return true;
        }
        i = i + 1;
    }
    false
}

/// The groups to run when `only_checks` restricts them: with no restriction every group,
/// otherwise those whose identifier is requested; requested identifiers of no group are
/// reported.
pub fn select_groups(ids: &Vec<String>, only_checks: &Vec<String>) -> (r: Selection)
    ensures
        r.kept@.map_values(|i: usize| i as int) == (if only_checks.len() == 0 {
            all_positions(ids.len() as int)
        } else {
            named_positions(string_views(ids@), string_views(only_checks@))
        }),
        string_views(r.unknown@) == (if only_checks.len() == 0 {
            Seq::empty()
        } else {
            unknown_ids(string_views(ids@), string_views(only_checks@))
        }),
{
    let ghost iv = string_views(ids@);
    let ghost ov = string_views(only_checks@);
    let mut kept: Vec<usize> = Vec::new();
    let mut unknown: Vec<String> = Vec::new();
    if only_checks.len() == 0 {
        let mut i: usize = 0;
        while i < ids.len()
            invariant
                i <= ids.len(),
                kept@.map_values(|k: usize| k as int) == all_positions(i as int),
            decreases ids.len() - i,
        {
            let ghost before = kept@.map_values(|k: usize| k as int);
            kept.push(i);
            assert(kept@.map_values(|k: usize| k as int) =~= before.push(i as int));
            assert(before.push(i as int) =~= all_positions(i + 1));
            i = i + 1;
        }
        assert(string_views(unknown@) =~= Seq::<Seq<char>>::empty());
        return Selection { kept, unknown };
    }
    let mut j: usize = 0;
    assert(ov.take(0) =~= Seq::<Seq<char>>::empty());
    assert(string_views(unknown@) =~= Seq::<Seq<char>>::empty());
    while j < only_checks.len()
        invariant
            j <= only_checks.len(),
            iv == string_views(ids@),
            ov == string_views(only_checks@),
            string_views(unknown@) == unknown_ids(iv, ov.take(j as int)),
        decreases only_checks.len() - j,
    {
        assert(ov.take(j + 1).drop_last() =~= ov.take(j as int));
        assert(ov.take(j + 1).last() == only_checks@[j as int]@);
        if !contains_string(ids, &only_checks[j]) {
            let u = only_checks[j].clone();
            proof {
                assert(string_views(unknown@.push(u)) =~= string_views(unknown@).push(u@));
            }
            unknown.push(u);
        }
        j = j + 1;
    }
    assert(ov.take(only_checks.len() as int) =~= ov);
    let mut i: usize = 0;
    assert(iv.take(0) =~= Seq::<Seq<char>>::empty());
    assert(kept@.map_values(|k: usize| k as int) =~= Seq::<int>::empty());
    while i < ids.len()
        invariant
            i <= ids.len(),
            iv == string_views(ids@),
            ov == string_views(only_checks@),
            kept@.map_values(|k: usize| k as int) == named_positions(iv.take(i as int), ov),
        decreases ids.len() - i,
    {
        assert(iv.take(i + 1).drop_last() =~= iv.take(i as int));
        assert(iv.take(i + 1).last() == ids@[i as int]@);
        if contains_string(only_checks, &ids[i]) {
            let ghost before = kept@.map_values(|k: usize| k as int);
            kept.push(i);
            assert(kept@.map_values(|k: usize| k as int) =~= before.push(i as int));
        }
        i = i + 1;
    }
    assert(iv.take(ids.len() as int) =~= iv);
    Selection { kept, unknown }
}

/// The order in which the kept groups, of categories `categories`, run (positions into
/// `categories`).
pub fn run_order(categories: &Vec<CheckGroupCategory>) -> (r: Vec<usize>)
    ensures
        r@.map_values(|i: usize| i as int) == stable_order(category_views(categories@)),
{
    sort_by_category(categories)
}

/// The overall state of a run: the result of its Required groups and that of the others. A run
/// passes only when neither part failed or errored.
pub struct Overall {
    pub required: CheckResultValue,
    pub all: CheckResultValue,
}

/// How a group of category `cat` that gave `res` updates the overall state `(required, all)`:
/// a failure marks the Required result failed (unless it errored) when the group is Required,
/// and otherwise the other result (unless it errored); an error marks the Required result
/// errored when the group is Required, and otherwise the other result.
pub open spec fn overall_step(state: (ResultView, ResultView), cat: CategoryView, res: ResultView) -> (
    ResultView,
    ResultView,
) {
    let (req, all) = state;
    let (req1, all1) = if res is Failed {
        if cat is Required && !(req is Errored) {
            (ResultView::Failed("group failed"@), all)
        } else if !(all is Errored) {
            (req, ResultView::Failed("group failed"@))
        } else {
            (req, all)
        }
    } else {
        (req, all)
    };
    if res is Errored {
        if cat is Required {
            (ResultView::Errored("group errored"@), all1)
        } else {
            (req1, ResultView::Errored("group errored"@))
        }
    } else {
        (req1, all1)
    }
}

/// The overall state after groups of the given categories gave the given results, in order.
pub open spec fn overall_of(outcomes: Seq<(CategoryView, ResultView)>) -> (ResultView, ResultView)
    decreases outcomes.len(),
{
    if outcomes.len() == 0 {
        (ResultView::Passed, ResultView::Passed)
    } else {
        let (c, r) = outcomes.last();
        overall_step(overall_of(outcomes.drop_last()), c, r)
    }
}

impl Overall {
    /// The state before any group ran.
    pub fn new() -> (r: Overall)
        ensures
            (r.required@, r.all@) == overall_of(Seq::empty()),
    {
        Overall { required: CheckResultValue::Passed, all: CheckResultValue::Passed }
    }

    /// Takes in that a group of category `category` gave `result`.
    pub fn record(&mut self, category: &CheckGroupCategory, result: &CheckResultValue)
        ensures
            (final(self).required@, final(self).all@) == overall_step(
                (old(self).required@, old(self).all@),
                category@,
                result@,
            ),
    {
        if result.is_failed() {
            if category.is_required() && !self.required.is_errored() {
                self.required = CheckResultValue::Failed(String::from_str("group failed"));
            } else if !self.all.is_errored() {
                self.all = CheckResultValue::Failed(String::from_str("group failed"));
            }
        }
        if result.is_errored() {
            if category.is_required() {
                self.required = CheckResultValue::Errored(String::from_str("group errored"));
            } else {
                self.all = CheckResultValue::Errored(String::from_str("group errored"));
            }
        }
    }

    /// Whether the run passes: no group failed or errored, Required or not.
    pub fn passed(&self) -> (r: bool)
        ensures
            r == !(self.required@ is Failed || self.required@ is Errored || self.all@ is Failed
                || self.all@ is Errored),
    {
        !(self.required.is_failed() || self.required.is_errored() || self.all.is_failed()
            || self.all.is_errored())
    }

    /// Whether the Required groups of the run neither failed nor errored.
    pub fn required_passed(&self) -> (r: bool)
        ensures
            r == !(self.required@ is Failed || self.required@ is Errored),
    {
        !(self.required.is_failed() || self.required.is_errored())
    }
}

/// Whether a result is a failure or an error.
pub open spec fn is_bad(r: ResultView) -> bool {
    r is Failed || r is Errored
}

/// A run passes exactly when no group failed or errored, whatever its category.
pub proof fn law_run_passes_iff_no_group_failed(outcomes: Seq<(CategoryView, ResultView)>)
    ensures
        !(is_bad(overall_of(outcomes).0) || is_bad(overall_of(outcomes).1)) <==> (forall|i: int|
            0 <= i < outcomes.len() ==> !is_bad(#[trigger] outcomes[i].1)),
    decreases outcomes.len(),
{
    if outcomes.len() > 0 {
        let prev = outcomes.drop_last();
        law_run_passes_iff_no_group_failed(prev);
        let last = outcomes.len() - 1;
        let (c, r) = outcomes[last];
        assert(overall_of(outcomes) == overall_step(overall_of(prev), c, r));
        assert forall|i: int| 0 <= i < prev.len() implies #[trigger] prev[i] == outcomes[i] by {}
        let ok_all = forall|i: int| 0 <= i < outcomes.len() ==> !is_bad(#[trigger] outcomes[i].1);
        let ok_prev = forall|i: int| 0 <= i < prev.len() ==> !is_bad(#[trigger] prev[i].1);
        if ok_all {
            assert forall|i: int| 0 <= i < prev.len() implies !is_bad(#[trigger] prev[i].1) by {
                assert(outcomes[i] == prev[i]);
            }
            assert(outcomes[last] == (c, r));
        }
        if ok_prev && !is_bad(r) {
            assert forall|i: int| 0 <= i < outcomes.len() implies !is_bad(
                #[trigger] outcomes[i].1,
            ) by {
                if i < last {
                    assert(outcomes[i] == prev[i]);
                }
            }
        }
        if !ok_prev {
            let i = choose|i: int| 0 <= i < prev.len() && is_bad(#[trigger] prev[i].1);
            assert(outcomes[i] == prev[i]);
        }
        assert(ok_all == (ok_prev && !is_bad(r)));
    }
}

/// The Required part of a run's state is failed or errored exactly when some Required group
/// failed or errored, whatever the Optional and Advisory groups gave.
pub proof fn law_required_part_follows_required_groups(outcomes: Seq<(CategoryView, ResultView)>)
    ensures
        !(overall_of(outcomes).0 is Failed || overall_of(outcomes).0 is Errored) <==> (forall|
            i: int,
        |
            0 <= i < outcomes.len() && (#[trigger] outcomes[i]).0 is Required ==> !(
            outcomes[i].1 is Failed || outcomes[i].1 is Errored)),
    decreases outcomes.len(),
{
    if outcomes.len() > 0 {
        let prev = outcomes.drop_last();
        law_required_part_follows_required_groups(prev);
        let last = outcomes.len() - 1;
        let (c, r) = outcomes[last];
        assert(overall_of(outcomes) == overall_step(overall_of(prev), c, r));
        let bad_last = c is Required && (r is Failed || r is Errored);
        let ok_prev = forall|i: int|
            0 <= i < prev.len() && (#[trigger] prev[i]).0 is Required ==> !(prev[i].1 is Failed
                || prev[i].1 is Errored);
        let ok_all = forall|i: int|
            0 <= i < outcomes.len() && (#[trigger] outcomes[i]).0 is Required ==> !(
            outcomes[i].1 is Failed || outcomes[i].1 is Errored);
        assert forall|i: int| 0 <= i < prev.len() implies #[trigger] prev[i] == outcomes[i] by {}
        if ok_all {
            assert forall|i: int|
                0 <= i < prev.len() && (#[trigger] prev[i]).0 is Required implies !(
                prev[i].1 is Failed || prev[i].1 is Errored) by {
                assert(outcomes[i] == prev[i]);
            }
            assert(outcomes[last] == (c, r));
        }
        if ok_prev && !bad_last {
            assert forall|i: int|
                0 <= i < outcomes.len() && (#[trigger] outcomes[i]).0 is Required implies !(
                outcomes[i].1 is Failed || outcomes[i].1 is Errored) by {
                if i < last {
                    assert(outcomes[i] == prev[i]);
                }
            }
        }
        assert(ok_all == (ok_prev && !bad_last));
    }
}

} // verus!

verus! {

/// The length in bytes of a text (`str::len`), as `usize`.
pub open spec fn byte_len(s: Seq<char>) -> usize {
    vstd::utf8::encode_utf8(s).len() as usize
}

/// The largest byte length among `items`, and at least `floor`.
pub open spec fn width(items: Seq<Seq<char>>, floor: usize) -> usize
    decreases items.len(),
{
    if items.len() == 0 {
        floor
    } else {
        let w = width(items.drop_last(), floor);
        if byte_len(items.last()) > w {
            byte_len(items.last())
        } else {
            w
        }
    }
}

/// `n` copies of `c`.
pub open spec fn repeat(c: char, n: nat) -> Seq<char> {
    Seq::new(n, |i: int| c)
}

/// One row of the list of groups: the group's identifier and the spaces that align what
/// follows, its category and the spaces after it, and its description.
pub struct ListingRow {
    pub id: String,
    pub id_pad: String,
    pub category: String,
    pub category_pad: String,
    pub description: String,
}

/// The list of groups: a header line, a rule under it, and one row per group.
pub struct Listing {
    pub header: String,
    pub rule: String,
    pub rows: Vec<ListingRow>,
}

/// The header of the list, for columns `id_w` and `cat_w` wide.
pub open spec fn listing_header(id_w: usize, cat_w: usize) -> Seq<char> {
    "  ID"@ + repeat(' ', (id_w - 2) as nat) + "  Category"@ + repeat(' ', (cat_w - 8) as nat)
        + "  Description"@
}

/// The rule under the header.
pub open spec fn listing_rule(id_w: usize, cat_w: usize) -> Seq<char> {
    "  "@ + repeat('-', (id_w + 2 + cat_w + 2 + 11) as nat)
}

fn repeat_exec(c: char, n: usize) -> (r: String)
    ensures
        r@ == repeat(c, n as nat),
{
    let mut r = String::new();
    let mut i: usize = 0;
    while i < n
        invariant
            i <= n,
            r@ == repeat(c, i as nat),
        decreases n - i,
    {
        crate::text::push_char(&mut r, c);
        assert(r@ =~= repeat(c, (i + 1) as nat));
        i = i + 1;
    }
    r
}

fn width_exec(items: &Vec<String>, floor: usize) -> (r: usize)
    ensures
        r == width(string_views(items@), floor),
{
    let ghost v = string_views(items@);
    let mut w = floor;
    let mut i: usize = 0;
    assert(v.take(0) =~= Seq::<Seq<char>>::empty());
    while i < items.len()
        invariant
            i <= items.len(),
            v == string_views(items@),
            w == width(v.take(i as int), floor),
        decreases items.len() - i,
    {
        assert(v.take(i + 1).drop_last() =~= v.take(i as int));
        assert(v.take(i + 1).last() == items@[i as int]@);
        let l = items[i].as_str().len();
        if l > w {
            w = l;
        }
        i = i + 1;
    }
    assert(v.take(items.len() as int) =~= v);
    w
}

proof fn lemma_width_bounds(items: Seq<Seq<char>>, floor: usize, limit: usize)
    requires
        floor <= limit,
        forall|i: int| 0 <= i < items.len() ==> byte_len(#[trigger] items[i]) <= limit,
    ensures
        floor <= width(items, floor) <= limit,
        forall|i: int| 0 <= i < items.len() ==> byte_len(#[trigger] items[i]) <= width(items, floor),
    decreases items.len(),
{
    if items.len() > 0 {
        let p = items.drop_last();
        assert forall|i: int| 0 <= i < p.len() implies byte_len(#[trigger] p[i]) <= limit by {
            assert(p[i] == items[i]);
        }
        lemma_width_bounds(p, floor, limit);
        assert forall|i: int| 0 <= i < items.len() implies byte_len(#[trigger] items[i]) <= width(
            items,
            floor,
        ) by {
            if i < p.len() {
                assert(p[i] == items[i]);
            }
        }
    }
}

/// The rows of the list: each group's identifier padded to `id_w` bytes and its category
/// padded to `cat_w`, then its description.
pub open spec fn listing_rows(
    ids: Seq<Seq<char>>,
    cats: Seq<Seq<char>>,
    descs: Seq<Seq<char>>,
    id_w: usize,
    cat_w: usize,
) -> Seq<(Seq<char>, Seq<char>, Seq<char>, Seq<char>, Seq<char>)> {
    Seq::new(
        ids.len(),
        |i: int|
            (
                ids[i],
                repeat(' ', (id_w - byte_len(ids[i])) as nat),
                cats[i],
                repeat(' ', (cat_w - byte_len(cats[i])) as nat),
                descs[i],
            ),
    )
}

/// The views of the rows.
pub open spec fn row_views(rows: Seq<ListingRow>) -> Seq<
    (Seq<char>, Seq<char>, Seq<char>, Seq<char>, Seq<char>),
> {
    rows.map_values(
        |r: ListingRow| (r.id@, r.id_pad@, r.category@, r.category_pad@, r.description@),
    )
}

/// The identifier column is as wide as the longest identifier (and the "ID" heading), the
/// category column as the longest category (and the "Category" heading).
pub open spec fn listing_spec(
    ids: Seq<Seq<char>>,
    cats: Seq<Seq<char>>,
    descs: Seq<Seq<char>>,
    l: (Seq<char>, Seq<char>, Seq<(Seq<char>, Seq<char>, Seq<char>, Seq<char>, Seq<char>)>),
) -> bool {
    let id_w = width(ids, 2);
    let cat_w = width(cats, 8);
    &&& l.0 == listing_header(id_w, cat_w)
    &&& l.1 == listing_rule(id_w, cat_w)
    &&& l.2 == listing_rows(ids, cats, descs, id_w, cat_w)
}

/// The list of groups that `--list-checks` prints: identifiers, category names and
/// descriptions, in order.
pub fn list_groups(ids: &Vec<String>, categories: &Vec<String>, descriptions: &Vec<String>) -> (r:
    Listing)
    requires
        ids.len() == categories.len(),
        ids.len() == descriptions.len(),
        forall|i: int| 0 <= i < ids.len() ==> byte_len(#[trigger] ids@[i]@) <= usize::MAX / 4,
        forall|i: int| 0 <= i < categories.len() ==> byte_len(#[trigger] categories@[i]@) <= usize::MAX / 4,
    ensures
        listing_spec(
            string_views(ids@),
            string_views(categories@),
            string_views(descriptions@),
            (r.header@, r.rule@, row_views(r.rows@)),
        ),
{
    let ghost iv = string_views(ids@);
    let ghost cv = string_views(categories@);
    let ghost dv = string_views(descriptions@);
    proof {
        assert forall|i: int| 0 <= i < iv.len() implies byte_len(#[trigger] iv[i]) <= usize::MAX / 4 by {
            assert(iv[i] == ids@[i]@);
        }
        assert forall|i: int| 0 <= i < cv.len() implies byte_len(#[trigger] cv[i]) <= usize::MAX / 4 by {
            assert(cv[i] == categories@[i]@);
        }
        lemma_width_bounds(iv, 2, usize::MAX / 4);
        lemma_width_bounds(cv, 8, usize::MAX / 4);
    }
    let id_w = width_exec(ids, 2);
    let cat_w = width_exec(categories, 8);
    let mut header = String::from_str("  ID");
    header.append(repeat_exec(' ', id_w - 2).as_str());
    header.append("  Category");
    header.append(repeat_exec(' ', cat_w - 8).as_str());
    header.append("  Description");
    let mut rule = String::from_str("  ");
    rule.append(repeat_exec('-', id_w + 2 + cat_w + 2 + 11).as_str());
    let mut rows: Vec<ListingRow> = Vec::new();
    let mut i: usize = 0;
    while i < ids.len()
        invariant
            i <= ids.len(),
            ids.len() == categories.len(),
            ids.len() == descriptions.len(),
            iv == string_views(ids@),
            cv == string_views(categories@),
            dv == string_views(descriptions@),
            id_w == width(iv, 2),
            cat_w == width(cv, 8),
            forall|k: int| 0 <= k < iv.len() ==> byte_len(#[trigger] iv[k]) <= id_w,
            forall|k: int| 0 <= k < cv.len() ==> byte_len(#[trigger] cv[k]) <= cat_w,
            row_views(rows@) == listing_rows(iv, cv, dv, id_w, cat_w).take(i as int),
        decreases ids.len() - i,
    {
        assert(iv[i as int] == ids@[i as int]@);
        assert(cv[i as int] == categories@[i as int]@);
        assert(dv[i as int] == descriptions@[i as int]@);
        let il = ids[i].as_str().len();
        let cl = categories[i].as_str().len();
        let row = ListingRow {
            id: ids[i].clone(),
            id_pad: repeat_exec(' ', id_w - il),
            category: categories[i].clone(),
            category_pad: repeat_exec(' ', cat_w - cl),
            description: descriptions[i].clone(),
        };
        proof {
            assert(row_views(rows@.push(row)) =~= row_views(rows@).push(
                listing_rows(iv, cv, dv, id_w, cat_w)[i as int],
            ));
            assert(listing_rows(iv, cv, dv, id_w, cat_w).take(i + 1) =~= listing_rows(
                iv,
                cv,
                dv,
                id_w,
                cat_w,
            ).take(i as int).push(listing_rows(iv, cv, dv, id_w, cat_w)[i as int]));
        }
        rows.push(row);
        i = i + 1;
    }
    assert(listing_rows(iv, cv, dv, id_w, cat_w).take(ids.len() as int) =~= listing_rows(
        iv,
        cv,
        dv,
        id_w,
        cat_w,
    ));
    Listing { header, rule, rows }
}

} // verus!
