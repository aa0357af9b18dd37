//! The NUMA group: advises when the host has more than one NUMA node.
use vstd::prelude::*;

use crate::helpers::{
    group_from, group_outcome, Arch, CategoryView, CheckGroup, CheckGroupCategory, CheckGroupResult,
    CheckResult, CheckResultValue, CheckView, GroupView, ResultView,
};
use crate::text::{
    chars_of, concat_strs, decimal, starts_with, starts_with_exec, string_views, strip_prefix,
    u64_to_decimal,
};

verus! {

pub const GROUP_IDENTIFIER: &'static str = "numa";

pub const NAME: &'static str = "NUMA Checks";

/// Whether `c` is an ASCII digit.
pub open spec fn is_digit(c: char) -> bool {
    '0' <= c && c <= '9'
}

/// Whether a `/sys/devices/system/node` entry named `name` is a node: `"node"` followed only by
/// ASCII digits.
pub open spec fn is_node_name(name: Seq<char>) -> bool {
    match strip_prefix(name, "node"@) {
        Some(rest) => all_digits(rest),
        None => false,
    }
}

/// Whether every character of `s` is an ASCII digit.
pub open spec fn all_digits(s: Seq<char>) -> bool {
    forall|i: int| 0 <= i < s.len() ==> is_digit(#[trigger] s[i])
}

/// The number of node entries among `names`.
pub open spec fn node_count(names: Seq<Seq<char>>) -> nat
    decreases names.len(),
{
    if names.len() == 0 {
        0
    } else {
        node_count(names.drop_last()) + if is_node_name(names.last()) {
            1nat
        } else {
            0nat
        }
    }
}

/// The node count does not depend on where the entries stand: the count of two listings put
/// together is the sum of their counts, a single entry counts one exactly when it is named
/// `node` followed by digits, and so reordering the entries, or adding a non-node entry
/// anywhere, leaves the count unchanged.
pub proof fn law_node_count_counts_every_node_entry(a: Seq<Seq<char>>, b: Seq<Seq<char>>, n: Seq<char>)
    ensures
        node_count(a + b) == node_count(a) + node_count(b),
        node_count(seq![n]) == (if is_node_name(n) {
            1nat
        } else {
            0nat
        }),
        node_count(a + b) == node_count(b + a),
        !is_node_name(n) ==> node_count(a + seq![n] + b) == node_count(a + b),
{
    let one = seq![n];
    assert(one.drop_last() =~= Seq::<Seq<char>>::empty());
    assert(node_count(one.drop_last()) == 0);
    assert(one.last() == n);
    lemma_node_count_add(a, b);
    lemma_node_count_add(b, a);
    lemma_node_count_add(a, one);
    lemma_node_count_add(a + one, b);
}

proof fn lemma_node_count_add(a: Seq<Seq<char>>, b: Seq<Seq<char>>)
    ensures
        node_count(a + b) == node_count(a) + node_count(b),
    decreases b.len(),
{
    if b.len() == 0 {
        assert(a + b =~= a);
    } else {
        lemma_node_count_add(a, b.drop_last());
        assert((a + b).drop_last() =~= a + b.drop_last());
        assert((a + b).last() == b.last());
    }
}

/// Whether `name` names a NUMA node.
pub fn is_node_name_exec(name: &String) -> (r: bool)
    ensures
        r == is_node_name(name@),
{
    let n = chars_of(name.as_str());
    let p = chars_of("node");
    proof {
        reveal_strlit("node");
    }
    if !starts_with_exec(&n, &p) {
        return false;
    }
    let ghost rest = n@.skip(4);
    let mut i: usize = 4;
    while i < n.len()
        invariant
            4 <= i <= n.len(),
            p@ == "node"@,
            p@.len() == 4,
            n@ == name@,
            starts_with(n@, p@),
            rest == n@.skip(4),
            forall|j: int| 0 <= j < i - 4 ==> is_digit(#[trigger] rest[j]),
        decreases n.len() - i,
    {
        if !('0' <= n[i] && n[i] <= '9') {
            assert(strip_prefix(name@, "node"@) == Some(rest));
            assert(!is_digit(rest[i - 4]));
            return false;
        }
        i = i + 1;
    }
    true
}

/// The number of NUMA nodes among the entries named `names`.
pub fn count_nodes(names: &Vec<String>) -> (r: u64)
    requires
        names.len() <= u64::MAX,
    ensures
        r == node_count(string_views(names@)),
{
    let ghost v = string_views(names@);
    let mut count: u64 = 0;
    let mut i: usize = 0;
    assert(v.take(0) =~= Seq::<Seq<char>>::empty());
    while i < names.len()
        invariant
            i <= names.len() <= u64::MAX,
            v == string_views(names@),
            count == node_count(v.take(i as int)),
            count <= i,
        decreases names.len() - i,
    {
        assert(v.take(i + 1).drop_last() =~= v.take(i as int));
        assert(v.take(i + 1).last() == names@[i as int]@);
        if is_node_name_exec(&names[i]) {
            count = count + 1;
        }
        i = i + 1;
    }
    assert(v.take(names.len() as int) =~= v);
    count
}

/// What the NUMA check gives for the entries of `/sys/devices/system/node` (or the error met
/// listing them); it keeps the name under which the group has always reported it.
pub open spec fn numa_view(entries: Result<Seq<Seq<char>>, Seq<char>>) -> CheckView {
    CheckView {
        name: "IOMMU Support"@,
        output: None,
        result: match entries {
            Ok(names) => if node_count(names) <= 1 {
                ResultView::Passed
            } else {
                ResultView::Failed(decimal(node_count(names)) + " NUMA nodes detected"@)
            },
            Err(e) => ResultView::Errored(e),
        },
    }
}

/// The view of a listing of names.
pub open spec fn names_view(r: Result<Vec<String>, String>) -> Result<Seq<Seq<char>>, Seq<char>> {
    match r {
        Ok(v) => Ok(string_views(v@)),
        Err(e) => Err(e@),
    }
}

pub struct NUMAChecks;

impl NUMAChecks {
    pub fn new() -> (r: NUMAChecks) {
        NUMAChecks
    }

    /// Checks that the host has at most one NUMA node.
    pub fn check_numa(&self, entries: &Result<Vec<String>, String>) -> (r: CheckResult)
        requires
            entries matches Ok(v) ==> v.len() <= u64::MAX,
        ensures
            r@ == numa_view(names_view(*entries)),
    {
        let name = "IOMMU Support";
        match entries {
            Ok(names) => {
                let count = count_nodes(names);
                if count <= 1 {
                    CheckResult::new(name, CheckResultValue::Passed)
                } else {
                    let n = u64_to_decimal(count);
                    CheckResult::new(
                        name,
                        CheckResultValue::Failed(concat_strs(n.as_str(), " NUMA nodes detected")),
                    )
                }
            },
            Err(e) => CheckResult::new(name, CheckResultValue::Errored(e.clone())),
        }
    }

    /// The group's result; on other architectures than x86-64 no check runs.
    pub fn run_all(&self, arch: Arch, entries: &Result<Vec<String>, String>) -> (r:
        CheckGroupResult)
        requires
            entries matches Ok(v) ==> v.len() <= u64::MAX,
        ensures
            arch is X86_64 ==> r@ == (GroupView {
                name: NAME@,
                result: group_outcome(
                    seq![numa_view(names_view(*entries))],
                    "group errored"@,
                    "group errored"@,
                ),
                results: seq![numa_view(names_view(*entries))],
            }),
            !(arch is X86_64) ==> r@ == (GroupView {
                name: NAME@,
                result: ResultView::Unknown,
                results: Seq::empty(),
            }),
    {
        match arch {
            Arch::X86_64 => {
                let mut results = Vec::new();
                results.push(self.check_numa(entries));
                let r = group_from(NAME, results, "group errored", "group errored");
                assert(r@.results =~= seq![numa_view(names_view(*entries))]);
                r
            },
            _ => CheckGroupResult::new(NAME),
        }
    }
}

impl CheckGroup for NUMAChecks {
    fn name(&self) -> (r: &str)
        ensures
            r@ == NAME@,
    {
        NAME
    }

    fn id(&self) -> (r: &str)
        ensures
            r@ == GROUP_IDENTIFIER@,
    {
        GROUP_IDENTIFIER
    }

    fn description(&self) -> (r: &str)
        ensures
            r@ == "NUMA capability checks"@,
    {
        "NUMA capability checks"
    }

    fn category(&self) -> (r: CheckGroupCategory)
        ensures
            r@ == CategoryView::Advisory,
    {
        CheckGroupCategory::Advisory
    }
}

} // verus!
