//! Which required kernel modules the running kernel lacks, and whether its version is new
//! enough.
use vstd::prelude::*;

use crate::helpers::{CheckResult, CheckResultValue, CheckView, ResultView};
use crate::text::{
    chars_of, chars_eq, concat_strs, contains_exec, contains_sub, lines, lines_exec, split,
    split_exec, string_views, char_views,
};

verus! {

/// How a line of a kernel listing is matched against a module name.
#[derive(Debug, PartialEq, Eq, Structural, Clone, Copy)]
pub enum ModuleSource {
    /// A line of `modules.builtin`: matches when it contains the name.
    Builtin,
    /// The name of a loaded module: matches when it equals the name.
    Loaded,
    /// A line of `modules.dep`: matches when the module path before its first `':'` contains
    /// the name.
    Loadable,
}

/// Whether `line` of a listing from `source` matches module `name`.
pub open spec fn line_matches(source: ModuleSource, line: Seq<char>, name: Seq<char>) -> bool {
    match source {
        ModuleSource::Builtin => contains_sub(line, name),
        ModuleSource::Loaded => line == name,
        ModuleSource::Loadable => contains_sub(split(line, ':')[0], name),
    }
}

/// The position of the first name in `names` that `line` matches, or `names.len()`.
pub open spec fn first_match(source: ModuleSource, line: Seq<char>, names: Seq<Seq<char>>) -> int
    decreases names.len(),
{
    if names.len() == 0 {
        0
    } else if line_matches(source, line, names[0]) {
        0
    } else {
        1 + first_match(source, line, names.drop_first())
    }
}

/// `names` without the first name that `line` matches.
pub open spec fn after_line(source: ModuleSource, names: Seq<Seq<char>>, line: Seq<char>) -> Seq<
    Seq<char>,
> {
    let i = first_match(source, line, names);
    if i < names.len() {
        names.remove(i)
    } else {
        names
    }
}

/// The names of `names` still not found once every line of `ls` has removed the first name
/// it matches.
pub open spec fn still_missing(source: ModuleSource, names: Seq<Seq<char>>, ls: Seq<Seq<char>>) -> Seq<
    Seq<char>,
>
    decreases ls.len(),
{
    if ls.len() == 0 {
        names
    } else {
        after_line(source, still_missing(source, names, ls.drop_last()), ls.last())
    }
}

proof fn lemma_first_match_bounds(source: ModuleSource, line: Seq<char>, names: Seq<Seq<char>>)
    ensures
        0 <= first_match(source, line, names) <= names.len(),
        first_match(source, line, names) < names.len() ==> line_matches(
            source,
            line,
            names[first_match(source, line, names)],
        ),
        forall|j: int|
            0 <= j < first_match(source, line, names) ==> !line_matches(source, line, names[j]),
    decreases names.len(),
{
    if names.len() > 0 && !line_matches(source, line, names[0]) {
        lemma_first_match_bounds(source, line, names.drop_first());
        assert forall|j: int|
            0 <= j < first_match(source, line, names) implies !line_matches(
            source,
            line,
            names[j],
        ) by {
            if j > 0 {
                assert(names[j] == names.drop_first()[j - 1]);
            }
        }
    }
}

proof fn lemma_first_match_unique(
    source: ModuleSource,
    line: Seq<char>,
    names: Seq<Seq<char>>,
    k: int,
)
    requires
        0 <= k <= names.len(),
        forall|j: int| 0 <= j < k ==> !line_matches(source, line, names[j]),
        k < names.len() ==> line_matches(source, line, names[k]),
    ensures
        first_match(source, line, names) == (if k < names.len() {
            k
        } else {
            names.len() as int
        }),
{
    lemma_first_match_bounds(source, line, names);
    let f = first_match(source, line, names);
    if f < k {
        assert(!line_matches(source, line, names[f]));
    }
    if k < names.len() && k < f {
        assert(line_matches(source, line, names[k]));
    }
}

/// Whether `line` of a listing from `source` matches module `name`.
fn line_matches_exec(source: ModuleSource, line: &Vec<char>, name: &Vec<char>) -> (r: bool)
    ensures
        r == line_matches(source, line@, name@),
{
    match source {
        ModuleSource::Builtin => contains_exec(line, name),
        ModuleSource::Loaded => chars_eq(line, name),
        ModuleSource::Loadable => {
            let parts = split_exec(line, ':');
            proof {
                lemma_split_nonempty(line@, ':');
            }
            assert(char_views(parts@)[0] == parts@[0]@);
            contains_exec(&parts[0], name)
        },
    }
}

/// `split` always gives at least one piece.
pub(crate) proof fn lemma_split_nonempty(s: Seq<char>, sep: char)
    ensures
        split(s, sep).len() >= 1,
{
    lemma_split_from_nonempty(Seq::empty(), s, sep);
}

proof fn lemma_split_from_nonempty(cur: Seq<char>, rest: Seq<char>, sep: char)
    ensures
        crate::text::split_from(cur, rest, sep).len() >= 1,
    decreases rest.len(),
{
    if rest.len() > 0 {
        if rest[0] == sep {
            lemma_split_from_nonempty(Seq::empty(), rest.drop_first(), sep);
        } else {
            lemma_split_from_nonempty(cur.push(rest[0]), rest.drop_first(), sep);
        }
    }
}

/// A copy of a vector of strings.
pub fn clone_strings(v: &Vec<String>) -> (r: Vec<String>)
    ensures
        r@ == v@,
{
    let mut r: Vec<String> = Vec::new();
    let mut i: usize = 0;
    while i < v.len()
        invariant
            i <= v.len(),
            r@ == v@.take(i as int),
        decreases v.len() - i,
    {
        r.push(v[i].clone());
        assert(v@.take(i + 1) =~= v@.take(i as int).push(v@[i as int]));
        i = i + 1;
    }
    assert(v@.take(v.len() as int) =~= v@);
    r
}

/// Removes from `names` the first name that `line` matches, and gives it back.
fn remove_first_match(source: ModuleSource, names: &mut Vec<String>, line: &Vec<char>) -> (r:
    Option<String>)
    ensures
        string_views(final(names)@) == after_line(source, string_views(old(names)@), line@),
        match r {
            Some(n) => first_match(source, line@, string_views(old(names)@)) < old(names)@.len()
                && n@ == string_views(old(names)@)[first_match(
                source,
                line@,
                string_views(old(names)@),
            )],
            None => first_match(source, line@, string_views(old(names)@)) >= old(names)@.len(),
        },
{
    let ghost ns = string_views(names@);
    let mut i: usize = 0;
    while i < names.len()
        invariant
            i <= names.len(),
            ns == string_views(names@),
            names@ == old(names)@,
            forall|j: int| 0 <= j < i ==> !line_matches(source, line@, ns[j]),
        decreases names.len() - i,
    {
        let n = chars_of(names[i].as_str());
        if line_matches_exec(source, line, &n) {
            proof {
                lemma_first_match_unique(source, line@, ns, i as int);
            }
            let removed = names.remove(i);
            assert(string_views(names@) =~= ns.remove(i as int));
            return Some(removed);
        }
        i = i + 1;
    }
    proof {
        lemma_first_match_unique(source, line@, ns, ns.len() as int);
    }
    None
}

/// The names of `required` that remain once every line of `listing` has removed the first
/// name it matches.
pub fn remaining_after(source: ModuleSource, listing: &Vec<Vec<char>>, required: &Vec<String>) -> (r:
    Vec<String>)
    ensures
        string_views(r@) == still_missing(source, string_views(required@), char_views(listing@)),
{
    let mut names = clone_strings(required);
    let ghost ls = char_views(listing@);
    let mut i: usize = 0;
    assert(ls.take(0) =~= Seq::<Seq<char>>::empty());
    while i < listing.len()
        invariant
            i <= listing.len(),
            ls == char_views(listing@),
            string_views(names@) == still_missing(
                source,
                string_views(required@),
                ls.take(i as int),
            ),
        decreases listing.len() - i,
    {
        assert(ls.take(i + 1).drop_last() =~= ls.take(i as int));
        assert(ls.take(i + 1).last() == listing@[i as int]@);
        let _ = remove_first_match(source, &mut names, &listing[i]);
        i = i + 1;
    }
    assert(ls.take(listing.len() as int) =~= ls);
    names
}

/// The names of `names` that the lines of `ls` find, in the order the lines find them: each
/// line finds the first name it matches among those not yet found.
pub open spec fn found_by(source: ModuleSource, names: Seq<Seq<char>>, ls: Seq<Seq<char>>) -> Seq<
    Seq<char>,
>
    decreases ls.len(),
{
    if ls.len() == 0 {
        Seq::empty()
    } else {
        let prev = still_missing(source, names, ls.drop_last());
        let i = first_match(source, ls.last(), prev);
        found_by(source, names, ls.drop_last()) + if i < prev.len() {
            seq![prev[i]]
        } else {
            Seq::<Seq<char>>::empty()
        }
    }
}

/// The names of `required` that the lines of `listing` find, in the order they are found.
fn found_after(source: ModuleSource, listing: &Vec<Vec<char>>, required: &Vec<String>) -> (r: Vec<
    String,
>)
    ensures
        string_views(r@) == found_by(source, string_views(required@), char_views(listing@)),
{
    let mut names = clone_strings(required);
    let mut found: Vec<String> = Vec::new();
    let ghost ls = char_views(listing@);
    let mut i: usize = 0;
    assert(ls.take(0) =~= Seq::<Seq<char>>::empty());
    assert(string_views(found@) =~= Seq::<Seq<char>>::empty());
    while i < listing.len()
        invariant
            i <= listing.len(),
            ls == char_views(listing@),
            string_views(names@) == still_missing(
                source,
                string_views(required@),
                ls.take(i as int),
            ),
            string_views(found@) == found_by(source, string_views(required@), ls.take(i as int)),
        decreases listing.len() - i,
    {
        assert(ls.take(i + 1).drop_last() =~= ls.take(i as int));
        assert(ls.take(i + 1).last() == listing@[i as int]@);
        let ghost before = string_views(found@);
        match remove_first_match(source, &mut names, &listing[i]) {
            Some(n) => {
                found.push(n);
                assert(string_views(found@) =~= before + seq![n@]);
            },
            None => {
                assert(before + Seq::<Seq<char>>::empty() =~= before);
            },
        }
        i = i + 1;
    }
    assert(ls.take(listing.len() as int) =~= ls);
    found
}

/// The position of the first name of `names` equal to `x`, or `names.len()`.
pub open spec fn first_eq(names: Seq<Seq<char>>, x: Seq<char>) -> int
    decreases names.len(),
{
    if names.len() == 0 {
        0
    } else if names[0] == x {
        0
    } else {
        1 + first_eq(names.drop_first(), x)
    }
}

/// `names` without its first name equal to `x`, if any.
pub open spec fn remove_first_eq(names: Seq<Seq<char>>, x: Seq<char>) -> Seq<Seq<char>> {
    let i = first_eq(names, x);
    if i < names.len() {
        names.remove(i)
    } else {
        names
    }
}

/// `a` without the names of `b`, each name of `b` taking away one equal name of `a`.
pub open spec fn without(a: Seq<Seq<char>>, b: Seq<Seq<char>>) -> Seq<Seq<char>>
    decreases b.len(),
{
    if b.len() == 0 {
        a
    } else {
        remove_first_eq(without(a, b.drop_last()), b.last())
    }
}

proof fn lemma_first_eq_of_match(source: ModuleSource, line: Seq<char>, names: Seq<Seq<char>>)
    requires
        first_match(source, line, names) < names.len(),
    ensures
        first_eq(names, names[first_match(source, line, names)]) == first_match(
            source,
            line,
            names,
        ),
    decreases names.len(),
{
    lemma_first_match_bounds(source, line, names);
    let i = first_match(source, line, names);
    if i > 0 {
        assert(!line_matches(source, line, names[0]));
        assert(names[0] != names[i]);
        lemma_first_eq_of_match(source, line, names.drop_first());
        assert(names.drop_first()[i - 1] == names[i]);
    }
}

/// Taking the names that the lines find away from the names leaves those still missing.
proof fn lemma_without_found(source: ModuleSource, names: Seq<Seq<char>>, ls: Seq<Seq<char>>)
    ensures
        without(names, found_by(source, names, ls)) == still_missing(source, names, ls),
    decreases ls.len(),
{
    if ls.len() > 0 {
        let p = ls.drop_last();
        lemma_without_found(source, names, p);
        let prev = still_missing(source, names, p);
        let i = first_match(source, ls.last(), prev);
        let fp = found_by(source, names, p);
        let f = found_by(source, names, ls);
        lemma_first_match_bounds(source, ls.last(), prev);
        if i < prev.len() {
            assert(f == fp.push(prev[i]));
            assert(f.drop_last() =~= fp);
            lemma_first_eq_of_match(source, ls.last(), prev);
        } else {
            assert(f =~= fp);
        }
    }
}

/// `a` without the names of `b`.
fn without_exec(a: &Vec<String>, b: &Vec<String>) -> (r: Vec<String>)
    ensures
        string_views(r@) == without(string_views(a@), string_views(b@)),
{
    let mut r = clone_strings(a);
    let ghost bv = string_views(b@);
    let mut k: usize = 0;
    assert(bv.take(0) =~= Seq::<Seq<char>>::empty());
    while k < b.len()
        invariant
            k <= b.len(),
            bv == string_views(b@),
            string_views(r@) == without(string_views(a@), bv.take(k as int)),
        decreases b.len() - k,
    {
        assert(bv.take(k + 1).drop_last() =~= bv.take(k as int));
        assert(bv.take(k + 1).last() == b@[k as int]@);
        let x = chars_of(b[k].as_str());
        let ghost rv = string_views(r@);
        let mut j: usize = 0;
        while j < r.len()
            invariant
                j <= r.len(),
                rv == string_views(r@),
                x@ == bv[k as int],
                forall|m: int| 0 <= m < j ==> rv[m] != x@,
            ensures
                j <= r.len(),
                forall|m: int| 0 <= m < j ==> rv[m] != x@,
                j < r.len() ==> rv[j as int] == x@,
            decreases r.len() - j,
        {
            let y = chars_of(r[j].as_str());
            if chars_eq(&y, &x) {
                break;
            }
            j = j + 1;
        }
        proof {
            lemma_first_eq_at(rv, x@, j as int);
        }
        if j < r.len() {
            let _ = r.remove(j);
            assert(string_views(r@) =~= rv.remove(j as int));
        }
        k = k + 1;
    }
    assert(bv.take(b.len() as int) =~= bv);
    r
}

proof fn lemma_first_eq_at(names: Seq<Seq<char>>, x: Seq<char>, j: int)
    requires
        0 <= j <= names.len(),
        forall|m: int| 0 <= m < j ==> names[m] != x,
        j < names.len() ==> names[j] == x,
    ensures
        first_eq(names, x) == j,
    decreases names.len(),
{
    if names.len() > 0 && j > 0 {
        lemma_first_eq_at(names.drop_first(), x, j - 1);
    }
}

/// The required modules that `modules.builtin` (its text is `builtins`) does not list.
pub fn find_builtins(builtins: &str, required_modules: &Vec<String>) -> (r: Vec<String>)
    ensures
        string_views(r@) == still_missing(
            ModuleSource::Builtin,
            string_views(required_modules@),
            lines(builtins@),
        ),
{
    let ls = lines_exec(builtins);
    remaining_after(ModuleSource::Builtin, &ls, required_modules)
}

/// The required modules that are not among the `loaded` module names.
pub fn find_loaded(loaded: &Vec<String>, required_modules: &Vec<String>) -> (r: Vec<String>)
    ensures
        string_views(r@) == still_missing(
            ModuleSource::Loaded,
            string_views(required_modules@),
            string_views(loaded@),
        ),
{
    let mut ls: Vec<Vec<char>> = Vec::new();
    let mut i: usize = 0;
    while i < loaded.len()
        invariant
            i <= loaded.len(),
            char_views(ls@) == string_views(loaded@).take(i as int),
        decreases loaded.len() - i,
    {
        let c = chars_of(loaded[i].as_str());
        proof {
            assert(char_views(ls@.push(c)) =~= char_views(ls@).push(c@));
            assert(string_views(loaded@).take(i + 1) =~= string_views(loaded@).take(i as int).push(
                loaded@[i as int]@,
            ));
        }
        ls.push(c);
        i = i + 1;
    }
    assert(string_views(loaded@).take(loaded.len() as int) =~= string_views(loaded@));
    remaining_after(ModuleSource::Loaded, &ls, required_modules)
}

/// The required modules that are available to load: those that `modules.dep` (its text is
/// `deps`) lists, in the order its lines name them. Each line finds the first required module
/// not yet found that the module path before its first `':'` contains.
pub fn find_loadable(deps: &str, required_modules: &Vec<String>) -> (r: Vec<String>)
    ensures
        string_views(r@) == found_by(
            ModuleSource::Loadable,
            string_views(required_modules@),
            lines(deps@),
        ),
{
    let ls = lines_exec(deps);
    found_after(ModuleSource::Loadable, &ls, required_modules)
}

/// A module that is built in cannot be reported missing: once a `modules.builtin` line
/// naming it (and matching no earlier missing module) is read, it leaves the missing list,
/// whatever lines follow.
pub proof fn law_matched_line_removes_module(
    source: ModuleSource,
    names: Seq<Seq<char>>,
    line: Seq<char>,
    i: int,
)
    requires
        0 <= i < names.len(),
        line_matches(source, line, names[i]),
        forall|j: int| 0 <= j < i ==> !line_matches(source, line, names[j]),
    ensures
        after_line(source, names, line) == names.remove(i),
        after_line(source, names, line).len() == names.len() - 1,
{
    lemma_first_match_unique(source, line, names, i);
}

/// The modules still missing are always some of the required ones: no lookup adds a name.
pub proof fn law_missing_are_required(
    source: ModuleSource,
    names: Seq<Seq<char>>,
    ls: Seq<Seq<char>>,
)
    ensures
        forall|k: int|
            0 <= k < still_missing(source, names, ls).len() ==> names.contains(
                #[trigger] still_missing(source, names, ls)[k],
            ),
        still_missing(source, names, ls).len() <= names.len(),
    decreases ls.len(),
{
    if ls.len() > 0 {
        let prev = still_missing(source, names, ls.drop_last());
        law_missing_are_required(source, names, ls.drop_last());
        lemma_first_match_bounds(source, ls.last(), prev);
        let cur = still_missing(source, names, ls);
        assert forall|k: int| 0 <= k < cur.len() implies names.contains(#[trigger] cur[k]) by {
            let i = first_match(source, ls.last(), prev);
            if i < prev.len() {
                if k < i {
                    assert(cur[k] == prev[k]);
                } else {
                    assert(cur[k] == prev[k + 1]);
                }
            } else {
                assert(cur[k] == prev[k]);
            }
        }
    }
}

/// The `Debug` text of a list of strings (`format!("{:?}", list)`).
pub uninterp spec fn debug_list_text(items: Seq<Seq<char>>) -> Seq<char>;

/// `format!("{:?}", items)`: std's `Debug` rendering of a `Vec<String>`. Its result is taken
/// to be a function of the strings alone, named `debug_list_text`; how it quotes and escapes
/// them is left unstated.
#[verifier::external_body]
pub(crate) fn debug_list(items: &Vec<String>) -> (r: String)
    ensures
        r@ == debug_list_text(string_views(items@)),
{
    format!("{:?}", items)
}

/// What was read from the host to find kernel modules: the text of `modules.builtin`, the
/// names of the loaded modules and the text of `modules.dep`, or the error met reading each.
pub struct ModuleListings {
    pub builtins: Result<String, String>,
    pub loaded: Result<Vec<String>, String>,
    pub deps: Result<String, String>,
}

/// The view of a string result.
pub open spec fn res_view(r: Result<String, String>) -> Result<Seq<char>, Seq<char>> {
    match r {
        Ok(s) => Ok(s@),
        Err(e) => Err(e@),
    }
}

/// The view of a result holding strings.
pub open spec fn res_list_view(r: Result<Vec<String>, String>) -> Result<Seq<Seq<char>>, Seq<char>> {
    match r {
        Ok(v) => Ok(string_views(v@)),
        Err(e) => Err(e@),
    }
}

/// The outcome of looking for the `required` modules in the listings: the first listing that
/// could not be read makes the check errored; otherwise it fails, naming the modules that are
/// neither built in, nor loaded, nor loadable, or passes when there is none.
pub open spec fn modules_outcome(
    builtins: Result<Seq<char>, Seq<char>>,
    loaded: Result<Seq<Seq<char>>, Seq<char>>,
    deps: Result<Seq<char>, Seq<char>>,
    required: Seq<Seq<char>>,
) -> ResultView {
    match builtins {
        Err(e) => ResultView::Errored("getting kernel builtins "@ + e),
        Ok(b) => {
            let after_builtin = still_missing(ModuleSource::Builtin, required, lines(b));
            match loaded {
                Err(e) => ResultView::Errored("getting kernel modules "@ + e),
                Ok(l) => {
                    let after_loaded = still_missing(ModuleSource::Loaded, after_builtin, l);
                    match deps {
                        Err(e) => ResultView::Errored("getting kernel modules "@ + e),
                        Ok(d) => {
                            let missing = still_missing(ModuleSource::Loadable, after_loaded, lines(d));
                            if missing.len() == 0 {
                                ResultView::Passed
                            } else {
                                ResultView::Failed("missing "@ + debug_list_text(missing))
                            }
                        },
                    }
                },
            }
        },
    }
}

/// The check, named `name`, that the `required` modules are built into, loaded by, or
/// loadable on the running kernel.
pub fn check_modules(name: &str, listings: &ModuleListings, required: &Vec<String>) -> (r:
    CheckResult)
    ensures
        r@ == (CheckView {
            name: name@,
            output: None,
            result: modules_outcome(
                res_view(listings.builtins),
                res_list_view(listings.loaded),
                res_view(listings.deps),
                string_views(required@),
            ),
        }),
{
    let remaining = match &listings.builtins {
        Err(e) => {
            return CheckResult::new(
                name,
                CheckResultValue::Errored(concat_strs("getting kernel builtins ", e.as_str())),
            );
        },
        Ok(b) => find_builtins(b.as_str(), required),
    };
    let remaining = match &listings.loaded {
        Err(e) => {
            return CheckResult::new(
                name,
                CheckResultValue::Errored(concat_strs("getting kernel modules ", e.as_str())),
            );
        },
        Ok(l) => find_loaded(l, &remaining),
    };
    let remaining = match &listings.deps {
        Err(e) => {
            return CheckResult::new(
                name,
                CheckResultValue::Errored(concat_strs("getting kernel modules ", e.as_str())),
            );
        },
        Ok(d) => {
            let loadable = find_loadable(d.as_str(), &remaining);
            proof {
                lemma_without_found(
                    ModuleSource::Loadable,
                    string_views(remaining@),
                    lines(d@),
                );
            }
            without_exec(&remaining, &loadable)
        },
    };
    if remaining.len() > 0 {
        let listed = debug_list(&remaining);
        return CheckResult::new(
            name,
            CheckResultValue::Failed(concat_strs("missing ", listed.as_str())),
        );
    }
    CheckResult::new(name, CheckResultValue::Passed)
}

/// Strings holding the given names, in order.
pub fn strings_of(names: &[&str]) -> (r: Vec<String>)
    ensures
        string_views(r@) == names@.map_values(|n: &str| n@),
{
    let mut r: Vec<String> = Vec::new();
    let mut i: usize = 0;
    while i < names.len()
        invariant
            i <= names.len(),
            string_views(r@) == names@.map_values(|n: &str| n@).take(i as int),
        decreases names.len() - i,
    {
        let s = String::from_str(names[i]);
        proof {
            assert(string_views(r@.push(s)) =~= string_views(r@).push(s@));
            assert(names@.map_values(|n: &str| n@).take(i + 1) =~= names@.map_values(
                |n: &str| n@,
            ).take(i as int).push(names@[i as int]@));
        }
        r.push(s);
        i = i + 1;
    }
    assert(names@.map_values(|n: &str| n@).take(names.len() as int) =~= names@.map_values(
        |n: &str| n@,
    ));
    r
}

/// A kernel release as `major.minor.patch`.
#[derive(Debug, PartialEq, Eq, Structural, Clone, Copy)]
pub struct KernelVersion {
    pub major: u8,
    pub minor: u8,
    pub patch: u16,
}

/// Whether `a` is an older release than `b` (by major, then minor, then patch).
pub open spec fn version_lt(a: KernelVersion, b: KernelVersion) -> bool {
    a.major < b.major || (a.major == b.major && (a.minor < b.minor || (a.minor == b.minor
        && a.patch < b.patch)))
}

impl KernelVersion {
    pub fn new(major: u8, minor: u8, patch: u16) -> (r: KernelVersion)
        ensures
            r == (KernelVersion { major, minor, patch }),
    {
        KernelVersion { major, minor, patch }
    }

    /// Whether this release is older than `other`.
    pub fn older_than(&self, other: &KernelVersion) -> (r: bool)
        ensures
            r == version_lt(*self, *other),
    {
        self.major < other.major || (self.major == other.major && (self.minor < other.minor || (
        self.minor == other.minor && self.patch < other.patch)))
    }
}

/// Whether `current` is at least `floor`.
pub fn host_kver_above_floor(current: &KernelVersion, floor: &KernelVersion) -> (r: bool)
    ensures
        r == !version_lt(*current, *floor),
{
    !current.older_than(floor)
}

/// The oldest kernel release that bring-your-own-kernel supports.
pub open spec fn kver_floor() -> KernelVersion {
    KernelVersion { major: 5, minor: 15, patch: 0 }
}

/// The "Host Kernel Version Is Good" check, from the host's release (or the error met while
/// reading it).
pub fn version_is_good(current: Result<KernelVersion, String>) -> (r: CheckResult)
    ensures
        r@.name == "Host Kernel Version Is Good"@,
        r@.output is None,
        r@.result == (match current {
            Err(e) => ResultView::Errored(e@),
            Ok(v) => if version_lt(v, kver_floor()) {
                ResultView::Failed("current kernel version is unsupported"@)
            } else {
                ResultView::Passed
            },
        }),
{
    let name = "Host Kernel Version Is Good";
    match current {
        Err(e) => CheckResult::new(name, CheckResultValue::Errored(e)),
        Ok(v) => {
            let floor = KernelVersion::new(5, 15, 0);
            if host_kver_above_floor(&v, &floor) {
                CheckResult::new(name, CheckResultValue::Passed)
            } else {
                CheckResult::new(
                    name,
                    CheckResultValue::Failed(String::from_str("current kernel version is unsupported")),
                )
            }
        },
    }
}

/// The supported floor is 5.15.0: a release passes the floor exactly when it is 5.15.0 or
/// later, comparing major, then minor, then patch.
pub proof fn law_kernel_floor_is_5_15_0(v: KernelVersion)
    ensures
        !version_lt(v, kver_floor()) <==> (v.major > 5 || (v.major == 5 && v.minor >= 15)),
        version_lt(v, KernelVersion { major: 5, minor: 15, patch: 0 }) == version_lt(v, kver_floor()),
        version_lt(KernelVersion { major: 5, minor: 14, patch: 65535 }, kver_floor()),
        !version_lt(KernelVersion { major: 5, minor: 15, patch: 0 }, kver_floor()),
{
}

/// The order of releases is the lexicographic order of (major, minor, patch): irreflexive,
/// transitive and total.
pub proof fn law_version_order_is_lexicographic(a: KernelVersion, b: KernelVersion, c: KernelVersion)
    ensures
        version_lt(a, b) <==> (a.major < b.major || (a.major == b.major && a.minor < b.minor) || (
        a.major == b.major && a.minor == b.minor && a.patch < b.patch)),
        !version_lt(a, a),
        version_lt(a, b) && version_lt(b, c) ==> version_lt(a, c),
        a != b ==> (version_lt(a, b) || version_lt(b, a)),
{
}

/// Being new enough is kept by newer releases: a release at or above one that passes the floor
/// passes it too.
pub proof fn law_newer_kernel_still_passes(v: KernelVersion, w: KernelVersion, floor: KernelVersion)
    requires
        !version_lt(v, floor),
        !version_lt(w, v),
    ensures
        !version_lt(w, floor),
{
}

} // verus!
