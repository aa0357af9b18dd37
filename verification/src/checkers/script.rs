//! Scripted checks: small executables in a directory, each naming itself through a line of its
//! output and passing by its exit status.
use vstd::prelude::*;

use crate::helpers::{
    check_views, group_outcome, CategoryView, CheckGroup, CheckGroupCategory, CheckGroupResult,
    CheckResult, CheckResultValue, CheckView, GroupView, ResultView,
};
use crate::text::{
    char_views, chars_of, concat_strs, i64_to_decimal, lines, lines_exec,
    signed_decimal, starts_with_exec, string_of, string_views, strip_prefix,
};

verus! {

pub const GROUP_IDENTIFIER: &'static str = "ScriptedChecks";

pub const NAME: &'static str = "Scripted Checks";

/// The built-in script that every run adds after the listed ones: it reports whether the CPU
/// and its firmware let PVH guests be enabled.
pub const PVH_SCRIPT: &'static str = r#"#!/bin/sh
set -eu

echo "EDERA_PREFLIGHT_CHECK_NAME=Can PVH Be Enabled"

# prerequisites: msr-tools (rdmsr), and the msr kernel module
modprobe msr 2>/dev/null || true

err() {
  echo "$@" >&2
}

do_rdmsr() {
  MSR="$1"
  if [ ! -e /dev/cpu/0/msr ]; then
    err "rdmsr ${MSR}: /dev/cpu/0/msr doesn't exist, load 'msr' kernel module"
    return 1
  fi

  if command -v rdmsr >/dev/null; then
    rdmsr -p0 -d "$MSR" 2>/dev/null || echo 0
  elif command -v dd >/dev/null && command -v od >/dev/null; then
    (dd if=/dev/cpu/0/msr bs=1 skip=$(($MSR)) count=8 status=none 2>/dev/null | od -An -tu8 -N8) || echo 0
  else
    err "rdmsr ${MSR}: need either 'rdmsr' or 'dd' and 'od' commands and none were found"
    return 1
  fi
}

cpu_vendor=$(awk -F: '/vendor_id/{print $2; exit}' /proc/cpuinfo | xargs)
flags=$(awk -F: '/^flags/{print $2; exit}' /proc/cpuinfo)

case "$cpu_vendor" in
"GenuineIntel")
  echo "$flags" | grep -qw vmx && cap=yes || cap=no

  if do_rdmsr "0x3a" >/dev/null; then
    val=$(do_rdmsr 0x3a 2>/dev/null || echo 0)
    lock=$(((val >> 0) & 1))
    vmx_outside_smx=$(((val >> 2) & 1))
    bios_enabled=no
    if [ $lock -eq 1 ] && [ $vmx_outside_smx -eq 1 ]; then
      bios_enabled=yes
    fi
    printf "Intel VT-x capability: %s\n" "$cap"
    printf "IA32_FEATURE_CONTROL (0x3A): 0x%x (lock=%d, vmx_outside_smx=%d)\n" "$val" "$lock" "$vmx_outside_smx"
    printf "BIOS permits VT-x: %s\n" "$bios_enabled"
  else
    printf "Intel VT-x capability: %s (install msr-tools to verify MSR 0x3A)\n" "$cap"
  fi
  ;;

"AuthenticAMD")
  echo "$flags" | grep -qw svm && cap=yes || cap=no
  if do_rdmsr "0xC0010114" >/dev/null; then
    vmcr=$(do_rdmsr 0xC0010114 2>/dev/null || echo 0)
    lock=$(((vmcr >> 3) & 1))   # VM_CR.LOCK
    svmdis=$(((vmcr >> 4) & 1)) # VM_CR.SVMDIS (1 = disabled by BIOS/firmware)
    bios_enabled=$([ $svmdis -eq 0 ] && echo yes || echo no)

    efer=$(do_rdmsr 0xC0000080 2>/dev/null || echo 0)
    svme=$(((efer >> 12) & 1)) # EFER.SVME (runtime: 1 if OS/hypervisor enabled SVM)

    printf "AMD SVM capability: %s\n" "$cap"
    printf "VM_CR (0xC0010114): 0x%x (lock=%d, svmdis=%d)\n" "$vmcr" "$lock" "$svmdis"
    printf "BIOS permits SVM: %s\n" "$bios_enabled"
    printf "EFER (0xC0000080): 0x%x (SVME=%d)\n" "$efer" "$svme"
  else
    printf "AMD SVM capability: %s (install msr-tools to verify VM_CR/EFER)\n" "$cap"
  fi
  ;;

*)
  echo "Unknown CPU vendor: $cpu_vendor"
  ;;
esac

# vim: set ts=2 sts=2 sw=2 et:
"#;

/// The file name under the temporary directory to which the built-in script is written.
pub const PVH_SCRIPT_FILE: &'static str = "edera_preflight_pvh.sh";

/// A directory entry: the entry's path and whether it is a regular file.
pub struct ScriptEntry {
    pub path: String,
    pub is_file: bool,
}

/// What looking at the scripts directory found.
pub enum ScriptDir {
    /// The directory does not exist (its metadata cannot be read).
    Missing,
    /// The path exists but is not a directory.
    NotADirectory,
    /// The directory's entries.
    Listed(Vec<ScriptEntry>),
    /// Reading the directory failed.
    Failed(String),
}

/// The scripts among `entries`: every regular file, by path, in order (entries that are not
/// regular files, such as directories, are skipped).
pub open spec fn scripts_among(entries: Seq<ScriptEntry>) -> Seq<Seq<char>>
    decreases entries.len(),
{
    if entries.len() == 0 {
        Seq::empty()
    } else {
        let prev = scripts_among(entries.drop_last());
        let e = entries.last();
        if e.is_file {
            prev.push(e.path@)
        } else {
            prev
        }
    }
}

/// The scripts to run from what was found of the directory.
pub open spec fn script_list_spec(dir: ScriptDir) -> Result<Seq<Seq<char>>, Seq<char>> {
    match dir {
        ScriptDir::Missing => Ok(Seq::empty()),
        ScriptDir::NotADirectory => Ok(Seq::empty()),
        ScriptDir::Listed(es) => Ok(scripts_among(es@)),
        ScriptDir::Failed(e) => Err(e@),
    }
}

/// How a script ran: whether it exited successfully, its exit code (none when a signal ended
/// it), and its output and error output.
pub struct ScriptOutput {
    pub success: bool,
    pub code: Option<i32>,
    pub stdout: String,
    pub stderr: String,
}


/// The line that names a check.
pub open spec fn name_marker() -> Seq<char> {
    "EDERA_PREFLIGHT_CHECK_NAME="@
}

/// The name given by the last of `ls` that starts with the marker, if any.
pub open spec fn announced_name(ls: Seq<Seq<char>>) -> Option<Seq<char>>
    decreases ls.len(),
{
    if ls.len() == 0 {
        None
    } else {
        match strip_prefix(ls.last(), name_marker()) {
            Some(v) => Some(v),
            None => announced_name(ls.drop_last()),
        }
    }
}

/// `format!("{:?}", code)` for an optional exit code.
pub open spec fn code_text(code: Option<i32>) -> Seq<char> {
    match code {
        Some(c) => "Some("@ + signed_decimal(c as int) + ")"@,
        None => "None"@,
    }
}

/// What running a script at `path` gives.
pub open spec fn run_view(path: Seq<char>, outcome: Result<ScriptOutput, String>) -> CheckView {
    match outcome {
        Err(e) => CheckView { name: path, output: None, result: ResultView::Errored(e@) },
        Ok(o) => CheckView {
            name: match announced_name(lines(o.stdout@)) {
                Some(n) => n,
                None => path,
            },
            output: Some(o.stdout@),
            result: if o.success {
                ResultView::Passed
            } else {
                ResultView::Failed("script returned "@ + code_text(o.code) + ": "@ + o.stderr@)
            },
        },
    }
}

/// The scripts a run executes, in order: the listed scripts, then the built-in script when it
/// could be written (`builtin` is its path).
pub open spec fn run_list(listed: Seq<Seq<char>>, builtin: Option<Seq<char>>) -> Seq<Seq<char>> {
    match builtin {
        Some(b) => listed.push(b),
        None => listed,
    }
}

/// The view of an optional path.
pub open spec fn opt_path(p: Option<String>) -> Option<Seq<char>> {
    match p {
        Some(s) => Some(s@),
        None => None,
    }
}

/// The checks given by the scripts at `paths` that ran as `outcomes` (in the same order).
pub open spec fn runs_view(paths: Seq<Seq<char>>, outcomes: Seq<Result<ScriptOutput, String>>) -> Seq<
    CheckView,
> {
    Seq::new(outcomes.len(), |i: int| run_view(paths[i], outcomes[i]))
}

fn code_text_exec(code: Option<i32>) -> (r: String)
    ensures
        r@ == code_text(code),
{
    match code {
        Some(c) => {
            let n = i64_to_decimal(c as i64);
            let mut r = concat_strs("Some(", n.as_str());
            r.append(")");
            r
        },
        None => String::from_str("None"),
    }
}

/// The name announced in `stdout`, if any.
fn announced_name_exec(stdout: &str) -> (r: Option<Vec<char>>)
    ensures
        match r {
            Some(v) => announced_name(lines(stdout@)) == Some(v@),
            None => announced_name(lines(stdout@)) is None,
        },
{
    let ls = lines_exec(stdout);
    let marker = chars_of("EDERA_PREFLIGHT_CHECK_NAME=");
    let ghost all = char_views(ls@);
    let mut found: Option<Vec<char>> = None;
    let mut i: usize = 0;
    assert(all.take(0) =~= Seq::<Seq<char>>::empty());
    while i < ls.len()
        invariant
            i <= ls.len(),
            all == char_views(ls@),
            marker@ == name_marker(),
            match found {
                Some(v) => announced_name(all.take(i as int)) == Some(v@),
                None => announced_name(all.take(i as int)) is None,
            },
        decreases ls.len() - i,
    {
        assert(all.take(i + 1).drop_last() =~= all.take(i as int));
        assert(all.take(i + 1).last() == ls@[i as int]@);
        let line = &ls[i];
        if starts_with_exec(line, &marker) {
            let mut v: Vec<char> = Vec::new();
            let mut j: usize = marker.len();
            while j < line.len()
                invariant
                    marker.len() <= j <= line@.len(),
                    line@ == ls@[i as int]@,
                    v@ == line@.subrange(marker.len() as int, j as int),
                decreases line@.len() - j,
            {
                v.push(line[j]);
                let ghost line = line@;
                assert(line.subrange(marker.len() as int, j + 1) =~= line.subrange(
                    marker.len() as int,
                    j as int,
                ).push(line[j as int]));
                j = j + 1;
            }
            assert(v@ =~= ls@[i as int]@.skip(marker.len() as int));
            found = Some(v);
        }
        i = i + 1;
    }
    assert(all.take(ls.len() as int) =~= all);
    found
}

pub struct ScriptChecks;

impl ScriptChecks {
    pub fn new() -> (r: ScriptChecks) {
        ScriptChecks
    }

    /// The scripts to run: every regular file directly inside the directory (no recursion);
    /// none when the directory does not exist or is not a directory.
    pub fn script_list(&self, dir: ScriptDir) -> (r: Result<Vec<String>, String>)
        ensures
            match r {
                Ok(v) => script_list_spec(dir) == Ok::<Seq<Seq<char>>, Seq<char>>(string_views(v@)),
                Err(e) => script_list_spec(dir) == Err::<Seq<Seq<char>>, Seq<char>>(e@),
            },
    {
        match dir {
            ScriptDir::Missing | ScriptDir::NotADirectory => {
                let v: Vec<String> = Vec::new();
                assert(string_views(v@) =~= Seq::<Seq<char>>::empty());
                Ok(v)
            },
            ScriptDir::Failed(e) => Err(e),
            ScriptDir::Listed(entries) => {
                let mut out: Vec<String> = Vec::new();
                let mut i: usize = 0;
                assert(entries@.take(0) =~= Seq::<ScriptEntry>::empty());
                assert(string_views(out@) =~= Seq::<Seq<char>>::empty());
                while i < entries.len()
                    invariant
                        i <= entries.len(),
                        string_views(out@) == scripts_among(entries@.take(i as int)),
                    decreases entries.len() - i,
                {
                    assert(entries@.take(i + 1).drop_last() =~= entries@.take(i as int));
                    assert(entries@.take(i + 1).last() == entries@[i as int]);
                    let e = &entries[i];
                    if e.is_file {
                        let p = e.path.clone();
                        proof {
                            assert(string_views(out@.push(p)) =~= string_views(out@).push(p@));
                        }
                        out.push(p);
                    }
                    i = i + 1;
                }
                assert(entries@.take(entries.len() as int) =~= entries@);
                Ok(out)
            },
        }
    }

    /// The result of running one script: errored when it could not be started; otherwise named
    /// by the last `EDERA_PREFLIGHT_CHECK_NAME=` line of its output (else by its path),
    /// passed or failed by its exit status, with its output recorded.
    pub fn run_script(&self, path: &str, outcome: Result<ScriptOutput, String>) -> (r: CheckResult)
        ensures
            r@ == run_view(path@, outcome),
    {
        match outcome {
            Err(e) => CheckResult::new(path, CheckResultValue::Errored(e)),
            Ok(o) => {
                let name = match announced_name_exec(o.stdout.as_str()) {
                    Some(v) => string_of(&v),
                    None => String::from_str(path),
                };
                let result = if o.success {
                    CheckResultValue::Passed
                } else {
                    let code = code_text_exec(o.code);
                    let mut m = concat_strs("script returned ", code.as_str());
                    m.append(": ");
                    m.append(o.stderr.as_str());
                    CheckResultValue::Failed(m)
                };
                CheckResult::new_with_output(name.as_str(), result, Some(o.stdout))
            },
        }
    }

    /// The scripts a run executes, in order: the listed scripts (or the error met listing
    /// them), then the built-in script when it could be written to `builtin`.
    pub fn scripts_to_run(&self, listed: &Result<Vec<String>, String>, builtin: &Option<String>) -> (r:
        Result<Vec<String>, String>)
        ensures
            match listed {
                Err(e) => r matches Err(x) && x@ == e@,
                Ok(v) => r matches Ok(w) && string_views(w@) == run_list(
                    string_views(v@),
                    opt_path(*builtin),
                ),
            },
    {
        match listed {
            Err(e) => Err(e.clone()),
            Ok(v) => {
                let mut w = crate::helpers::kernel::clone_strings(v);
                match builtin {
                    Some(b) => {
                        let b2 = b.clone();
                        proof {
                            assert(string_views(w@.push(b2)) =~= string_views(w@).push(b2@));
                        }
                        w.push(b2);
                    },
                    None => {},
                }
                Ok(w)
            },
        }
    }

    /// The group's result: errored when the script list could not be made; otherwise one
    /// result per script run, in order: the listed scripts, then the built-in script when it
    /// could be written. `outcomes` holds how each of those ran, in that order.
    pub fn run_all(
        &self,
        listed: Result<Vec<String>, String>,
        builtin: Option<String>,
        outcomes: Vec<Result<ScriptOutput, String>>,
    ) -> (r: CheckGroupResult)
        requires
            listed matches Ok(v) ==> outcomes.len() == run_list(
                string_views(v@),
                opt_path(builtin),
            ).len(),
        ensures
            match listed {
                Err(e) => r@ == (GroupView {
                    name: NAME@,
                    result: ResultView::Errored("failed to initialize group: "@ + e@),
                    results: Seq::empty(),
                }),
                Ok(v) => r@ == (GroupView {
                    name: NAME@,
                    result: group_outcome(
                        runs_view(run_list(string_views(v@), opt_path(builtin)), outcomes@),
                        "group failed"@,
                        "group errored"@,
                    ),
                    results: runs_view(run_list(string_views(v@), opt_path(builtin)), outcomes@),
                }),
            },
    {
        let paths = match self.scripts_to_run(&listed, &builtin) {
            Err(e) => {
                let r = CheckGroupResult {
                    name: String::from_str(NAME),
                    result: CheckResultValue::Errored(
                        concat_strs("failed to initialize group: ", e.as_str()),
                    ),
                    results: Vec::new(),
                };
                assert(r@.results =~= Seq::<CheckView>::empty());
                return r;
            },
            Ok(w) => w,
        };
        let ghost pv = string_views(paths@);
        let ghost all = outcomes@;
        let ghost expected = runs_view(pv, all);
        let mut results: Vec<CheckResult> = Vec::new();
        let mut pending = outcomes;
        let n = pending.len();
        let mut i: usize = 0;
        assert(check_views(results@) =~= expected.take(0));
        while pending.len() > 0
            invariant
                n == all.len(),
                n == paths.len(),
                pv == string_views(paths@),
                i + pending.len() == n,
                pending@ == all.skip(i as int),
                expected == runs_view(pv, all),
                check_views(results@) == expected.take(i as int),
            decreases pending.len(),
        {
            let outcome = pending.remove(0);
            assert(outcome == all[i as int]);
            assert(pv[i as int] == paths@[i as int]@);
            let c = self.run_script(paths[i].as_str(), outcome);
            proof {
                assert(check_views(results@.push(c)) =~= check_views(results@).push(c@));
                assert(expected.take(i + 1) =~= expected.take(i as int).push(expected[i as int]));
                assert(all.skip(i + 1) =~= all.skip(i as int).remove(0));
            }
            results.push(c);
            i = i + 1;
        }
        assert(expected.take(n as int) =~= expected);
        let result = crate::helpers::group_result_of(&results, "group failed", "group errored");
        CheckGroupResult { name: String::from_str(NAME), result, results }
    }
}

impl CheckGroup for ScriptChecks {
    fn name(&self) -> (r: &str)
        ensures
            r@ == NAME@,
    {
        NAME
    }

    fn id(&self) -> (r: &str)
        ensures
            r@ == GROUP_IDENTIFIER@,
    {
        GROUP_IDENTIFIER
    }

    fn description(&self) -> (r: &str)
        ensures
            r@ == "Checks composed through small shell scripts"@,
    {
        "Checks composed through small shell scripts"
    }

    fn category(&self) -> (r: CheckGroupCategory)
        ensures
            r@ == CategoryView::Required,
    {
        CheckGroupCategory::Required
    }
}

} // verus!
