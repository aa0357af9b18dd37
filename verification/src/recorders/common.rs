//! What recording host state gives: the output of a tool, or the contents of a file
//! (decompressed when gzipped, decoded as UTF-8 otherwise).
use vstd::prelude::*;

use crate::helpers::kernel::{debug_list_text, strings_of};
use crate::helpers::{check_views, CheckResult, CheckResultValue, CheckView, ResultView};
use crate::text::{
    char_views, chars_of, concat_strs, join, join_exec, split, split_exec, string_of, string_views,
    trim, trim_exec,
};

verus! {

/// How a tool that ran ended: whether it exited successfully, and its output and error
/// output (decoded lossily as UTF-8).
pub struct ToolOutput {
    pub success: bool,
    pub stdout: String,
    pub stderr: String,
}

/// How a recorder treats a tool or file it could not capture.
#[derive(Debug, PartialEq, Eq, Structural, Clone, Copy)]
pub enum Shortfall {
    /// The record is skipped.
    Skip,
    /// The record errs.
    Error,
}

/// The result value for a capture that fell short with `msg`.
pub open spec fn shortfall_value(how: Shortfall, msg: Seq<char>) -> ResultView {
    match how {
        Shortfall::Skip => ResultView::Skipped(msg),
        Shortfall::Error => ResultView::Errored(msg),
    }
}

fn shortfall_exec(how: Shortfall, msg: String) -> (r: CheckResultValue)
    ensures
        r@ == shortfall_value(how, msg@),
{
    match how {
        Shortfall::Skip => CheckResultValue::Skipped(msg),
        Shortfall::Error => CheckResultValue::Errored(msg),
    }
}

/// The program and arguments of a tool command line: its pieces split at single spaces.
pub struct ToolCommand {
    pub program: String,
    pub args: Vec<String>,
}

/// Splits a tool command line at single spaces into the program and its arguments.
pub fn split_command(tool: &str) -> (r: ToolCommand)
    ensures
        r.program@ == split(tool@, ' ')[0],
        string_views(r.args@) == split(tool@, ' ').drop_first(),
{
    let t = chars_of(tool);
    let parts = split_exec(&t, ' ');
    proof {
        crate::helpers::kernel::lemma_split_nonempty(tool@, ' ');
    }
    let ghost pv = char_views(parts@);
    assert(pv[0] == parts@[0]@);
    let program = string_of(&parts[0]);
    let mut args: Vec<String> = Vec::new();
    let mut i: usize = 1;
    assert(string_views(args@) =~= pv.drop_first().take(0));
    while i < parts.len()
        invariant
            1 <= i <= parts.len(),
            pv == char_views(parts@),
            string_views(args@) == pv.drop_first().take(i - 1),
        decreases parts.len() - i,
    {
        let a = string_of(&parts[i]);
        proof {
            assert(string_views(args@.push(a)) =~= string_views(args@).push(a@));
            assert(pv.drop_first().take(i as int) =~= pv.drop_first().take(i - 1).push(pv[i as int]));
        }
        args.push(a);
        i = i + 1;
    }
    assert(pv.drop_first().take(parts.len() - 1) =~= pv.drop_first());
    ToolCommand { program, args }
}

/// What capturing `tool` gives: named `label` + " " + the tool; a tool that ran and succeeded
/// passes with its trimmed output recorded; one that failed falls short with its error output;
/// one that could not run falls short with the error met.
pub open spec fn tool_view(
    label: Seq<char>,
    tool: Seq<char>,
    how: Shortfall,
    outcome: Result<(bool, Seq<char>, Seq<char>), Seq<char>>,
) -> CheckView {
    let name = label + " "@ + tool;
    match outcome {
        Err(e) => CheckView { name, output: None, result: shortfall_value(how, e) },
        Ok((success, stdout, stderr)) => if success {
            CheckView { name, output: Some(trim(stdout)), result: ResultView::Passed }
        } else {
            CheckView { name, output: None, result: shortfall_value(how, stderr) }
        },
    }
}

/// The view of how a tool ended.
pub open spec fn tool_outcome_view(o: Result<ToolOutput, String>) -> Result<
    (bool, Seq<char>, Seq<char>),
    Seq<char>,
> {
    match o {
        Ok(t) => Ok((t.success, t.stdout@, t.stderr@)),
        Err(e) => Err(e@),
    }
}

/// The record of running `tool`, named `label` + " " + the tool.
pub fn tool_record(label: &str, tool: &str, how: Shortfall, outcome: Result<ToolOutput, String>) -> (r:
    CheckResult)
    ensures
        r@ == tool_view(label@, tool@, how, tool_outcome_view(outcome)),
{
    let mut name = concat_strs(label, " ");
    name.append(tool);
    match outcome {
        Err(e) => CheckResult::new(name.as_str(), shortfall_exec(how, e)),
        Ok(o) => {
            if o.success {
                let out = string_of(&trim_exec(&chars_of(o.stdout.as_str())));
                CheckResult::new_with_output(name.as_str(), CheckResultValue::Passed, Some(out))
            } else {
                CheckResult::new(name.as_str(), shortfall_exec(how, o.stderr))
            }
        },
    }
}

/// The text that a gzip stream decompresses to, or the error met decompressing it.
pub uninterp spec fn gunzip_text(bytes: Seq<u8>) -> Result<Seq<char>, Seq<char>>;

/// `flate2::read::GzDecoder` read to a string: the text of the decompressed stream, or the
/// error met (corrupt stream, or text that is not UTF-8), as text. Its result is taken to be a
/// function of the bytes alone, named `gunzip_text`; the decompression itself is left
/// unstated.
#[verifier::external_body]
fn gunzip(bytes: &[u8]) -> (r: Result<String, String>)
    ensures
        match r {
            Ok(s) => gunzip_text(bytes@) == Ok::<Seq<char>, Seq<char>>(s@),
            Err(e) => gunzip_text(bytes@) == Err::<Seq<char>, Seq<char>>(e@),
        },
{
    let mut decoder = flate2::read::GzDecoder::new(bytes);
    let mut s = String::new();
    match std::io::Read::read_to_string(&mut decoder, &mut s) {
        Ok(_) => Ok(s),
        Err(e) => Err(e.to_string()),
    }
}

/// The text of the error that std reports for bytes that are not UTF-8.
pub uninterp spec fn utf8_error_text(bytes: Seq<u8>) -> Seq<char>;

/// `String::from_utf8`: the bytes decoded when they are valid UTF-8, the error's text
/// otherwise (named `utf8_error_text`, a function of the bytes; its wording is left unstated).
#[verifier::external_body]
fn decode_utf8(bytes: Vec<u8>) -> (r: Result<String, String>)
    ensures
        match r {
            Ok(s) => vstd::utf8::valid_utf8(bytes@) && s@ == vstd::utf8::decode_utf8(bytes@),
            Err(e) => !vstd::utf8::valid_utf8(bytes@) && e@ == utf8_error_text(bytes@),
        },
{
    match String::from_utf8(bytes) {
        Ok(s) => Ok(s),
        Err(e) => Err(e.to_string()),
    }
}

/// Whether `bytes` start with the gzip magic bytes.
pub open spec fn is_gzip(bytes: Seq<u8>) -> bool {
    bytes.len() >= 2 && bytes[0] == 0x1f && bytes[1] == 0x8b
}

/// The text of captured file contents: decompressed when gzipped, UTF-8 decoded otherwise.
pub open spec fn file_text(bytes: Seq<u8>) -> Result<Seq<char>, Seq<char>> {
    if is_gzip(bytes) {
        gunzip_text(bytes)
    } else if vstd::utf8::valid_utf8(bytes) {
        Ok(vstd::utf8::decode_utf8(bytes))
    } else {
        Err(utf8_error_text(bytes))
    }
}

/// What reading a file on the host gave.
pub enum FileRead {
    /// The file does not exist.
    Missing,
    /// Reading it failed with this error.
    Failed(String),
    /// Its contents.
    Read(Vec<u8>),
}

/// What capturing the file at `path` gives: nothing when it does not exist; otherwise a record
/// named "Captured" + the path that passes with the file's text recorded, or errs when the
/// file cannot be read or decoded.
pub open spec fn file_view(path: Seq<char>, read: FileRead) -> Option<CheckView> {
    let name = "Captured "@ + path;
    match read {
        FileRead::Missing => None,
        FileRead::Failed(e) => Some(
            CheckView {
                name,
                output: None,
                result: ResultView::Errored("failed to read "@ + path + ": "@ + e@),
            },
        ),
        FileRead::Read(bytes) => match file_text(bytes@) {
            Ok(t) => Some(CheckView { name, output: Some(t), result: ResultView::Passed }),
            Err(e) => Some(
                CheckView {
                    name,
                    output: None,
                    result: ResultView::Errored("failed to decode "@ + path + ": "@ + e),
                },
            ),
        },
    }
}

/// The view of an optional record.
pub open spec fn opt_check_view(r: Option<CheckResult>) -> Option<CheckView> {
    match r {
        Some(c) => Some(c@),
        None => None,
    }
}

/// The first record among `records` that exists, if any.
pub open spec fn first_present(records: Seq<Option<CheckView>>) -> Option<CheckView>
    decreases records.len(),
{
    if records.len() == 0 {
        None
    } else if records[0] is Some {
        records[0]
    } else {
        first_present(records.drop_first())
    }
}

/// The records of the files at `paths` that were read as `reads` (in the same order).
pub open spec fn file_views(paths: Seq<Seq<char>>, reads: Seq<FileRead>) -> Seq<Option<CheckView>> {
    Seq::new(reads.len(), |i: int| file_view(paths[i], reads[i]))
}

/// What `uname -r` gave: the trimmed release when it succeeded, its error output otherwise.
pub open spec fn release_of(o: (bool, Seq<char>, Seq<char>)) -> Result<Seq<char>, Seq<char>> {
    if o.0 {
        Ok(trim(o.1))
    } else {
        Err(o.2)
    }
}

/// The files to read, in order, for the kernel configuration of release `kver`.
pub open spec fn kernel_cfg_paths(kver: Seq<char>) -> Seq<Seq<char>> {
    seq!["/proc/config.gz"@, "/boot/config-"@ + kver]
}

/// The files to read, in order, for the kernel configuration of release `kver`.
pub fn kernel_cfg_candidates(kver: &str) -> (r: Vec<String>)
    ensures
        string_views(r@) == kernel_cfg_paths(kver@),
{
    let mut r = Vec::new();
    r.push(String::from_str("/proc/config.gz"));
    r.push(concat_strs("/boot/config-", kver));
    assert(string_views(r@) =~= kernel_cfg_paths(kver@));
    r
}

/// The GRUB configuration files to read, in order (the grub2 path first).
pub open spec fn grub_cfg_paths() -> Seq<Seq<char>> {
    seq!["/boot/grub2/grub.cfg"@, "/boot/grub/grub.cfg"@]
}

/// The GRUB configuration files to read, in order.
pub fn grub_cfg_candidates() -> (r: Vec<String>)
    ensures
        string_views(r@) == grub_cfg_paths(),
{
    let r = strings_of(&["/boot/grub2/grub.cfg", "/boot/grub/grub.cfg"]);
    assert(string_views(r@) =~= grub_cfg_paths());
    r
}


/// What recording the GRUB configuration gives when its candidate files were read as `reads`
/// (in the order of `grub_cfg_paths`): the first that exists, or skipped when none does.
pub open spec fn grub_cfg_view(reads: Seq<FileRead>) -> CheckView {
    match first_present(file_views(grub_cfg_paths(), reads)) {
        Some(c) => c,
        None => CheckView {
            name: "Record grub config"@,
            output: None,
            result: ResultView::Skipped(
                "no grub config found in [\"/boot/grub2/grub.cfg\", \"/boot/grub/grub.cfg\"]"@,
            ),
        },
    }
}

/// The view of a release (or the error met finding it).
pub open spec fn release_view(r: Result<String, String>) -> Result<Seq<char>, Seq<char>> {
    match r {
        Ok(v) => Ok(v@),
        Err(e) => Err(e@),
    }
}

/// What recording the kernel configuration gives for release `kver` (or the error met finding
/// it), its candidate files read as `reads` (in the order of `kernel_cfg_paths`).
pub open spec fn kernel_cfg_view(kver: Result<Seq<char>, Seq<char>>, reads: Seq<FileRead>) -> CheckView {
    match kver {
        Err(_) => CheckView {
            name: "Record kernel config"@,
            output: None,
            result: ResultView::Errored("failed to find kernel version"@),
        },
        Ok(v) => match first_present(file_views(kernel_cfg_paths(v), reads)) {
            Some(c) => c,
            None => CheckView {
                name: "Record kernel config"@,
                output: None,
                result: ResultView::Skipped(
                    "no kernel config found in "@ + debug_list_text(kernel_cfg_paths(v)),
                ),
            },
        },
    }
}

/// The view of a module listing: the names, the error met reading them, or the error met
/// reaching the host.
pub open spec fn listing_view(l: Result<Result<Vec<String>, String>, String>) -> Result<
    Result<Seq<Seq<char>>, Seq<char>>,
    Seq<char>,
> {
    match l {
        Ok(Ok(names)) => Ok(Ok(string_views(names@))),
        Ok(Err(e)) => Ok(Err(e@)),
        Err(e) => Err(e@),
    }
}

/// What recording the loaded modules gives: their names one per line; errored when they could
/// not be read, skipped when the host could not be reached.
pub open spec fn loaded_modules_view(l: Result<Result<Seq<Seq<char>>, Seq<char>>, Seq<char>>) -> CheckView {
    let name = "Record current host kernel loaded modules"@;
    match l {
        Ok(Ok(names)) => CheckView { name, output: Some(join(names, "\n"@)), result: ResultView::Passed },
        Ok(Err(e)) => CheckView { name, output: None, result: ResultView::Errored(e) },
        Err(e) => CheckView { name, output: None, result: ResultView::Skipped(e) },
    }
}

/// The recorder of host state shared by the preinstall and postinstall recorders.
pub struct CommonSystemRecorder;

impl CommonSystemRecorder {
    pub fn new() -> (r: CommonSystemRecorder) {
        CommonSystemRecorder
    }

    /// The record of running `tool` (a command line split at single spaces), named
    /// "Captured " + the tool; a tool that failed or could not run is skipped.
    pub fn run_tool(&self, tool: &str, outcome: Result<ToolOutput, String>) -> (r: CheckResult)
        ensures
            r@ == tool_view("Captured"@, tool@, Shortfall::Skip, tool_outcome_view(outcome)),
    {
        tool_record("Captured", tool, Shortfall::Skip, outcome)
    }

    /// Records the verbose PCI device listing, `lspci -vvv`.
    pub fn record_lspci(&self, outcome: Result<ToolOutput, String>) -> (r: CheckResult)
        ensures
            r@ == tool_view("Captured"@, "lspci -vvv"@, Shortfall::Skip, tool_outcome_view(outcome)),
    {
        self.run_tool("lspci -vvv", outcome)
    }

    /// The record of a file that every host has; what reading it gave cannot be `Missing`.
    fn record_present(&self, path: &str, read: FileRead) -> (r: CheckResult)
        requires
            !(read is Missing),
        ensures
            file_view(path@, read) == Some(r@),
    {
        match self.record_file(path, read) {
            Some(c) => c,
            None => CheckResult::new(path, CheckResultValue::Unknown),
        }
    }

    /// Records the CPU details and feature flags, `/proc/cpuinfo`.
    pub fn record_cpuinfo(&self, read: FileRead) -> (r: CheckResult)
        requires
            !(read is Missing),
        ensures
            file_view("/proc/cpuinfo"@, read) == Some(r@),
    {
        self.record_present("/proc/cpuinfo", read)
    }

    /// Records the kernel command line the running kernel booted with, `/proc/cmdline`.
    pub fn record_cmdline(&self, read: FileRead) -> (r: CheckResult)
        requires
            !(read is Missing),
        ensures
            file_view("/proc/cmdline"@, read) == Some(r@),
    {
        self.record_present("/proc/cmdline", read)
    }

    /// Records the memory usage statistics, `/proc/meminfo`.
    pub fn record_meminfo(&self, read: FileRead) -> (r: CheckResult)
        requires
            !(read is Missing),
        ensures
            file_view("/proc/meminfo"@, read) == Some(r@),
    {
        self.record_present("/proc/meminfo", read)
    }

    /// Records the virtual memory statistics, `/proc/vmstat`.
    pub fn record_vmstat(&self, read: FileRead) -> (r: CheckResult)
        requires
            !(read is Missing),
        ensures
            file_view("/proc/vmstat"@, read) == Some(r@),
    {
        self.record_present("/proc/vmstat", read)
    }

    /// Records the slab allocator statistics, `/proc/slabinfo`.
    pub fn record_slabinfo(&self, read: FileRead) -> (r: CheckResult)
        requires
            !(read is Missing),
        ensures
            file_view("/proc/slabinfo"@, read) == Some(r@),
    {
        self.record_present("/proc/slabinfo", read)
    }

    /// Records the mounted filesystems, `/proc/mounts`.
    pub fn record_mounts(&self, read: FileRead) -> (r: CheckResult)
        requires
            !(read is Missing),
        ensures
            file_view("/proc/mounts"@, read) == Some(r@),
    {
        self.record_present("/proc/mounts", read)
    }

    /// Records the mount points seen by the process, `/proc/self/mountinfo`.
    pub fn record_mountinfo(&self, read: FileRead) -> (r: CheckResult)
        requires
            !(read is Missing),
        ensures
            file_view("/proc/self/mountinfo"@, read) == Some(r@),
    {
        self.record_present("/proc/self/mountinfo", read)
    }

    /// The record of the file at `path`, if it exists.
    pub fn record_file(&self, path: &str, read: FileRead) -> (r: Option<CheckResult>)
        ensures
            opt_check_view(r) == file_view(path@, read),
    {
        let name = concat_strs("Captured ", path);
        match read {
            FileRead::Missing => None,
            FileRead::Failed(e) => {
                let mut m = concat_strs("failed to read ", path);
                m.append(": ");
                m.append(e.as_str());
                Some(CheckResult::new(name.as_str(), CheckResultValue::Errored(m)))
            },
            FileRead::Read(bytes) => {
                let content = if bytes.len() >= 2 && bytes[0] == 0x1f && bytes[1] == 0x8b {
                    gunzip(bytes.as_slice())
                } else {
                    decode_utf8(bytes)
                };
                match content {
                    Ok(c) => Some(
                        CheckResult::new_with_output(name.as_str(), CheckResultValue::Passed, Some(c)),
                    ),
                    Err(e) => {
                        let mut m = concat_strs("failed to decode ", path);
                        m.append(": ");
                        m.append(e.as_str());
                        Some(CheckResult::new(name.as_str(), CheckResultValue::Errored(m)))
                    },
                }
            },
        }
    }

    /// The record of the first existing file among `paths`, read as `reads` (in the same order).
    fn record_first(&self, paths: &Vec<String>, reads: Vec<FileRead>) -> (r: Option<CheckResult>)
        requires
            paths.len() == reads.len(),
        ensures
            opt_check_view(r) == first_present(file_views(string_views(paths@), reads@)),
    {
        let ghost all = file_views(string_views(paths@), reads@);
        let ghost pv = string_views(paths@);
        let ghost rv = reads@;
        let mut pending = reads;
        let mut i: usize = 0;
        assert(all.skip(0) =~= all);
        while pending.len() > 0
            invariant
                i + pending.len() == paths.len(),
                rv == reads@,
                pv == string_views(paths@),
                pending@ == rv.skip(i as int),
                all == file_views(pv, rv),
                rv.len() == paths.len(),
                first_present(all) == first_present(all.skip(i as int)),
            decreases pending.len(),
        {
            let read = pending.remove(0);
            assert(read == rv[i as int]);
            assert(all.skip(i as int)[0] == file_view(pv[i as int], rv[i as int]));
            assert(all.skip(i as int).drop_first() =~= all.skip(i + 1));
            assert(rv.skip(i + 1) =~= rv.skip(i as int).drop_first());
            assert(pv[i as int] == paths@[i as int]@);
            let rec = self.record_file(paths[i].as_str(), read);
            if rec.is_some() {
                assert(all.skip(i as int)[0] is Some);
                assert(first_present(all.skip(i as int)) == all.skip(i as int)[0]);
                assert(opt_check_view(rec) == file_view(pv[i as int], rv[i as int]));
                assert(first_present(all) == opt_check_view(rec));
                return rec;
            }
            i = i + 1;
        }
        assert(all.skip(i as int) =~= Seq::<Option<CheckView>>::empty());
        None
    }

    /// The running kernel's release from what `uname -r` gave.
    pub fn current_kernel_version(&self, o: &ToolOutput) -> (r: Result<String, String>)
        ensures
            match r {
                Ok(v) => release_of((o.success, o.stdout@, o.stderr@)) == Ok::<
                    Seq<char>,
                    Seq<char>,
                >(v@),
                Err(e) => release_of((o.success, o.stdout@, o.stderr@)) == Err::<
                    Seq<char>,
                    Seq<char>,
                >(e@),
            },
    {
        if o.success {
            Ok(string_of(&trim_exec(&chars_of(o.stdout.as_str()))))
        } else {
            Err(o.stderr.clone())
        }
    }

    /// Records the GRUB bootloader configuration: the first of the candidate files that exists,
    /// read as `reads`; skipped when none exists.
    pub fn record_grub_cfg(&self, reads: Vec<FileRead>) -> (r: CheckResult)
        requires
            reads.len() == 2,
        ensures
            r@ == grub_cfg_view(reads@),
    {
        let paths = grub_cfg_candidates();
        assert(string_views(paths@).len() == paths@.len());
        match self.record_first(&paths, reads) {
            Some(c) => c,
            None => CheckResult::new(
                "Record grub config",
                CheckResultValue::Skipped(
                    String::from_str(
                        "no grub config found in [\"/boot/grub2/grub.cfg\", \"/boot/grub/grub.cfg\"]",
                    ),
                ),
            ),
        }
    }

    /// Records the kernel build configuration: errs when the release is unknown, otherwise the
    /// first of `/proc/config.gz` and `/boot/config-<release>` that exists (read as `reads`);
    /// skipped when neither exists.
    pub fn record_kernel_cfg(&self, kver: Result<String, String>, reads: Vec<FileRead>) -> (r: CheckResult)
        requires
            kver is Ok ==> reads.len() == 2,
        ensures
            r@ == kernel_cfg_view(release_view(kver), reads@),
    {
        match kver {
            Err(_) => CheckResult::new(
                "Record kernel config",
                CheckResultValue::Errored(String::from_str("failed to find kernel version")),
            ),
            Ok(v) => {
                let paths = kernel_cfg_candidates(v.as_str());
                assert(string_views(paths@).len() == paths@.len());
                let listed = crate::helpers::kernel::debug_list(&paths);
                match self.record_first(&paths, reads) {
                    Some(c) => c,
                    None => CheckResult::new(
                        "Record kernel config",
                        CheckResultValue::Skipped(concat_strs("no kernel config found in ", listed.as_str())),
                    ),
                }
            },
        }
    }

    /// Records the names of the loaded kernel modules, one per line: `listing` is the names, the
    /// error met reading them (the record errs), or the error met reaching the host (the record is
    /// skipped).
    pub fn record_loaded_modules(&self, listing: Result<Result<Vec<String>, String>, String>) -> (r:
        CheckResult)
        ensures
            r@ == loaded_modules_view(listing_view(listing)),
    {
        let name = "Record current host kernel loaded modules";
        match listing {
            Ok(Ok(names)) => CheckResult::new_with_output(
                name,
                CheckResultValue::Passed,
                Some(join_exec(&names, "\n")),
            ),
            Ok(Err(e)) => CheckResult::new(name, CheckResultValue::Errored(e)),
            Err(e) => CheckResult::new(name, CheckResultValue::Skipped(e)),
        }
    }
}

} // verus!

verus! {

/// Whether `EntryPoint::search` rejects `bytes`: the `Debug` text of its error, or `None`
/// when it finds an SMBIOS entry point.
pub uninterp spec fn dmi_search_error(bytes: Seq<u8>) -> Option<Seq<char>>;

/// `dmidecode::EntryPoint::search`: whether the bytes hold a valid SMBIOS entry point, and if
/// not, the `Debug` text of the error. Taken to be a function of the bytes alone, named
/// `dmi_search_error`; the format rules it applies are left unstated.
#[verifier::external_body]
fn dmi_search(bytes: &[u8]) -> (r: Option<String>)
    ensures
        match r {
            Some(e) => dmi_search_error(bytes@) == Some(e@),
            None => dmi_search_error(bytes@) is None,
        },
{
    match dmidecode::EntryPoint::search(bytes) {
        Ok(_) => None,
        Err(e) => Some(format!("{e:?}")),
    }
}

/// The views of decoded structures.
pub open spec fn structure_views(v: Seq<Result<String, String>>) -> Seq<Result<Seq<char>, Seq<char>>> {
    v.map_values(
        |x: Result<String, String>|
            match x {
                Ok(s) => Ok(s@),
                Err(e) => Err(e@),
            },
    )
}

/// The report text of decoded structures: one line per structure, errors marked.
pub open spec fn structures_text(items: Seq<Result<Seq<char>, Seq<char>>>) -> Seq<char>
    decreases items.len(),
{
    if items.len() == 0 {
        Seq::empty()
    } else {
        structures_text(items.drop_last()) + match items.last() {
            Ok(s) => s + "\n"@,
            Err(e) => "Error: "@ + e + "\n"@,
        }
    }
}

/// The view of what reading a file's bytes gave.
pub open spec fn bytes_view(r: Result<Vec<u8>, String>) -> Result<Seq<u8>, Seq<char>> {
    match r {
        Ok(b) => Ok(b@),
        Err(e) => Err(e@),
    }
}

/// The view of what decoding the structures gave.
pub open spec fn decoded_view(r: Result<Vec<Result<String, String>>, String>) -> Result<
    Seq<Result<Seq<char>, Seq<char>>>,
    Seq<char>,
> {
    match r {
        Ok(v) => Ok(structure_views(v@)),
        Err(e) => Err(e@),
    }
}

/// What recording the DMI tables gives from what reading the entry point and the table gave,
/// and what decoding the table's structures gave (each structure's text, or the error that
/// ended the decoding on the host): skipped when a file could not be read, when the entry point
/// is not a valid SMBIOS entry point, or when the decoding did not finish; otherwise passed
/// with one line per structure.
pub open spec fn dmidecode_view(
    entry_point: Result<Seq<u8>, Seq<char>>,
    table: Result<Seq<u8>, Seq<char>>,
    decoded: Result<Seq<Result<Seq<char>, Seq<char>>>, Seq<char>>,
) -> CheckView {
    let name = "Captured dmidecode"@;
    let skipped = |m: Seq<char>| CheckView { name, output: None, result: ResultView::Skipped(m) };
    match entry_point {
        Err(e) => skipped("could not read smbios_entry_point: "@ + e),
        Ok(ep) => match dmi_search_error(ep) {
            Some(e) => skipped("could not parse DMI entry point: "@ + e),
            None => match table {
                Err(e) => skipped("could not read DMI table: "@ + e),
                Ok(_) => match decoded {
                    Err(e) => skipped(e),
                    Ok(items) => CheckView {
                        name,
                        output: Some(trim(structures_text(items))),
                        result: ResultView::Passed,
                    },
                },
            },
        },
    }
}

impl CommonSystemRecorder {
    /// Records DMI/SMBIOS hardware information (BIOS, board, chassis, CPU, memory) from the
    /// bytes of `/sys/firmware/dmi/tables/smbios_entry_point` and `/sys/firmware/dmi/tables/DMI`
    /// (or the errors met reading them), and what decoding the table's structures on the host
    /// gave (each structure's text, or the error that ended the decoding).
    pub fn record_dmidecode(
        &self,
        entry_point: Result<Vec<u8>, String>,
        table: Result<Vec<u8>, String>,
        decoded: Result<Vec<Result<String, String>>, String>,
    ) -> (r: CheckResult)
        ensures
            r@ == dmidecode_view(bytes_view(entry_point), bytes_view(table), decoded_view(decoded)),
    {
        let name = "Captured dmidecode";
        let ep = match entry_point {
            Err(e) => {
                return CheckResult::new(
                    name,
                    CheckResultValue::Skipped(
                        concat_strs("could not read smbios_entry_point: ", e.as_str()),
                    ),
                );
            },
            Ok(b) => b,
        };
        if let Some(e) = dmi_search(ep.as_slice()) {
            return CheckResult::new(
                name,
                CheckResultValue::Skipped(concat_strs("could not parse DMI entry point: ", e.as_str())),
            );
        }
        if let Err(e) = table {
            return CheckResult::new(
                name,
                CheckResultValue::Skipped(concat_strs("could not read DMI table: ", e.as_str())),
            );
        }
        let items = match decoded {
            Err(e) => {
                return CheckResult::new(name, CheckResultValue::Skipped(e));
            },
            Ok(items) => items,
        };
        let ghost iv = structure_views(items@);
        let mut out = String::new();
        let mut i: usize = 0;
        assert(iv.take(0) =~= Seq::<Result<Seq<char>, Seq<char>>>::empty());
        while i < items.len()
            invariant
                i <= items.len(),
                iv == structure_views(items@),
                out@ == structures_text(iv.take(i as int)),
            decreases items.len() - i,
        {
            assert(iv.take(i + 1).drop_last() =~= iv.take(i as int));
            match &items[i] {
                Ok(s) => {
                    assert(iv.take(i + 1).last() == Ok::<Seq<char>, Seq<char>>(s@));
                    out.append(s.as_str());
                    out.append("\n");
                },
                Err(e) => {
                    assert(iv.take(i + 1).last() == Err::<Seq<char>, Seq<char>>(e@));
                    out.append("Error: ");
                    out.append(e.as_str());
                    out.append("\n");
                },
            }
            i = i + 1;
        }
        assert(iv.take(items.len() as int) =~= iv);
        let text = string_of(&trim_exec(&chars_of(out.as_str())));
        CheckResult::new_with_output(name, CheckResultValue::Passed, Some(text))
    }
}

/// What the host gave for each record that every host recorder makes.
pub struct HostObservations {
    /// How `lspci -vvv` ran.
    pub lspci: Result<ToolOutput, String>,
    /// The bytes of `/sys/firmware/dmi/tables/smbios_entry_point` (or the error met).
    pub dmi_entry_point: Result<Vec<u8>, String>,
    /// The bytes of `/sys/firmware/dmi/tables/DMI` (or the error met).
    pub dmi_table: Result<Vec<u8>, String>,
    /// What decoding the table's structures gave on the host (or the error that ended it).
    pub dmi_structures: Result<Vec<Result<String, String>>, String>,
    pub cpuinfo: FileRead,
    pub cmdline: FileRead,
    /// The GRUB candidates, in the order of `grub_cfg_candidates`.
    pub grub_cfg: Vec<FileRead>,
    /// The running kernel's release (or the error met finding it).
    pub kernel_release: Result<String, String>,
    /// The kernel configuration candidates for that release, in the order of
    /// `kernel_cfg_candidates`.
    pub kernel_cfg: Vec<FileRead>,
    /// The loaded modules' names, the error met reading them, or the error met reaching the
    /// host.
    pub loaded_modules: Result<Result<Vec<String>, String>, String>,
    pub meminfo: FileRead,
    pub vmstat: FileRead,
    pub slabinfo: FileRead,
    pub mounts: FileRead,
    pub mountinfo: FileRead,
}

/// Whether the observations are complete: the files that every host has were found, and each
/// list of candidates has one read per candidate.
pub open spec fn host_observations_complete(o: &HostObservations) -> bool {
    &&& !(o.cpuinfo is Missing)
    &&& !(o.cmdline is Missing)
    &&& !(o.meminfo is Missing)
    &&& !(o.vmstat is Missing)
    &&& !(o.slabinfo is Missing)
    &&& !(o.mounts is Missing)
    &&& !(o.mountinfo is Missing)
    &&& o.grub_cfg.len() == 2
    &&& (o.kernel_release is Ok ==> o.kernel_cfg.len() == 2)
}

/// The records every host recorder makes, in order.
pub open spec fn host_records(o: &HostObservations) -> Seq<CheckView> {
    seq![
        tool_view("Captured"@, "lspci -vvv"@, Shortfall::Skip, tool_outcome_view(o.lspci)),
        dmidecode_view(bytes_view(o.dmi_entry_point), bytes_view(o.dmi_table), decoded_view(
            o.dmi_structures,
        )),
        file_view("/proc/cpuinfo"@, o.cpuinfo)->0,
        file_view("/proc/cmdline"@, o.cmdline)->0,
        grub_cfg_view(o.grub_cfg@),
        kernel_cfg_view(release_view(o.kernel_release), o.kernel_cfg@),
        loaded_modules_view(listing_view(o.loaded_modules)),
        file_view("/proc/meminfo"@, o.meminfo)->0,
        file_view("/proc/vmstat"@, o.vmstat)->0,
        file_view("/proc/slabinfo"@, o.slabinfo)->0,
        file_view("/proc/mounts"@, o.mounts)->0,
        file_view("/proc/self/mountinfo"@, o.mountinfo)->0,
    ]
}

impl CommonSystemRecorder {
    /// The records every host recorder makes, in order, from what the host gave.
    pub fn record_host(&self, o: HostObservations) -> (r: Vec<CheckResult>)
        requires
            host_observations_complete(&o),
        ensures
            check_views(r@) == host_records(&o),
    {
        let ghost expected = host_records(&o);
        let mut r: Vec<CheckResult> = Vec::new();
        r.push(self.record_lspci(o.lspci));
        r.push(self.record_dmidecode(o.dmi_entry_point, o.dmi_table, o.dmi_structures));
        r.push(self.record_cpuinfo(o.cpuinfo));
        r.push(self.record_cmdline(o.cmdline));
        r.push(self.record_grub_cfg(o.grub_cfg));
        r.push(self.record_kernel_cfg(o.kernel_release, o.kernel_cfg));
        r.push(self.record_loaded_modules(o.loaded_modules));
        r.push(self.record_meminfo(o.meminfo));
        r.push(self.record_vmstat(o.vmstat));
        r.push(self.record_slabinfo(o.slabinfo));
        r.push(self.record_mounts(o.mounts));
        r.push(self.record_mountinfo(o.mountinfo));
        assert(check_views(r@) =~= expected);
        r
    }
}

} // verus!
