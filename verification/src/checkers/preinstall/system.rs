//! The preinstall system group: enough memory and disk space, and the host tools the
//! installer relies on.
use vstd::prelude::*;

use crate::helpers::paths::{path_starts_with, path_starts_with_exec};
use crate::helpers::{
    group_from, group_outcome, CategoryView, CheckGroup, CheckGroupCategory, CheckGroupResult,
    CheckResult, CheckResultValue, CheckView, GroupView, ResultView,
};
use crate::text::{chars_of, concat_strs, decimal, join, join_exec, string_views, u64_to_decimal};

verus! {

pub const GROUP_IDENTIFIER: &'static str = "system";

pub const NAME: &'static str = "System Checks";

/// 4 GiB.
pub const MINIMUM_MEMORY: u64 = 4294967296;

/// 1 GiB, for `/usr`.
pub const MINIMUM_DISK_GENERAL: u64 = 1073741824;

/// 5 GiB, for `/var/lib`.
pub const MINIMUM_DISK_VAR: u64 = 5368709120;

/// 200 MiB, for `/boot`.
pub const MINIMUM_DISK_BOOT: u64 = 209715200;

/// A mounted filesystem: where it is mounted and how many bytes are available on it.
pub struct DiskSpace {
    pub mount_point: String,
    pub available: u64,
}

/// The value of a `DiskSpace`.
pub struct DiskView {
    pub mount_point: Seq<char>,
    pub available: u64,
}

/// The views of a sequence of disks.
pub open spec fn disk_views(ds: Seq<DiskSpace>) -> Seq<DiskView> {
    ds.map_values(|d: DiskSpace| DiskView { mount_point: d.mount_point@, available: d.available })
}

/// The length in bytes of the mount point of `d`, as `usize` (the key that ranks covering
/// mounts).
pub open spec fn mount_len(d: DiskView) -> usize {
    vstd::utf8::encode_utf8(d.mount_point).len() as usize
}

/// Whether disk `d` is mounted at a path that `path` starts with.
pub open spec fn covers(d: DiskView, path: Seq<char>) -> bool {
    path_starts_with(path, d.mount_point)
}

/// The position of the disk that best covers `path`: among the disks mounted at a prefix of
/// `path`, the last one with the longest mount point (as `max_by_key` picks it).
pub open spec fn best_cover(ds: Seq<DiskView>, path: Seq<char>) -> Option<int>
    decreases ds.len(),
{
    if ds.len() == 0 {
        None
    } else {
        let prev = best_cover(ds.drop_last(), path);
        let last = ds.len() - 1;
        if covers(ds[last], path) && (prev is None || mount_len(ds[prev->0]) <= mount_len(
            ds[last],
        )) {
            Some(last)
        } else {
            prev
        }
    }
}

/// The bytes available on the filesystem that best covers `path`, if any covers it.
pub open spec fn available_for(ds: Seq<DiskView>, path: Seq<char>) -> Option<u64> {
    match best_cover(ds, path) {
        Some(i) => Some(ds[i].available),
        None => None,
    }
}

proof fn lemma_best_cover(ds: Seq<DiskView>, path: Seq<char>)
    ensures
        best_cover(ds, path) matches Some(i) ==> {
            &&& 0 <= i < ds.len()
            &&& covers(ds[i], path)
            &&& forall|j: int|
                0 <= j < ds.len() && covers(ds[j], path) ==> mount_len(ds[j]) <= mount_len(
                    ds[i],
                )
            &&& forall|j: int|
                i < j < ds.len() && covers(ds[j], path) ==> mount_len(ds[j]) < mount_len(ds[i])
        },
        best_cover(ds, path) is None ==> forall|j: int| 0 <= j < ds.len() ==> !covers(ds[j], path),
    decreases ds.len(),
{
    if ds.len() > 0 {
        lemma_best_cover(ds.drop_last(), path);
        assert forall|j: int| 0 <= j < ds.len() - 1 implies ds.drop_last()[j] == ds[j] by {}
    }
}

/// The filesystem that best covers a path is one mounted at a prefix of that path, no covering
/// mount point is longer, and none after it in the list is as long; when none is reported,
/// no filesystem covers the path.
pub proof fn law_best_cover_is_longest_covering_mount(ds: Seq<DiskView>, path: Seq<char>)
    ensures
        best_cover(ds, path) matches Some(i) ==> {
            &&& 0 <= i < ds.len()
            &&& covers(ds[i], path)
            &&& forall|j: int|
                0 <= j < ds.len() && covers(ds[j], path) ==> mount_len(ds[j]) <= mount_len(
                    ds[i],
                )
            &&& forall|j: int|
                i < j < ds.len() && covers(ds[j], path) ==> mount_len(ds[j]) < mount_len(ds[i])
        },
        best_cover(ds, path) is None ==> forall|j: int| 0 <= j < ds.len() ==> !covers(ds[j], path),
{
    lemma_best_cover(ds, path);
}

/// Only a filesystem mounted at a component-wise prefix of a path covers it: the space reported
/// for a path is that of a disk whose mount point is a prefix of the path (`Path::starts_with`),
/// the longest such one, so a mount point strictly below the path never counts; and when no
/// mount point is a prefix of the path, no space is reported.
pub proof fn law_space_comes_from_a_mount_above_the_path(ds: Seq<DiskView>, path: Seq<char>)
    ensures
        available_for(ds, path) matches Some(a) ==> exists|i: int|
            0 <= i < ds.len() && path_starts_with(path, #[trigger] ds[i].mount_point)
                && ds[i].available == a && forall|j: int|
                0 <= j < ds.len() && path_starts_with(path, ds[j].mount_point) ==> mount_len(
                    ds[j],
                ) <= mount_len(ds[i]),
        (forall|j: int| 0 <= j < ds.len() ==> !path_starts_with(path, #[trigger] ds[j].mount_point))
            ==> available_for(ds, path) is None,
        forall|j: int|
            0 <= j < ds.len() && !path_starts_with(path, #[trigger] ds[j].mount_point) ==> best_cover(
                ds,
                path,
            ) != Some(j),
{
    lemma_best_cover(ds, path);
    if let Some(i) = best_cover(ds, path) {
        assert(path_starts_with(path, ds[i].mount_point));
    }
}

/// Finds available bytes for the filesystem that best covers `path`.
pub fn available_space_for_path(disks: &Vec<DiskSpace>, path: &str) -> (r: Option<u64>)
    ensures
        r == available_for(disk_views(disks@), path@),
{
    let ghost ds = disk_views(disks@);
    let target = chars_of(path);
    let mut best: Option<usize> = None;
    let mut best_len: usize = 0;
    let mut i: usize = 0;
    assert(ds.take(0) =~= Seq::<DiskView>::empty());
    while i < disks.len()
        invariant
            i <= disks.len(),
            ds == disk_views(disks@),
            target@ == path@,
            best_cover(ds.take(i as int), path@) == (match best {
                Some(b) => Some(b as int),
                None => None::<int>,
            }),
            best matches Some(b) ==> b < i && best_len == mount_len(ds[b as int]),
        decreases disks.len() - i,
    {
        let ghost prefix = ds.take(i + 1);
        assert(prefix.drop_last() =~= ds.take(i as int));
        assert(prefix[i as int] == ds[i as int]);
        assert(ds[i as int].mount_point == disks@[i as int].mount_point@);
        assert(best matches Some(b) ==> prefix[b as int] == ds[b as int]);
        let mp = chars_of(disks[i].mount_point.as_str());
        let key = disks[i].mount_point.as_str().len();
        if path_starts_with_exec(&target, &mp) {
            let better = match best {
                None => true,
                Some(_) => best_len <= key,
            };
            if better {
                best = Some(i);
                best_len = key;
            }
        }
        i = i + 1;
    }
    assert(ds.take(disks.len() as int) =~= ds);
    match best {
        Some(b) => Some(disks[b].available),
        None => None,
    }
}

/// The bytes-with-unit text of `bytes`, as `bytesize::ByteSize` displays it.
pub uninterp spec fn byte_size_text(bytes: u64) -> Seq<char>;

/// `bytesize::ByteSize(bytes).to_string()`: the human-readable size (such as "1.0 GiB"). Its
/// text is a function of `bytes` alone, named `byte_size_text`; the unit and rounding rules
/// are left unstated.
#[verifier::external_body]
fn byte_size(bytes: u64) -> (r: String)
    ensures
        r@ == byte_size_text(bytes),
{
    bytesize::ByteSize(bytes).to_string()
}

/// How the shortfall on a covering filesystem is reported.
#[derive(Debug, PartialEq, Eq, Structural, Clone, Copy)]
pub enum DiskWording {
    /// Preinstall: the space is needed.
    Needed,
    /// Postinstall: the space is recommended.
    Recommended,
}

/// What a disk-space check for `path` with threshold `thresh` gives on disks `disks` (or the
/// error met listing them).
pub open spec fn disk_outcome(
    path: Seq<char>,
    thresh: u64,
    wording: DiskWording,
    disks: Result<Seq<DiskView>, Seq<char>>,
) -> ResultView {
    match disks {
        Err(e) => ResultView::Errored(e),
        Ok(ds) => match available_for(ds, path) {
            Some(avail) => if avail >= thresh {
                ResultView::Passed
            } else {
                ResultView::Failed(
                    match wording {
                        DiskWording::Needed => path + " has "@ + byte_size_text(avail)
                            + " free, need at least "@ + byte_size_text(thresh),
                        DiskWording::Recommended => path + " has "@ + byte_size_text(avail)
                            + " free, at least "@ + byte_size_text(thresh)
                            + " is recommended for "@,
                    },
                )
            },
            None => ResultView::Failed("no mounted filesystem found covering "@ + path),
        },
    }
}

/// The view of a disk listing.
pub open spec fn disks_res_view(r: Result<Vec<DiskSpace>, String>) -> Result<
    Seq<DiskView>,
    Seq<char>,
> {
    match r {
        Ok(v) => Ok(disk_views(v@)),
        Err(e) => Err(e@),
    }
}

/// The "Enough Disk Space for `path`" check.
pub open spec fn disk_view(
    path: Seq<char>,
    thresh: u64,
    wording: DiskWording,
    disks: Result<Seq<DiskView>, Seq<char>>,
) -> CheckView {
    CheckView {
        name: "Enough Disk Space for "@ + path,
        output: None,
        result: disk_outcome(path, thresh, wording, disks),
    }
}

/// Checks that the filesystem covering `mount_path` has at least `free_thresh` bytes free,
/// wording a shortfall as `wording` says.
pub fn disk_space_check(
    mount_path: &str,
    free_thresh: u64,
    wording: DiskWording,
    disks: &Result<Vec<DiskSpace>, String>,
) -> (r: CheckResult)
    ensures
        r@ == disk_view(mount_path@, free_thresh, wording, disks_res_view(*disks)),
{
    let name = concat_strs("Enough Disk Space for ", mount_path);
    let result = match disks {
        Err(e) => CheckResultValue::Errored(e.clone()),
        Ok(ds) => match available_space_for_path(ds, mount_path) {
            Some(avail) => {
                if avail >= free_thresh {
                    CheckResultValue::Passed
                } else {
                    let a = byte_size(avail);
                    let t = byte_size(free_thresh);
                    let mut m = concat_strs(mount_path, " has ");
                    m.append(a.as_str());
                    match wording {
                        DiskWording::Needed => {
                            m.append(" free, need at least ");
                            m.append(t.as_str());
                        },
                        DiskWording::Recommended => {
                            m.append(" free, at least ");
                            m.append(t.as_str());
                            m.append(" is recommended for ");
                        },
                    }
                    CheckResultValue::Failed(m)
                }
            },
            None => CheckResultValue::Failed(
                concat_strs("no mounted filesystem found covering ", mount_path),
            ),
        },
    };
    CheckResult::new(name.as_str(), result)
}

/// The "Enough Memory" check, from the host's total memory in bytes (or the error met
/// reading it).
pub open spec fn memory_view(total: Result<u64, Seq<char>>) -> CheckView {
    CheckView {
        name: "Enough Memory"@,
        output: None,
        result: match total {
            Err(e) => ResultView::Errored(e),
            Ok(t) => if t < MINIMUM_MEMORY {
                ResultView::Failed("total memory is less than "@ + decimal(MINIMUM_MEMORY as nat))
            } else {
                ResultView::Passed
            },
        },
    }
}

/// The view of a number-or-error.
pub open spec fn u64_res_view(r: Result<u64, String>) -> Result<u64, Seq<char>> {
    match r {
        Ok(v) => Ok(v),
        Err(e) => Err(e@),
    }
}

/// Checks that total system RAM is at least 4 GB.
pub fn memory_check(total: Result<u64, String>) -> (r: CheckResult)
    ensures
        r@ == memory_view(u64_res_view(total)),
{
    match total {
        Err(e) => CheckResult::new("Enough Memory", CheckResultValue::Errored(e)),
        Ok(t) => {
            if t < MINIMUM_MEMORY {
                let n = u64_to_decimal(MINIMUM_MEMORY);
                CheckResult::new(
                    "Enough Memory",
                    CheckResultValue::Failed(concat_strs("total memory is less than ", n.as_str())),
                )
            } else {
                CheckResult::new("Enough Memory", CheckResultValue::Passed)
            }
        },
    }
}

/// A check that passes when a required tool was `found` and errs with `missing_msg` otherwise.
pub open spec fn tool_view(name: Seq<char>, found: bool, missing_msg: Seq<char>) -> CheckView {
    CheckView {
        name,
        output: None,
        result: if found {
            ResultView::Passed
        } else {
            ResultView::Errored(missing_msg)
        },
    }
}

fn tool_check(name: &str, found: bool, missing_msg: &str) -> (r: CheckResult)
    ensures
        r@ == tool_view(name@, found, missing_msg@),
{
    if found {
        CheckResult::new(name, CheckResultValue::Passed)
    } else {
        CheckResult::new(name, CheckResultValue::Errored(String::from_str(missing_msg)))
    }
}

/// What the group observed on the host: total memory, the mounted filesystems, whether `nft`,
/// a package manager, `grub-mkconfig` (or `grub2-mkconfig`) and a service manager answer
/// `--version`, and, for each of the basic utilities (`basic_utilities`), whether it answered
/// `--version` successfully (or the error met when they could not be probed at all).
pub struct SystemObservations {
    pub total_memory: Result<u64, String>,
    pub disks: Result<Vec<DiskSpace>, String>,
    pub nft_found: bool,
    pub package_manager_found: bool,
    pub grub_mkconfig_found: bool,
    pub service_manager_found: bool,
    pub utilities: Result<Vec<(String, bool)>, String>,
}

/// The checks of the group, in order, for what was observed.
pub open spec fn system_checks(o: &SystemObservations) -> Seq<CheckView> {
    let disks = disks_res_view(o.disks);
    seq![
        memory_view(u64_res_view(o.total_memory)),
        disk_view("/usr"@, MINIMUM_DISK_GENERAL, DiskWording::Needed, disks),
        disk_view("/var/lib"@, MINIMUM_DISK_VAR, DiskWording::Needed, disks),
        disk_view("/boot"@, MINIMUM_DISK_BOOT, DiskWording::Needed, disks),
        tool_view(
            "'nft' Binary Present"@,
            o.nft_found,
            "'nft' binary is required but not present, install `nftables`"@,
        ),
        tool_view(
            "Package Manager Binary Present"@,
            o.package_manager_found,
            "no supported package manager found in PATH (tried: dnf, yum, zypper, apt-get, apk)"@,
        ),
        tool_view(
            "'grub-mkconfig' Binary Present"@,
            o.grub_mkconfig_found,
            "neither 'grub-mkconfig' nor 'grub2-mkconfig' found in PATH"@,
        ),
        tool_view(
            "Service Manager Binary Present"@,
            o.service_manager_found,
            "neither 'systemctl' nor 'rc-update' found in PATH"@,
        ),
        utilities_view(probe_view(o.utilities)),
    ]
}

/// The view of a probe of utilities: each utility's name and whether it answered.
pub open spec fn probe_view(p: Result<Vec<(String, bool)>, String>) -> Result<
    Seq<(Seq<char>, bool)>,
    Seq<char>,
> {
    match p {
        Ok(v) => Ok(v@.map_values(|x: (String, bool)| (x.0@, x.1))),
        Err(e) => Err(e@),
    }
}

/// The utilities that did not answer, in the order they were probed.
pub open spec fn not_answered(answers: Seq<(Seq<char>, bool)>) -> Seq<Seq<char>>
    decreases answers.len(),
{
    if answers.len() == 0 {
        Seq::empty()
    } else {
        let prev = not_answered(answers.drop_last());
        if answers.last().1 {
            prev
        } else {
            prev.push(answers.last().0)
        }
    }
}

/// The basic-utilities check, from the probe of the utilities: it passes only when the probe
/// ran and every utility answered.
pub open spec fn utilities_view(probe: Result<Seq<(Seq<char>, bool)>, Seq<char>>) -> CheckView {
    CheckView {
        name: "Basic Linux Utility Binaries Present"@,
        output: None,
        result: match probe {
            Err(e) => ResultView::Errored(
                "could not probe for basic Linux utility binaries: "@ + e,
            ),
            Ok(answers) => {
                let missing = not_answered(answers);
                if missing.len() == 0 {
                    ResultView::Passed
                } else {
                    ResultView::Errored(
                        "required basic Linux utility binaries not found in PATH: "@ + join(
                            missing,
                            ", "@,
                        ),
                    )
                }
            },
        },
    }
}

/// The thresholds of the preinstall system group: the memory check passes exactly when the
/// host has at least 4 GiB (4294967296 bytes), and each disk check, on the filesystem covering
/// its path, passes exactly when it has at least 1 GiB free for `/usr` (1073741824 bytes),
/// 5 GiB for `/var/lib` (5368709120 bytes) and 200 MiB for `/boot` (209715200 bytes).
pub proof fn law_system_thresholds(o: &SystemObservations)
    ensures
        system_checks(o).len() == 9,
        system_checks(o)[0].name == "Enough Memory"@,
        system_checks(o)[1].name == "Enough Disk Space for /usr"@,
        system_checks(o)[2].name == "Enough Disk Space for /var/lib"@,
        system_checks(o)[3].name == "Enough Disk Space for /boot"@,
        o.total_memory matches Ok(t) ==> (system_checks(o)[0].result is Passed <==> t
            >= 4294967296),
        o.disks matches Ok(v) ==> match available_for(disk_views(v@), "/usr"@) {
            Some(a) => system_checks(o)[1].result is Passed <==> a >= 1073741824,
            None => system_checks(o)[1].result is Failed,
        },
        o.disks matches Ok(v) ==> match available_for(disk_views(v@), "/var/lib"@) {
            Some(a) => system_checks(o)[2].result is Passed <==> a >= 5368709120,
            None => system_checks(o)[2].result is Failed,
        },
        o.disks matches Ok(v) ==> match available_for(disk_views(v@), "/boot"@) {
            Some(a) => system_checks(o)[3].result is Passed <==> a >= 209715200,
            None => system_checks(o)[3].result is Failed,
        },
{
    reveal_strlit("Enough Disk Space for ");
    reveal_strlit("/usr");
    reveal_strlit("/var/lib");
    reveal_strlit("/boot");
    reveal_strlit("Enough Disk Space for /usr");
    reveal_strlit("Enough Disk Space for /var/lib");
    reveal_strlit("Enough Disk Space for /boot");
    assert("Enough Disk Space for "@ + "/usr"@ =~= "Enough Disk Space for /usr"@);
    assert("Enough Disk Space for "@ + "/var/lib"@ =~= "Enough Disk Space for /var/lib"@);
    assert("Enough Disk Space for "@ + "/boot"@ =~= "Enough Disk Space for /boot"@);
}

pub struct SystemChecks;

impl SystemChecks {
    pub fn new() -> (r: SystemChecks) {
        SystemChecks
    }

    /// The basic utilities that must answer `--version`.
    pub fn basic_utilities(&self) -> (r: Vec<String>)
        ensures
            string_views(r@) == seq!["tar"@, "grep"@],
    {
        let r = crate::helpers::kernel::strings_of(&["tar", "grep"]);
        assert(string_views(r@) =~= seq!["tar"@, "grep"@]);
        r
    }

    /// The package managers tried, in order; one of them must answer `--version`.
    pub fn package_managers(&self) -> (r: Vec<String>)
        ensures
            string_views(r@) == seq!["dnf"@, "yum"@, "zypper"@, "apt-get"@, "apk"@],
    {
        let r = crate::helpers::kernel::strings_of(&["dnf", "yum", "zypper", "apt-get", "apk"]);
        assert(string_views(r@) =~= seq!["dnf"@, "yum"@, "zypper"@, "apt-get"@, "apk"@]);
        r
    }

    /// The `grub-mkconfig` binaries tried, in order.
    pub fn grub_mkconfig_bins(&self) -> (r: Vec<String>)
        ensures
            string_views(r@) == seq!["grub-mkconfig"@, "grub2-mkconfig"@],
    {
        let r = crate::helpers::kernel::strings_of(&["grub-mkconfig", "grub2-mkconfig"]);
        assert(string_views(r@) =~= seq!["grub-mkconfig"@, "grub2-mkconfig"@]);
        r
    }

    /// The service managers tried, in order.
    pub fn service_manager_bins(&self) -> (r: Vec<String>)
        ensures
            string_views(r@) == seq!["systemctl"@, "rc-update"@],
    {
        let r = crate::helpers::kernel::strings_of(&["systemctl", "rc-update"]);
        assert(string_views(r@) =~= seq!["systemctl"@, "rc-update"@]);
        r
    }

    /// Checks that total system RAM (`total` bytes, or the error met reading it) is at least
    /// 4 GB.
    pub fn enough_memory(&self, total: Result<u64, String>) -> (r: CheckResult)
        ensures
            r@ == memory_view(u64_res_view(total)),
    {
        memory_check(total)
    }

    /// Checks that the filesystem covering `mount_path` has at least `free_thresh` bytes free,
    /// among the mounted filesystems `disks` (or the error met listing them).
    pub fn enough_disk(&self, mount_path: &str, free_thresh: u64, disks: &Result<Vec<DiskSpace>, String>) -> (r:
        CheckResult)
        ensures
            r@ == disk_view(mount_path@, free_thresh, DiskWording::Needed, disks_res_view(*disks)),
    {
        disk_space_check(mount_path, free_thresh, DiskWording::Needed, disks)
    }

    /// Checks that the `nft` binary, which the installer and the network daemon rely on, could
    /// be started (`found`).
    pub fn has_nft_bin(&self, found: bool) -> (r: CheckResult)
        ensures
            r@ == tool_view(
                "'nft' Binary Present"@,
                found,
                "'nft' binary is required but not present, install `nftables`"@,
            ),
    {
        tool_check(
            "'nft' Binary Present",
            found,
            "'nft' binary is required but not present, install `nftables`",
        )
    }

    /// Checks that one of `package_managers` answered `--version` (`found`).
    pub fn has_package_manager_bin(&self, found: bool) -> (r: CheckResult)
        ensures
            r@ == tool_view(
                "Package Manager Binary Present"@,
                found,
                "no supported package manager found in PATH (tried: dnf, yum, zypper, apt-get, apk)"@,
            ),
    {
        tool_check(
            "Package Manager Binary Present",
            found,
            "no supported package manager found in PATH (tried: dnf, yum, zypper, apt-get, apk)",
        )
    }

    /// Checks that `grub-mkconfig` or `grub2-mkconfig` answered `--version` (`found`).
    pub fn has_grub_mkconfig_bin(&self, found: bool) -> (r: CheckResult)
        ensures
            r@ == tool_view(
                "'grub-mkconfig' Binary Present"@,
                found,
                "neither 'grub-mkconfig' nor 'grub2-mkconfig' found in PATH"@,
            ),
    {
        tool_check(
            "'grub-mkconfig' Binary Present",
            found,
            "neither 'grub-mkconfig' nor 'grub2-mkconfig' found in PATH",
        )
    }

    /// Checks that `systemctl` or `rc-update` answered `--version` (`found`).
    pub fn has_service_manager_bin(&self, found: bool) -> (r: CheckResult)
        ensures
            r@ == tool_view(
                "Service Manager Binary Present"@,
                found,
                "neither 'systemctl' nor 'rc-update' found in PATH"@,
            ),
    {
        tool_check(
            "Service Manager Binary Present",
            found,
            "neither 'systemctl' nor 'rc-update' found in PATH",
        )
    }

    /// Checks that the basic utilities are present in PATH, from the probe of each of them
    /// (whether it answered `--version`); a probe that could not run errs.
    pub fn has_linux_util_bins(&self, probe: &Result<Vec<(String, bool)>, String>) -> (r:
        CheckResult)
        ensures
            r@ == utilities_view(probe_view(*probe)),
    {
        let name = "Basic Linux Utility Binaries Present";
        match probe {
            Err(e) => CheckResult::new(
                name,
                CheckResultValue::Errored(
                    concat_strs("could not probe for basic Linux utility binaries: ", e.as_str()),
                ),
            ),
            Ok(answers) => {
                let ghost av = answers@.map_values(|x: (String, bool)| (x.0@, x.1));
                let mut missing: Vec<String> = Vec::new();
                let mut i: usize = 0;
                assert(av.take(0) =~= Seq::<(Seq<char>, bool)>::empty());
                assert(string_views(missing@) =~= Seq::<Seq<char>>::empty());
                while i < answers.len()
                    invariant
                        i <= answers.len(),
                        av == answers@.map_values(|x: (String, bool)| (x.0@, x.1)),
                        string_views(missing@) == not_answered(av.take(i as int)),
                    decreases answers.len() - i,
                {
                    assert(av.take(i + 1).drop_last() =~= av.take(i as int));
                    assert(av.take(i + 1).last() == av[i as int]);
                    if !answers[i].1 {
                        let n = answers[i].0.clone();
                        proof {
                            assert(string_views(missing@.push(n)) =~= string_views(missing@).push(
                                n@,
                            ));
                        }
                        missing.push(n);
                    }
                    i = i + 1;
                }
                assert(av.take(answers.len() as int) =~= av);
                if missing.len() == 0 {
                    CheckResult::new(name, CheckResultValue::Passed)
                } else {
                    let listed = join_exec(&missing, ", ");
                    CheckResult::new(
                        name,
                        CheckResultValue::Errored(
                            concat_strs(
                                "required basic Linux utility binaries not found in PATH: ",
                                listed.as_str(),
                            ),
                        ),
                    )
                }
            },
        }
    }

    /// The group's result from what was observed on the host.
    pub fn run_all(&self, o: SystemObservations) -> (r: CheckGroupResult)
        ensures
            r@ == (GroupView {
                name: NAME@,
                result: group_outcome(system_checks(&o), ""@, ""@),
                results: system_checks(&o),
            }),
    {
        let ghost expected = system_checks(&o);
        let mut results: Vec<CheckResult> = Vec::new();
        results.push(self.enough_memory(o.total_memory));
        results.push(self.enough_disk("/usr", MINIMUM_DISK_GENERAL, &o.disks));
        results.push(self.enough_disk("/var/lib", MINIMUM_DISK_VAR, &o.disks));
        results.push(self.enough_disk("/boot", MINIMUM_DISK_BOOT, &o.disks));
        results.push(self.has_nft_bin(o.nft_found));
        results.push(self.has_package_manager_bin(o.package_manager_found));
        results.push(self.has_grub_mkconfig_bin(o.grub_mkconfig_found));
        results.push(self.has_service_manager_bin(o.service_manager_found));
        results.push(self.has_linux_util_bins(&o.utilities));
        let r = group_from(NAME, results, "", "");
        assert(r@.results =~= expected);
        r
    }
}

impl CheckGroup for SystemChecks {
    fn name(&self) -> (r: &str)
        ensures
            r@ == NAME@,
    {
        NAME
    }

    fn id(&self) -> (r: &str)
        ensures
            r@ == GROUP_IDENTIFIER@,
    {
        GROUP_IDENTIFIER
    }

    fn description(&self) -> (r: &str)
        ensures
            r@ == "System requirement checks"@,
    {
        "System requirement checks"
    }

    fn category(&self) -> (r: CheckGroupCategory)
        ensures
            r@ == CategoryView::Required,
    {
        CheckGroupCategory::Required
    }
}

} // verus!
