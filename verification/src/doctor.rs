//! What `scorpio doctor` decides: how a check is reported, which lines of
//! `/proc/filesystems` and `/etc/fuse.conf` count, which directories must be
//! writable, and the exit code of the run. Reading the files and probing the
//! directories is the caller's part.

use vstd::prelude::*;

use crate::cli::exit;
use crate::text::{cat, char_is_white_space, decimal, is_white_space, same_text, trim, trim_text, u64_text};
use crate::util::config::{ConfigView, ScorpioConfig};

verus! {

/// The outcome of one diagnostic.
#[derive(Clone, Copy, PartialEq, Eq, Structural)]
pub enum Status {
    Pass,
    Warn,
    Fail,
}

pub open spec fn tag_of(status: Status) -> Seq<char> {
    match status {
        Status::Pass => "[ OK ]"@,
        Status::Warn => "[WARN]"@,
        Status::Fail => "[FAIL]"@,
    }
}

/// The tag a report line starts with.
pub fn status_tag(status: Status) -> (r: &'static str)
    ensures
        r@ == tag_of(status),
{
    match status {
        Status::Pass => "[ OK ]",
        Status::Warn => "[WARN]",
        Status::Fail => "[FAIL]",
    }
}

/// The line printed for one diagnostic: `{tag} {name}: {detail}`.
pub fn report_line(status: Status, name: &str, detail: &str) -> (r: String)
    ensures
        r@ == tag_of(status) + " "@ + name@ + ": "@ + detail@,
{
    cat(cat(cat(cat(String::from_str(status_tag(status)), " "), name), ": "), detail)
}

/// The exit code of a run: success when no critical check failed.
pub fn run_exit_code(failures: u32) -> (code: i32)
    ensures
        code == (if failures == 0 {
            exit::SUCCESS
        } else {
            exit::INTERNAL
        }),
{
    if failures == 0 {
        exit::SUCCESS
    } else {
        exit::INTERNAL
    }
}

/// The runtime directories that must exist and be writable, by name.
pub fn directories_to_check(cfg: &ScorpioConfig) -> (v: Vec<(&str, &str)>)
    ensures
        v@.len() == 5,
        v@[0].0@ == "workspace"@ && v@[0].1@ == cfg.workspace@,
        v@[1].0@ == "store_path"@ && v@[1].1@ == cfg.store_path@,
        v@[2].0@ == "antares_upper_root"@ && v@[2].1@ == cfg.antares_upper_root@,
        v@[3].0@ == "antares_cl_root"@ && v@[3].1@ == cfg.antares_cl_root@,
        v@[4].0@ == "antares_mount_root"@ && v@[4].1@ == cfg.antares_mount_root@,
{
    vec![
        ("workspace", cfg.workspace.as_str()),
        ("store_path", cfg.store_path.as_str()),
        ("antares_upper_root", cfg.antares_upper_root.as_str()),
        ("antares_cl_root", cfg.antares_cl_root.as_str()),
        ("antares_mount_root", cfg.antares_mount_root.as_str()),
    ]
}

/// The length of the first line of `s` (up to, not including, its `\n`).
pub open spec fn line_end(s: Seq<char>) -> nat
    decreases s.len(),
{
    if s.len() == 0 || s[0] == '\n' {
        0
    } else {
        1 + line_end(s.drop_first())
    }
}

pub proof fn lemma_line_end(s: Seq<char>)
    ensures
        line_end(s) <= s.len(),
        line_end(s) < s.len() ==> s[line_end(s) as int] == '\n',
        forall|i: int| 0 <= i < line_end(s) ==> s[i] != '\n',
    decreases s.len(),
{
    if s.len() > 0 && s[0] != '\n' {
        lemma_line_end(s.drop_first());
        assert forall|i: int| 0 <= i < line_end(s) implies s[i] != '\n' by {
            if i > 0 {
                assert(s[i] == s.drop_first()[i - 1]);
            }
        }
    }
}

/// Which line test a scan applies.
#[derive(Clone, Copy)]
pub enum LineTest {
    /// The line's last whitespace-separated field is `fuse`.
    FuseFilesystem,
    /// The line, trimmed, is `user_allow_other`.
    UserAllowOther,
}

/// `t` ends with the whole field `fuse`.
pub open spec fn ends_with_fuse_field(t: Seq<char>) -> bool {
    t.len() >= 4 && t.subrange(t.len() - 4, t.len() as int) == "fuse"@ && (t.len() == 4 || is_white_space(t[t.len() - 5]))
}

pub open spec fn line_passes(test: LineTest, line: Seq<char>) -> bool {
    match test {
        LineTest::FuseFilesystem => ends_with_fuse_field(trim(line)),
        LineTest::UserAllowOther => trim(line) == "user_allow_other"@,
    }
}

/// Some line of `s` (as `str::lines` splits it) passes the test.
pub open spec fn some_line_passes(test: LineTest, s: Seq<char>) -> bool
    decreases s.len(),
{
    if s.len() == 0 {
        false
    } else {
        let k = line_end(s) as int;
        line_passes(test, s.subrange(0, k)) || (k < s.len() && {
            proof {
                lemma_line_end(s);
            }
            some_line_passes(test, s.subrange(k + 1, s.len() as int))
        })
    }
}

fn line_test(test: LineTest, line: &str) -> (b: bool)
    ensures
        b == line_passes(test, line@),
{
    let t = trim_text(line);
    match test {
        LineTest::UserAllowOther => same_text(t.as_str(), "user_allow_other"),
        LineTest::FuseFilesystem => {
            let n = t.as_str().unicode_len();
            if n < 4 {
                return false;
            }
            let tail = t.as_str().substring_char(n - 4, n);
            if !same_text(tail, "fuse") {
                return false;
            }
            n == 4 || char_is_white_space(t.as_str().get_char(n - 5))
        },
    }
}

/// Whether some line of `contents` passes the test.
pub fn any_line_passes(test: LineTest, contents: &str) -> (b: bool)
    ensures
        b == some_line_passes(test, contents@),
{
    let n = contents.unicode_len();
    let mut pos: usize = 0;
    assert(contents@.subrange(0, n as int) =~= contents@);
    while pos < n
        invariant
            n == contents@.len(),
            pos <= n,
            some_line_passes(test, contents@) == some_line_passes(test, contents@.subrange(pos as int, n as int)),
        decreases n - pos,
    {
        let ghost rest = contents@.subrange(pos as int, n as int);
        proof {
            lemma_line_end(rest);
        }
        let mut k: usize = pos;
        while k < n && contents.get_char(k) != '\n'
            invariant
                n == contents@.len(),
                pos <= k <= n,
                rest == contents@.subrange(pos as int, n as int),
                k - pos <= line_end(rest),
                line_end(rest) <= rest.len(),
                line_end(rest) < rest.len() ==> rest[line_end(rest) as int] == '\n',
                forall|i: int| pos <= i < k ==> contents@[i] != '\n',
            decreases n - k,
        {
            assert(rest[k - pos] == contents@[k as int]);
            k = k + 1;
        }
        assert(k - pos == line_end(rest)) by {
            if k < n {
                assert(rest[k - pos] == '\n');
            }
        }
        let line = contents.substring_char(pos, k);
        assert(line@ =~= rest.subrange(0, (k - pos) as int));
        if line_test(test, line) {
            return true;
        }
        if k == n {
            return false;
        }
        assert(rest.subrange((k - pos) + 1, rest.len() as int) =~= contents@.subrange(k + 1, n as int));
        pos = k + 1;
    }
    false
}

/// One diagnostic's outcome: its status, the check's name and the detail
/// reported. A failed check is a critical one.
pub struct Check {
    pub status: Status,
    pub name: String,
    pub detail: String,
}

pub struct CheckView {
    pub status: Status,
    pub name: Seq<char>,
    pub detail: Seq<char>,
}

impl View for Check {
    type V = CheckView;

    open spec fn view(&self) -> CheckView {
        CheckView { status: self.status, name: self.name@, detail: self.detail@ }
    }
}

pub open spec fn checked(status: Status, name: Seq<char>, detail: Seq<char>) -> CheckView {
    CheckView { status, name, detail }
}

fn check(status: Status, name: &str, detail: String) -> (c: Check)
    ensures
        c@ == checked(status, name@, detail@),
{
    Check { status, name: String::from_str(name), detail }
}

/// The line printed for a check.
pub fn check_line(c: &Check) -> (r: String)
    ensures
        r@ == tag_of(c.status) + " "@ + c.name@ + ": "@ + c.detail@,
{
    report_line(c.status, c.name.as_str(), c.detail.as_str())
}

pub open spec fn fuse_device_of(present: bool) -> CheckView {
    if present {
        checked(Status::Pass, "fuse device"@, "/dev/fuse is present"@)
    } else {
        checked(
            Status::Fail,
            "fuse device"@,
            "/dev/fuse not found (load the `fuse` kernel module, or run in a FUSE-capable environment / container with --device /dev/fuse)"@,
        )
    }
}

/// The FUSE device check: `/dev/fuse` must be present.
pub fn fuse_device_check(present: bool) -> (c: Check)
    ensures
        c@ == fuse_device_of(present),
{
    if present {
        check(Status::Pass, "fuse device", String::from_str("/dev/fuse is present"))
    } else {
        check(
            Status::Fail,
            "fuse device",
            String::from_str(
                "/dev/fuse not found (load the `fuse` kernel module, or run in a FUSE-capable environment / container with --device /dev/fuse)",
            ),
        )
    }
}

pub open spec fn fuse_filesystem_of(contents: Result<String, String>) -> CheckView {
    match contents {
        Ok(t) => if some_line_passes(LineTest::FuseFilesystem, t@) {
            checked(Status::Pass, "fuse filesystem"@, "kernel supports fuse"@)
        } else {
            checked(
                Status::Warn,
                "fuse filesystem"@,
                "`fuse` not listed in /proc/filesystems (the module may load on demand)"@,
            )
        },
        Err(e) => checked(Status::Warn, "fuse filesystem"@, "could not read /proc/filesystems: "@ + e@),
    }
}

/// The kernel check, given `/proc/filesystems` or why it could not be read:
/// some line must name the `fuse` filesystem; a missing entry only warns.
pub fn fuse_filesystem_check(contents: Result<String, String>) -> (c: Check)
    ensures
        c@ == fuse_filesystem_of(contents),
{
    match contents {
        Ok(t) => {
            if any_line_passes(LineTest::FuseFilesystem, t.as_str()) {
                check(Status::Pass, "fuse filesystem", String::from_str("kernel supports fuse"))
            } else {
                check(
                    Status::Warn,
                    "fuse filesystem",
                    String::from_str("`fuse` not listed in /proc/filesystems (the module may load on demand)"),
                )
            }
        },
        Err(e) => check(
            Status::Warn,
            "fuse filesystem",
            cat(String::from_str("could not read /proc/filesystems: "), e.as_str()),
        ),
    }
}

pub open spec fn fuse_conf_of(contents: Option<String>) -> CheckView {
    match contents {
        Some(t) => if some_line_passes(LineTest::UserAllowOther, t@) {
            checked(Status::Pass, "/etc/fuse.conf"@, "user_allow_other is enabled"@)
        } else {
            checked(
                Status::Warn,
                "/etc/fuse.conf"@,
                "user_allow_other not enabled (only needed for allow_other mounts)"@,
            )
        },
        None => checked(Status::Warn, "/etc/fuse.conf"@, "not found (only needed for allow_other mounts)"@),
    }
}

/// The `/etc/fuse.conf` check, given its text when it could be read: a
/// `user_allow_other` line passes, anything else only warns.
pub fn fuse_conf_check(contents: Option<String>) -> (c: Check)
    ensures
        c@ == fuse_conf_of(contents),
{
    match contents {
        Some(t) => {
            if any_line_passes(LineTest::UserAllowOther, t.as_str()) {
                check(Status::Pass, "/etc/fuse.conf", String::from_str("user_allow_other is enabled"))
            } else {
                check(
                    Status::Warn,
                    "/etc/fuse.conf",
                    String::from_str("user_allow_other not enabled (only needed for allow_other mounts)"),
                )
            }
        },
        None => check(
            Status::Warn,
            "/etc/fuse.conf",
            String::from_str("not found (only needed for allow_other mounts)"),
        ),
    }
}

/// Whether a runtime directory is usable: it must exist, be a directory,
/// and take a freshly created probe file (`probe` says how creating it went).
pub open spec fn writable_of(exists: bool, is_dir: bool, probe: Result<(), Seq<char>>) -> Result<(), Seq<char>> {
    if !exists {
        Err("does not exist"@)
    } else if !is_dir {
        Err("not a directory"@)
    } else {
        match probe {
            Ok(()) => Ok(()),
            Err(e) => Err("not writable: "@ + e),
        }
    }
}

pub open spec fn unit_text(r: Result<(), String>) -> Result<(), Seq<char>> {
    match r {
        Ok(()) => Ok(()),
        Err(e) => Err(e@),
    }
}

pub fn writable_verdict(exists: bool, is_dir: bool, probe: Result<(), String>) -> (r: Result<(), String>)
    ensures
        unit_text(r) == writable_of(exists, is_dir, unit_text(probe)),
{
    if !exists {
        return Err(String::from_str("does not exist"));
    }
    if !is_dir {
        return Err(String::from_str("not a directory"));
    }
    match probe {
        Ok(()) => Ok(()),
        Err(e) => Err(cat(String::from_str("not writable: "), e.as_str())),
    }
}

pub open spec fn directory_check_of(name: Seq<char>, path: Seq<char>, verdict: Result<(), String>) -> CheckView {
    match verdict {
        Ok(()) => checked(Status::Pass, name, path + " is writable"@),
        Err(e) => checked(Status::Fail, name, path + ": "@ + e@),
    }
}

/// The check of the runtime directory `name` at `path`; an unusable one is
/// a critical failure.
pub fn directory_check(name: &str, path: &str, verdict: Result<(), String>) -> (c: Check)
    ensures
        c@ == directory_check_of(name@, path@, verdict),
{
    match verdict {
        Ok(()) => check(Status::Pass, name, cat(String::from_str(path), " is writable")),
        Err(e) => check(Status::Fail, name, cat(cat(String::from_str(path), ": "), e.as_str())),
    }
}

/// How probing the mega server went.
pub enum MegaReply {
    /// The HTTP client could not be built.
    NoClient(String),
    /// The server answered with this status code.
    Reachable(u16),
    /// The request failed.
    Unreachable(String),
}

/// The mega server check; the server being out of reach only warns.
pub open spec fn mega_check_of(base: Seq<char>, reply: MegaReply) -> CheckView {
    match reply {
        MegaReply::NoClient(e) => checked(Status::Warn, "mega server"@, "could not build HTTP client: "@ + e@),
        MegaReply::Reachable(code) => checked(
            Status::Pass,
            "mega server"@,
            base + " reachable (HTTP "@ + decimal(code as nat) + ")"@,
        ),
        MegaReply::Unreachable(e) => checked(Status::Warn, "mega server"@, base + " unreachable: "@ + e@),
    }
}

pub fn mega_check(base: &str, reply: MegaReply) -> (c: Check)
    ensures
        c@ == mega_check_of(base@, reply),
{
    match reply {
        MegaReply::NoClient(e) => check(
            Status::Warn,
            "mega server",
            cat(String::from_str("could not build HTTP client: "), e.as_str()),
        ),
        MegaReply::Reachable(code) => {
            let n = u64_text(code as u64);
            check(Status::Pass, "mega server", cat(cat(cat(String::from_str(base), " reachable (HTTP "), n.as_str()), ")"))
        },
        MegaReply::Unreachable(e) => check(
            Status::Warn,
            "mega server",
            cat(cat(String::from_str(base), " unreachable: "), e.as_str()),
        ),
    }
}

/// The number of failed checks among `cs`.
pub open spec fn failures_in(cs: Seq<CheckView>) -> nat
    decreases cs.len(),
{
    if cs.len() == 0 {
        0
    } else {
        failures_in(cs.drop_last()) + if cs.last().status == Status::Fail { 1nat } else { 0nat }
    }
}

pub open spec fn checks_view(cs: Seq<Check>) -> Seq<CheckView> {
    cs.map_values(|c: Check| c@)
}

/// Counts the critical failures among the checks run.
pub fn count_failures(cs: &Vec<Check>) -> (n: u32)
    requires
        cs@.len() <= u32::MAX,
    ensures
        n == failures_in(checks_view(cs@)),
{
    let mut n: u32 = 0;
    let mut k: usize = 0;
    while k < cs.len()
        invariant
            k <= cs@.len(),
            cs@.len() <= u32::MAX,
            n == failures_in(checks_view(cs@).subrange(0, k as int)),
            n <= k,
        decreases cs@.len() - k,
    {
        let ghost all = checks_view(cs@);
        assert(all.subrange(0, k + 1).drop_last() =~= all.subrange(0, k as int));
        assert(all[k as int] == cs@[k as int]@);
        if cs[k].status == Status::Fail {
            n = n + 1;
        }
        k = k + 1;
    }
    assert(checks_view(cs@).subrange(0, cs@.len() as int) =~= checks_view(cs@));
    n
}

/// The closing line of a run.
pub fn summary_line(failures: u32) -> (r: String)
    ensures
        r@ == (if failures == 0 {
            "All critical checks passed."@
        } else {
            decimal(failures as nat) + " critical check(s) failed."@
        }),
{
    if failures == 0 {
        String::from_str("All critical checks passed.")
    } else {
        cat(u64_text(failures as u64), " critical check(s) failed.")
    }
}

/// A run succeeds exactly when none of its checks failed.
pub proof fn law_run_fails_iff_a_check_failed(cs: Seq<CheckView>)
    ensures
        failures_in(cs) == 0 <==> forall|i: int| 0 <= i < cs.len() ==> cs[i].status != Status::Fail,
    decreases cs.len(),
{
    if cs.len() > 0 {
        law_run_fails_iff_a_check_failed(cs.drop_last());
        if failures_in(cs) == 0 {
            assert forall|i: int| 0 <= i < cs.len() implies cs[i].status != Status::Fail by {
                if i < cs.len() - 1 {
                    assert(cs[i] == cs.drop_last()[i]);
                }
            }
        } else {
            if cs.last().status != Status::Fail {
                let i = choose|i: int| 0 <= i < cs.drop_last().len() && cs.drop_last()[i].status == Status::Fail;
                assert(cs[i] == cs.drop_last()[i]);
            }
        }
    }
}

} // verus!

verus! {

/// How probing each runtime directory went.
pub struct DirVerdicts {
    pub workspace: Result<(), String>,
    pub store_path: Result<(), String>,
    pub antares_upper_root: Result<(), String>,
    pub antares_cl_root: Result<(), String>,
    pub antares_mount_root: Result<(), String>,
}

pub open spec fn dirs_ok(d: DirVerdicts) -> bool {
    d.workspace is Ok && d.store_path is Ok && d.antares_upper_root is Ok && d.antares_cl_root is Ok
        && d.antares_mount_root is Ok
}

/// A doctor run: the checks in the order they are reported, how many of
/// them failed, and the exit code.
pub struct DoctorRun {
    pub checks: Vec<Check>,
    pub failures: u32,
    pub code: i32,
}

/// The checks a run makes, in order: the FUSE device, the kernel's FUSE
/// support, `/etc/fuse.conf`, each runtime directory, and the mega server.
pub open spec fn run_checks_of(
    cfg: ConfigView,
    device_present: bool,
    filesystems: Result<String, String>,
    fuse_conf: Option<String>,
    dirs: DirVerdicts,
    mega: MegaReply,
) -> Seq<CheckView> {
    seq![
        fuse_device_of(device_present),
        fuse_filesystem_of(filesystems),
        fuse_conf_of(fuse_conf),
        directory_check_of("workspace"@, cfg.workspace, dirs.workspace),
        directory_check_of("store_path"@, cfg.store_path, dirs.store_path),
        directory_check_of("antares_upper_root"@, cfg.antares_upper_root, dirs.antares_upper_root),
        directory_check_of("antares_cl_root"@, cfg.antares_cl_root, dirs.antares_cl_root),
        directory_check_of("antares_mount_root"@, cfg.antares_mount_root, dirs.antares_mount_root),
        mega_check_of(cfg.base_url, mega),
    ]
}

/// Runs the diagnostics on what the caller found: the checks are made in
/// order; only a missing FUSE device and an unusable runtime directory are
/// failures, so the run succeeds exactly when the device is present and
/// every directory is usable.
pub fn run_checks(
    cfg: &ScorpioConfig,
    device_present: bool,
    filesystems: Result<String, String>,
    fuse_conf: Option<String>,
    dirs: DirVerdicts,
    mega: MegaReply,
) -> (r: DoctorRun)
    ensures
        checks_view(r.checks@) == run_checks_of(cfg@, device_present, filesystems, fuse_conf, dirs, mega),
        r.failures == failures_in(checks_view(r.checks@)),
        r.code == (if device_present && dirs_ok(dirs) {
            exit::SUCCESS
        } else {
            exit::INTERNAL
        }),
{
    let ghost want = run_checks_of(cfg@, device_present, filesystems, fuse_conf, dirs, mega);
    let ghost ok = device_present && dirs_ok(dirs);
    let mut checks: Vec<Check> = Vec::new();
    checks.push(fuse_device_check(device_present));
    checks.push(fuse_filesystem_check(filesystems));
    checks.push(fuse_conf_check(fuse_conf));
    let DirVerdicts { workspace, store_path, antares_upper_root, antares_cl_root, antares_mount_root } = dirs;
    checks.push(directory_check("workspace", cfg.workspace.as_str(), workspace));
    checks.push(directory_check("store_path", cfg.store_path.as_str(), store_path));
    checks.push(directory_check("antares_upper_root", cfg.antares_upper_root.as_str(), antares_upper_root));
    checks.push(directory_check("antares_cl_root", cfg.antares_cl_root.as_str(), antares_cl_root));
    checks.push(directory_check("antares_mount_root", cfg.antares_mount_root.as_str(), antares_mount_root));
    checks.push(mega_check(cfg.base_url.as_str(), mega));
    assert(checks_view(checks@) =~= want);
    let failures = count_failures(&checks);
    proof {
        law_run_fails_iff_a_check_failed(want);
        if ok {
            assert forall|i: int| 0 <= i < want.len() implies want[i].status != Status::Fail by {}
        } else {
            if !device_present {
                assert(want[0].status == Status::Fail);
            } else if workspace is Err {
                assert(want[3].status == Status::Fail);
            } else if store_path is Err {
                assert(want[4].status == Status::Fail);
            } else if antares_upper_root is Err {
                assert(want[5].status == Status::Fail);
            } else if antares_cl_root is Err {
                assert(want[6].status == Status::Fail);
            } else {
                assert(want[7].status == Status::Fail);
            }
        }
    }
    let code = run_exit_code(failures);
    DoctorRun { checks, failures, code }
}

/// A doctor run names each runtime directory's check after that directory,
/// starts its detail with that directory's path, and fails it exactly when
/// that directory is unusable. The FUSE device check fails exactly when the
/// device is missing, and no other check fails.
pub proof fn law_run_reports_each_directory_itself(
    cfg: ConfigView,
    device_present: bool,
    filesystems: Result<String, String>,
    fuse_conf: Option<String>,
    dirs: DirVerdicts,
    mega: MegaReply,
)
    ensures
        ({
            let cs = run_checks_of(cfg, device_present, filesystems, fuse_conf, dirs, mega);
            &&& cs.len() == 9
            &&& cs[0].name == "fuse device"@ && (cs[0].status == Status::Fail <==> !device_present)
            &&& cs[3].name == "workspace"@ && (cs[3].status == Status::Fail <==> dirs.workspace is Err)
                && cs[3].detail.subrange(0, cfg.workspace.len() as int) == cfg.workspace
            &&& cs[4].name == "store_path"@ && (cs[4].status == Status::Fail <==> dirs.store_path is Err)
                && cs[4].detail.subrange(0, cfg.store_path.len() as int) == cfg.store_path
            &&& cs[5].name == "antares_upper_root"@ && (cs[5].status == Status::Fail <==> dirs.antares_upper_root is Err)
                && cs[5].detail.subrange(0, cfg.antares_upper_root.len() as int) == cfg.antares_upper_root
            &&& cs[6].name == "antares_cl_root"@ && (cs[6].status == Status::Fail <==> dirs.antares_cl_root is Err)
                && cs[6].detail.subrange(0, cfg.antares_cl_root.len() as int) == cfg.antares_cl_root
            &&& cs[7].name == "antares_mount_root"@ && (cs[7].status == Status::Fail <==> dirs.antares_mount_root is Err)
                && cs[7].detail.subrange(0, cfg.antares_mount_root.len() as int) == cfg.antares_mount_root
            &&& forall|i: int| 0 <= i < cs.len() && cs[i].status == Status::Fail ==> i == 0 || 3 <= i < 8
        }),
{
    let cs = run_checks_of(cfg, device_present, filesystems, fuse_conf, dirs, mega);
    assert(cs[3].detail.subrange(0, cfg.workspace.len() as int) =~= cfg.workspace);
    assert(cs[4].detail.subrange(0, cfg.store_path.len() as int) =~= cfg.store_path);
    assert(cs[5].detail.subrange(0, cfg.antares_upper_root.len() as int) =~= cfg.antares_upper_root);
    assert(cs[6].detail.subrange(0, cfg.antares_cl_root.len() as int) =~= cfg.antares_cl_root);
    assert(cs[7].detail.subrange(0, cfg.antares_mount_root.len() as int) =~= cfg.antares_mount_root);
}

} // verus!
