//! What each command reports and exits with, given how its work went: the
//! lines it prints to standard output and standard error, and its exit code.

use vstd::prelude::*;

use crate::antares::{instances_view, AntaresConfig, InstanceView};
use crate::cli::exit::{CONFIG, INTERNAL, MOUNT, SUCCESS};
use crate::text::{cat, decimal, u64_text};
use crate::util::config::texts;
use crate::util::sources::{json_pretty, pretty_json};

verus! {

/// A command's outcome: its exit code and the lines it prints.
pub struct Report {
    pub code: i32,
    pub out: Vec<String>,
    pub err: Vec<String>,
}

pub struct ReportView {
    pub code: i32,
    pub out: Seq<Seq<char>>,
    pub err: Seq<Seq<char>>,
}

impl View for Report {
    type V = ReportView;

    open spec fn view(&self) -> ReportView {
        ReportView { code: self.code, out: texts(self.out@), err: texts(self.err@) }
    }
}

pub open spec fn said(code: i32, out: Seq<Seq<char>>, err: Seq<Seq<char>>) -> ReportView {
    ReportView { code, out, err }
}

fn no_lines() -> (v: Vec<String>)
    ensures
        texts(v@) == Seq::<Seq<char>>::empty(),
{
    let v: Vec<String> = Vec::new();
    assert(texts(v@) =~= Seq::<Seq<char>>::empty());
    v
}

fn one_line(s: String) -> (v: Vec<String>)
    ensures
        texts(v@) == seq![s@],
{
    let mut v: Vec<String> = Vec::new();
    v.push(s);
    assert(texts(v@) =~= seq![s@]);
    v
}

fn push_line(v: &mut Vec<String>, s: String)
    ensures
        texts(final(v)@) == texts(old(v)@).push(s@),
{
    v.push(s);
    assert(texts(v@) =~= texts(old(v)@).push(s@));
}

/// The outcome of `mount`: where the job was mounted, or why it was not.
pub open spec fn mount_report_of(job_id: Seq<char>, outcome: Result<Seq<char>, Seq<char>>) -> ReportView {
    match outcome {
        Ok(mountpoint) => said(SUCCESS, seq!["mounted job "@ + job_id + " at "@ + mountpoint], seq![]),
        Err(e) => said(MOUNT, seq![], seq!["failed to mount job "@ + job_id + ": "@ + e]),
    }
}

pub open spec fn result_text(r: Result<String, String>) -> Result<Seq<char>, Seq<char>> {
    match r {
        Ok(s) => Ok(s@),
        Err(e) => Err(e@),
    }
}

pub fn mount_report(job_id: &str, outcome: Result<String, String>) -> (r: Report)
    ensures
        r@ == mount_report_of(job_id@, result_text(outcome)),
{
    match outcome {
        Ok(mountpoint) => {
            let line = cat(cat(cat(String::from_str("mounted job "), job_id), " at "), mountpoint.as_str());
            Report { code: SUCCESS, out: one_line(line), err: no_lines() }
        },
        Err(e) => {
            let line = cat(cat(cat(String::from_str("failed to mount job "), job_id), ": "), e.as_str());
            Report { code: MOUNT, out: no_lines(), err: one_line(line) }
        },
    }
}

/// The outcome of `umount`: the job was unmounted, was not tracked, or the
/// unmount failed.
pub open spec fn umount_report_of(job_id: Seq<char>, outcome: Result<bool, Seq<char>>) -> ReportView {
    match outcome {
        Ok(true) => said(SUCCESS, seq!["unmounted job "@ + job_id], seq![]),
        Ok(false) => said(MOUNT, seq![], seq!["job "@ + job_id + " not found"@]),
        Err(e) => said(MOUNT, seq![], seq!["failed to unmount job "@ + job_id + ": "@ + e]),
    }
}

pub open spec fn found_text(r: Result<bool, String>) -> Result<bool, Seq<char>> {
    match r {
        Ok(b) => Ok(b),
        Err(e) => Err(e@),
    }
}

/// `outcome` is `Ok(true)` when a tracked job was unmounted, `Ok(false)` when
/// no job of that id was tracked.
pub fn umount_report(job_id: &str, outcome: Result<bool, String>) -> (r: Report)
    ensures
        r@ == umount_report_of(job_id@, found_text(outcome)),
{
    match outcome {
        Ok(true) => {
            let line = cat(String::from_str("unmounted job "), job_id);
            Report { code: SUCCESS, out: one_line(line), err: no_lines() }
        },
        Ok(false) => {
            let line = cat(cat(String::from_str("job "), job_id), " not found");
            Report { code: MOUNT, out: no_lines(), err: one_line(line) }
        },
        Err(e) => {
            let line = cat(cat(cat(String::from_str("failed to unmount job "), job_id), ": "), e.as_str());
            Report { code: MOUNT, out: no_lines(), err: one_line(line) }
        },
    }
}

/// How `list` shows one tracked job.
pub open spec fn instance_line_of(c: InstanceView) -> Seq<char> {
    "job_id="@ + c.job_id + " mount="@ + c.mountpoint + " upper="@ + c.upper_dir + " cl="@ + match c.cl_dir {
        Some(d) => d,
        None => "(none)"@,
    }
}

pub open spec fn list_report_of(items: Seq<InstanceView>) -> ReportView {
    if items.len() == 0 {
        said(SUCCESS, seq!["no active jobs"@], seq![])
    } else {
        said(SUCCESS, items.map_values(|c: InstanceView| instance_line_of(c)), seq![])
    }
}

fn instance_line(c: &AntaresConfig) -> (r: String)
    ensures
        r@ == instance_line_of(c@),
{
    let line = cat(cat(cat(cat(cat(cat(String::from_str("job_id="), c.job_id.as_str()), " mount="), c.mountpoint.as_str()), " upper="), c.upper_dir.as_str()), " cl=");
    match &c.cl_dir {
        Some(d) => cat(line, d.as_str()),
        None => cat(line, "(none)"),
    }
}

/// What `list` prints of the tracked jobs, one line each.
pub fn list_report(items: &Vec<AntaresConfig>) -> (r: Report)
    ensures
        r@ == list_report_of(instances_view(items@)),
{
    if items.len() == 0 {
        return Report { code: SUCCESS, out: one_line(String::from_str("no active jobs")), err: no_lines() };
    }
    let ghost want = instances_view(items@).map_values(|c: InstanceView| instance_line_of(c));
    let mut out: Vec<String> = Vec::new();
    let mut k: usize = 0;
    while k < items.len()
        invariant
            k <= items@.len(),
            want == instances_view(items@).map_values(|c: InstanceView| instance_line_of(c)),
            want.len() == items@.len(),
            texts(out@) == want.subrange(0, k as int),
        decreases items@.len() - k,
    {
        let line = instance_line(&items[k]);
        let ghost before = out@;
        out.push(line);
        proof {
            assert(instances_view(items@)[k as int] == items@[k as int]@);
            assert(want[k as int] == line@);
            assert(out@ == before.push(line));
            assert(texts(before).len() == before.len());
            assert forall|j: int| 0 <= j < k + 1 implies #[trigger] texts(out@)[j] == want.subrange(0, k + 1)[j] by {
                if j < k {
                    assert(out@[j] == before[j]);
                    assert(texts(before)[j] == want.subrange(0, k as int)[j]);
                }
            }
            assert(texts(out@) =~= want.subrange(0, k + 1));
        }
        k = k + 1;
    }
    assert(want.subrange(0, items@.len() as int) =~= want);
    Report { code: SUCCESS, out, err: no_lines() }
}

/// What `config validate` reports: the file is fine, or every problem
/// found, each on a line of its own.
pub open spec fn validate_report_of(path: Seq<char>, result: Result<(), Seq<Seq<char>>>) -> ReportView {
    match result {
        Ok(()) => said(SUCCESS, seq![path + ": OK"@], seq![]),
        Err(problems) => said(
            CONFIG,
            seq![],
            seq![path + ": "@ + decimal(problems.len()) + " problem(s) found:"@]
                + problems.map_values(|p: Seq<char>| "  - "@ + p),
        ),
    }
}

pub open spec fn problems_text(r: Result<(), Vec<String>>) -> Result<(), Seq<Seq<char>>> {
    match r {
        Ok(()) => Ok(()),
        Err(ps) => Err(texts(ps@)),
    }
}

pub fn validate_report(path: &str, result: Result<(), Vec<String>>) -> (r: Report)
    ensures
        r@ == validate_report_of(path@, problems_text(result)),
{
    match result {
        Ok(()) => Report { code: SUCCESS, out: one_line(cat(String::from_str(path), ": OK")), err: no_lines() },
        Err(problems) => {
            let n = problems.len() as u64;
            let head = cat(cat(cat(String::from_str(path), ": "), u64_text(n).as_str()), " problem(s) found:");
            let ghost tail = texts(problems@).map_values(|p: Seq<char>| "  - "@ + p);
            let mut err = one_line(head);
            let mut k: usize = 0;
            while k < problems.len()
                invariant
                    k <= problems@.len(),
                    tail == texts(problems@).map_values(|p: Seq<char>| "  - "@ + p),
                    texts(err@) == seq![head@] + tail.subrange(0, k as int),
                decreases problems@.len() - k,
            {
                let line = cat(String::from_str("  - "), problems[k].as_str());
                let ghost before = err@;
                push_line(&mut err, line);
                assert(texts(err@) =~= seq![head@] + tail.subrange(0, k + 1));
                k = k + 1;
            }
            assert(tail.subrange(0, problems@.len() as int) =~= tail);
            Report { code: CONFIG, out: no_lines(), err }
        },
    }
}

/// `config init` refuses to overwrite an existing file unless forced.
pub open spec fn init_refusal_of(path: Seq<char>, exists: bool, force: bool) -> Option<ReportView> {
    if exists && !force {
        Some(said(CONFIG, seq![], seq!["refusing to overwrite existing '"@ + path + "' (use --force)"@]))
    } else {
        None
    }
}

pub open spec fn opt_report(r: Option<Report>) -> Option<ReportView> {
    match r {
        Some(x) => Some(x@),
        None => None,
    }
}

/// Whether `config init` stops before writing the template to `path`, and
/// what it then reports.
pub fn init_refusal(path: &str, exists: bool, force: bool) -> (r: Option<Report>)
    ensures
        opt_report(r) == init_refusal_of(path@, exists, force),
{
    if exists && !force {
        let line = cat(cat(String::from_str("refusing to overwrite existing '"), path), "' (use --force)");
        Some(Report { code: CONFIG, out: no_lines(), err: one_line(line) })
    } else {
        None
    }
}

/// What `config init` reports once it has tried to write the template.
pub open spec fn init_report_of(path: Seq<char>, written: Result<(), Seq<char>>) -> ReportView {
    match written {
        Ok(()) => said(
            SUCCESS,
            seq![
                "wrote config template to "@ + path,
                "edit base_url/lfs_url, then: scorpio --config-path "@ + path + " doctor"@,
            ],
            seq![],
        ),
        Err(e) => said(CONFIG, seq![], seq!["failed to write '"@ + path + "': "@ + e]),
    }
}

pub open spec fn unit_text(r: Result<(), String>) -> Result<(), Seq<char>> {
    match r {
        Ok(()) => Ok(()),
        Err(e) => Err(e@),
    }
}

pub fn init_report(path: &str, written: Result<(), String>) -> (r: Report)
    ensures
        r@ == init_report_of(path@, unit_text(written)),
{
    match written {
        Ok(()) => {
            let wrote = cat(String::from_str("wrote config template to "), path);
            let hint = cat(cat(String::from_str("edit base_url/lfs_url, then: scorpio --config-path "), path), " doctor");
            let mut out = one_line(wrote);
            push_line(&mut out, hint);
            assert(seq![wrote@].push(hint@) =~= seq![wrote@, hint@]);
            Report { code: SUCCESS, out, err: no_lines() }
        },
        Err(e) => {
            let line = cat(cat(cat(String::from_str("failed to write '"), path), "': "), e.as_str());
            Report { code: CONFIG, out: no_lines(), err: one_line(line) }
        },
    }
}

/// What a command reports when the configuration cannot be loaded.
pub fn load_failure_report(e: &str) -> (r: Report)
    ensures
        r@ == said(CONFIG, seq![], seq!["Failed to load config: "@ + e@]),
{
    Report { code: CONFIG, out: no_lines(), err: one_line(cat(String::from_str("Failed to load config: "), e)) }
}

/// How the daemon answered an `http-mount` request.
pub enum HttpReply {
    /// A success status with a JSON body, pretty-printed.
    Body(String),
    /// A success status whose body is not JSON, with the parser's message.
    BadBody(String),
    /// Any other status, with the body that came with it.
    Rejected { status: String, body: String },
    /// The request could not be sent, with the client's message.
    Failed(String),
}

/// What a success answer's body amounts to: pretty-printed JSON, or why it
/// is not JSON (or could not be read).
pub open spec fn body_reply_of(body: Result<Seq<char>, Seq<char>>) -> Result<Seq<char>, Seq<char>> {
    match body {
        Err(e) => Err(e),
        Ok(b) => json_pretty(b),
    }
}

pub open spec fn reply_body(r: HttpReply) -> Result<Seq<char>, Seq<char>> {
    match r {
        HttpReply::Body(t) => Ok(t@),
        HttpReply::BadBody(e) => Err(e@),
        _ => Err(Seq::empty()),
    }
}

pub open spec fn body_text(b: Result<String, String>) -> Result<Seq<char>, Seq<char>> {
    match b {
        Ok(t) => Ok(t@),
        Err(e) => Err(e@),
    }
}

/// The reply a success answer stands for, given its body or why the body
/// could not be read: the JSON it holds, pretty-printed, or the failure.
pub fn mount_reply(body: Result<String, String>) -> (r: HttpReply)
    ensures
        r is Body || r is BadBody,
        reply_body(r) == body_reply_of(body_text(body)),
{
    match body {
        Err(e) => HttpReply::BadBody(e),
        Ok(b) => match pretty_json(b.as_str()) {
            Ok(p) => HttpReply::Body(p),
            Err(m) => HttpReply::BadBody(m),
        },
    }
}

/// What the daemon answered an `http-mount` request: whether its status is
/// a success, the status, and the body or why it could not be read.
pub struct HttpAnswer {
    pub success: bool,
    pub status: String,
    pub body: Result<String, String>,
}

/// The reply an `http-mount` request got: a success answer by its body, any
/// other status with its body (empty when unreadable), or why the request
/// could not be sent.
pub fn http_reply(sent: Result<HttpAnswer, String>) -> (r: HttpReply)
    ensures
        match sent {
            Err(e) => r matches HttpReply::Failed(m) && m@ == e@,
            Ok(a) => if a.success {
                (r is Body || r is BadBody) && reply_body(r) == body_reply_of(body_text(a.body))
            } else {
                r matches HttpReply::Rejected { status, body } && status@ == a.status@
                    && body@ == match a.body { Ok(t) => t@, Err(_) => Seq::<char>::empty() }
            },
        },
{
    match sent {
        Err(e) => HttpReply::Failed(e),
        Ok(a) => {
            let HttpAnswer { success, status, body } = a;
            if success {
                mount_reply(body)
            } else {
                let text = match body {
                    Ok(t) => t,
                    Err(_) => String::new(),
                };
                HttpReply::Rejected { status, body: text }
            }
        },
    }
}

pub open spec fn http_report_of(reply: HttpReply) -> ReportView {
    match reply {
        HttpReply::Body(text) => said(SUCCESS, seq![text@], seq![]),
        HttpReply::BadBody(e) => said(INTERNAL, seq![], seq!["failed to parse response json: "@ + e@]),
        HttpReply::Rejected { status, body } => said(
            MOUNT,
            seq![],
            seq!["http mount failed: status="@ + status@ + " body="@ + body@],
        ),
        HttpReply::Failed(e) => said(INTERNAL, seq![], seq!["http mount request failed: "@ + e@]),
    }
}

/// What `http-mount` reports of the daemon's answer.
pub fn http_report(reply: HttpReply) -> (r: Report)
    ensures
        r@ == http_report_of(reply),
{
    match reply {
        HttpReply::Body(text) => Report { code: SUCCESS, out: one_line(text), err: no_lines() },
        HttpReply::BadBody(e) => Report {
            code: INTERNAL,
            out: no_lines(),
            err: one_line(cat(String::from_str("failed to parse response json: "), e.as_str())),
        },
        HttpReply::Rejected { status, body } => {
            let line = cat(cat(cat(String::from_str("http mount failed: status="), status.as_str()), " body="), body.as_str());
            Report { code: MOUNT, out: no_lines(), err: one_line(line) }
        },
        HttpReply::Failed(e) => Report {
            code: INTERNAL,
            out: no_lines(),
            err: one_line(cat(String::from_str("http mount request failed: "), e.as_str())),
        },
    }
}

} // verus!
