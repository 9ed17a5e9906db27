//! The workspace daemon's table of mount tasks: a mount request is recorded
//! as "fetching", completed as "finished" or "error", and forgotten once a
//! client has read a finished or failed outcome.

use vstd::prelude::*;

use dashmap::DashMap;

use crate::daemon::{failure_message_of, mount_failure_message, task_is_done};
use crate::manager::{works_view, WorkDir, WorkView};
use crate::util::sources::{opt_text, random_id};

verus! {

#[verifier::external_type_specification]
#[verifier::external_body]
#[verifier::reject_recursive_types(K)]
#[verifier::reject_recursive_types(V)]
#[verifier::reject_recursive_types(S)]
pub struct ExDashMap<K, V, S>(dashmap::DashMap<K, V, S>);

/// A request to mount a monorepo path, optionally at a CL.
#[derive(Debug)]
pub struct MountRequest {
    pub path: String,
    pub cl: Option<String>,
}

pub struct RequestView {
    pub path: Seq<char>,
    pub cl: Option<Seq<char>>,
}

impl View for MountRequest {
    type V = RequestView;

    open spec fn view(&self) -> RequestView {
        RequestView { path: self.path@, cl: opt_text(self.cl) }
    }
}

/// What a finished mount produced.
#[derive(Debug)]
pub struct MountInfo {
    pub hash: String,
    pub path: String,
    pub inode: u64,
}

pub struct InfoView {
    pub hash: Seq<char>,
    pub path: Seq<char>,
    pub inode: u64,
}

impl View for MountInfo {
    type V = InfoView;

    open spec fn view(&self) -> InfoView {
        InfoView { hash: self.hash@, path: self.path@, inode: self.inode }
    }
}

pub open spec fn opt_info(o: Option<MountInfo>) -> Option<InfoView> {
    match o {
        Some(i) => Some(i@),
        None => None,
    }
}

/// A tracked mount task: its id, its status ("fetching", "finished" or
/// "error"), the request it serves and, once finished, what it mounted.
#[derive(Debug)]
pub struct MountStatus {
    pub request_id: String,
    pub status: String,
    pub mount_info: MountRequest,
    pub result: Option<MountInfo>,
}

pub struct TaskView {
    pub request_id: Seq<char>,
    pub status: Seq<char>,
    pub request: RequestView,
    pub result: Option<InfoView>,
}

impl View for MountStatus {
    type V = TaskView;

    open spec fn view(&self) -> TaskView {
        TaskView {
            request_id: self.request_id@,
            status: self.status@,
            request: self.mount_info@,
            result: opt_info(self.result),
        }
    }
}

fn clone_text(o: &Option<String>) -> (r: Option<String>)
    ensures
        r == *o,
{
    match o {
        Some(s) => Some(s.clone()),
        None => None,
    }
}

impl Clone for MountRequest {
    fn clone(&self) -> (r: Self)
        ensures
            r == *self,
    {
        MountRequest { path: self.path.clone(), cl: clone_text(&self.cl) }
    }
}

impl Clone for MountInfo {
    fn clone(&self) -> (r: Self)
        ensures
            r == *self,
    {
        MountInfo { hash: self.hash.clone(), path: self.path.clone(), inode: self.inode }
    }
}

impl Clone for MountStatus {
    fn clone(&self) -> (r: Self)
        ensures
            r == *self,
    {
        MountStatus {
            request_id: self.request_id.clone(),
            status: self.status.clone(),
            mount_info: self.mount_info.clone(),
            result: match &self.result {
                Some(i) => Some(i.clone()),
                None => None,
            },
        }
    }
}

/// The answer to a mount request.
#[derive(Debug)]
pub struct MountResponse {
    pub status: String,
    pub request_id: String,
    pub message: String,
}

pub struct MountReplyView {
    pub status: Seq<char>,
    pub request_id: Seq<char>,
    pub message: Seq<char>,
}

impl View for MountResponse {
    type V = MountReplyView;

    open spec fn view(&self) -> MountReplyView {
        MountReplyView { status: self.status@, request_id: self.request_id@, message: self.message@ }
    }
}

/// The answer to a query for a mount task.
#[derive(Debug)]
pub struct SelectResponse {
    pub status: String,
    pub task_status: String,
    pub mount: Option<MountInfo>,
    pub message: String,
}

pub struct SelectReplyView {
    pub status: Seq<char>,
    pub task_status: Seq<char>,
    pub mount: Option<InfoView>,
    pub message: Seq<char>,
}

impl View for SelectResponse {
    type V = SelectReplyView;

    open spec fn view(&self) -> SelectReplyView {
        SelectReplyView {
            status: self.status@,
            task_status: self.task_status@,
            mount: opt_info(self.mount),
            message: self.message@,
        }
    }
}

/// The task a new mount request is recorded as.
pub open spec fn fetching_task(id: Seq<char>, req: RequestView) -> TaskView {
    TaskView { request_id: id, status: "fetching"@, request: req, result: None }
}

/// A task once its mount has ended: finished with what it mounted, or
/// failed with its result left as it was.
pub open spec fn completed_task(t: TaskView, outcome: Result<InfoView, Seq<char>>) -> TaskView {
    match outcome {
        Ok(info) => TaskView { status: "finished"@, result: Some(info), ..t },
        Err(_) => TaskView { status: "error"@, ..t },
    }
}

pub open spec fn outcome_view(outcome: Result<MountInfo, String>) -> Result<InfoView, Seq<char>> {
    match outcome {
        Ok(i) => Ok(i@),
        Err(e) => Err(e@),
    }
}

/// The answer once the mount of task `id` has ended.
pub open spec fn complete_reply(
    tasks: Map<Seq<char>, TaskView>,
    id: Seq<char>,
    outcome: Result<InfoView, Seq<char>>,
) -> MountReplyView {
    if !tasks.contains_key(id) {
        MountReplyView { status: "Fail"@, request_id: id, message: "task not found"@ }
    } else {
        match outcome {
            Ok(_) => MountReplyView { status: "Success"@, request_id: id, message: "Mount task completed"@ },
            Err(e) => MountReplyView { status: "Fail"@, request_id: id, message: failure_message_of(e) },
        }
    }
}

/// The tasks once the mount of task `id` has ended.
pub open spec fn after_complete(
    tasks: Map<Seq<char>, TaskView>,
    id: Seq<char>,
    outcome: Result<InfoView, Seq<char>>,
) -> Map<Seq<char>, TaskView> {
    if tasks.contains_key(id) {
        tasks.insert(id, completed_task(tasks[id], outcome))
    } else {
        tasks
    }
}

/// A task whose outcome is known: it finished or failed.
pub open spec fn is_done(status: Seq<char>) -> bool {
    status == "finished"@ || status == "error"@
}

/// The answer to a query for task `id`.
pub open spec fn select_reply(tasks: Map<Seq<char>, TaskView>, id: Seq<char>) -> SelectReplyView {
    if tasks.contains_key(id) {
        SelectReplyView {
            status: "Success"@,
            task_status: tasks[id].status,
            mount: tasks[id].result,
            message: "Task found"@,
        }
    } else {
        SelectReplyView { status: "Fail"@, task_status: "not_found"@, mount: None, message: "Task not found"@ }
    }
}

/// The tasks once task `id` has been queried: a done task is forgotten.
pub open spec fn after_select(tasks: Map<Seq<char>, TaskView>, id: Seq<char>) -> Map<Seq<char>, TaskView> {
    if tasks.contains_key(id) && is_done(tasks[id].status) {
        tasks.remove(id)
    } else {
        tasks
    }
}

/// The tasks held by a task table, by request id.
pub uninterp spec fn task_entries(m: DashMap<String, MountStatus>) -> Map<Seq<char>, MountStatus>;

/// A table with no task in it.
pub open spec fn no_tasks() -> Map<Seq<char>, MountStatus> {
    Map::empty()
}

pub open spec fn tasks_view(m: Map<Seq<char>, MountStatus>) -> Map<Seq<char>, TaskView> {
    m.map_values(|t: MountStatus| t@)
}

/// Trusted: `DashMap::new`, which starts with no entries.
#[verifier::external_body]
fn empty_table() -> (table: DashMap<String, MountStatus>)
    ensures
        task_entries(table) == no_tasks(),
{
    DashMap::new()
}

/// Trusted: `DashMap::insert`, which maps `key` to `value`, replacing what
/// `key` held, and leaves the other entries as they were.
#[verifier::external_body]
fn table_insert(table: &mut DashMap<String, MountStatus>, key: String, value: MountStatus)
    ensures
        task_entries(*final(table)) == task_entries(*old(table)).insert(key@, value),
{
    let _ = table.insert(key, value);
}

/// Trusted: `DashMap::get`, whose entry is handed out as a clone of the
/// stored task (`None` when `key` holds nothing); that clone is the verified
/// `MountStatus::clone` above, which gives back an equal task.
#[verifier::external_body]
fn table_get(table: &DashMap<String, MountStatus>, key: &str) -> (r: Option<MountStatus>)
    ensures
        match r {
            Some(t) => task_entries(*table).contains_key(key@) && t == task_entries(*table)[key@],
            None => !task_entries(*table).contains_key(key@),
        },
{
    table.get(key).map(|entry| entry.value().clone())
}

/// Trusted: `DashMap::remove`, which drops the entry of `key`, if any, and
/// leaves the other entries as they were.
#[verifier::external_body]
fn table_remove(table: &mut DashMap<String, MountStatus>, key: &str)
    ensures
        task_entries(*final(table)) == task_entries(*old(table)).remove(key@),
{
    let _ = table.remove(key);
}

proof fn lemma_view_insert(m: Map<Seq<char>, MountStatus>, k: Seq<char>, v: MountStatus)
    ensures
        tasks_view(m.insert(k, v)) == tasks_view(m).insert(k, v@),
{
    assert(tasks_view(m.insert(k, v)) =~= tasks_view(m).insert(k, v@));
}

proof fn lemma_view_remove(m: Map<Seq<char>, MountStatus>, k: Seq<char>)
    ensures
        tasks_view(m.remove(k)) == tasks_view(m).remove(k),
{
    assert(tasks_view(m.remove(k)) =~= tasks_view(m).remove(k));
}

/// The daemon's mount tasks, by request id.
pub struct MountTasks {
    tasks: DashMap<String, MountStatus>,
}

impl View for MountTasks {
    type V = Map<Seq<char>, TaskView>;

    closed spec fn view(&self) -> Map<Seq<char>, TaskView> {
        tasks_view(task_entries(self.tasks))
    }
}

impl MountTasks {
    pub fn new() -> (t: MountTasks)
        ensures
            t@ == Map::<Seq<char>, TaskView>::empty(),
    {
        let t = MountTasks { tasks: empty_table() };
        assert(t@ =~= Map::<Seq<char>, TaskView>::empty());
        t
    }

    /// Records the mount request `req` under `request_id` as fetching.
    pub fn begin(&mut self, request_id: String, req: MountRequest)
        ensures
            final(self)@ == old(self)@.insert(request_id@, fetching_task(request_id@, req@)),
    {
        let key = request_id.clone();
        let task = MountStatus {
            request_id,
            status: String::from_str("fetching"),
            mount_info: req,
            result: None,
        };
        proof {
            lemma_view_insert(task_entries(self.tasks), key@, task);
        }
        table_insert(&mut self.tasks, key, task);
    }

    /// Records the mount request `req` under a fresh random id, which it
    /// returns.
    pub fn start(&mut self, req: MountRequest) -> (id: String)
        ensures
            final(self)@ == old(self)@.insert(id@, fetching_task(id@, req@)),
            id@.len() == 36,
    {
        let id = random_id();
        self.begin(id.clone(), req);
        id
    }

    /// Records how the mount of task `request_id` ended and answers the
    /// mount request.
    pub fn complete(&mut self, request_id: &str, outcome: Result<MountInfo, String>) -> (r: MountResponse)
        ensures
            r@ == complete_reply(old(self)@, request_id@, outcome_view(outcome)),
            final(self)@ == after_complete(old(self)@, request_id@, outcome_view(outcome)),
    {
        match table_get(&self.tasks, request_id) {
            None => MountResponse {
                status: String::from_str("Fail"),
                request_id: String::from_str(request_id),
                message: String::from_str("task not found"),
            },
            Some(task) => {
                let MountStatus { request_id: id, status: _, mount_info, result } = task;
                match outcome {
                    Ok(info) => {
                        let updated = MountStatus {
                            request_id: id,
                            status: String::from_str("finished"),
                            mount_info,
                            result: Some(info),
                        };
                        proof {
                            lemma_view_insert(task_entries(self.tasks), request_id@, updated);
                        }
                        table_insert(&mut self.tasks, String::from_str(request_id), updated);
                        MountResponse {
                            status: String::from_str("Success"),
                            request_id: String::from_str(request_id),
                            message: String::from_str("Mount task completed"),
                        }
                    },
                    Err(e) => {
                        let updated = MountStatus {
                            request_id: id,
                            status: String::from_str("error"),
                            mount_info,
                            result,
                        };
                        proof {
                            lemma_view_insert(task_entries(self.tasks), request_id@, updated);
                        }
                        table_insert(&mut self.tasks, String::from_str(request_id), updated);
                        MountResponse {
                            status: String::from_str("Fail"),
                            request_id: String::from_str(request_id),
                            message: mount_failure_message(e.as_str()),
                        }
                    },
                }
            },
        }
    }

    /// Answers a query for task `request_id`, forgetting the task when it
    /// has finished or failed.
    pub fn select(&mut self, request_id: &str) -> (r: SelectResponse)
        ensures
            r@ == select_reply(old(self)@, request_id@),
            final(self)@ == after_select(old(self)@, request_id@),
    {
        match table_get(&self.tasks, request_id) {
            None => SelectResponse {
                status: String::from_str("Fail"),
                task_status: String::from_str("not_found"),
                mount: None,
                message: String::from_str("Task not found"),
            },
            Some(task) => {
                let MountStatus { request_id: _, status, mount_info: _, result } = task;
                let done = task_is_done(status.as_str());
                if done {
                    proof {
                        lemma_view_remove(task_entries(self.tasks), request_id@);
                    }
                    table_remove(&mut self.tasks, request_id);
                }
                SelectResponse {
                    status: String::from_str("Success"),
                    task_status: status,
                    mount: result,
                    message: String::from_str("Task found"),
                }
            },
        }
    }
}

/// What a checked-out workspace is reported as by the mount listing.
pub open spec fn info_of_work(w: WorkView) -> InfoView {
    InfoView { hash: w.hash, path: w.path, inode: w.node }
}

/// The mounts the daemon lists: one per checked-out workspace, in order.
pub fn mount_infos(works: &Vec<WorkDir>) -> (r: Vec<MountInfo>)
    ensures
        r@.len() == works@.len(),
        forall|i: int| 0 <= i < r@.len() ==> (#[trigger] r@[i])@ == info_of_work(works_view(works@)[i]),
{
    let mut r: Vec<MountInfo> = Vec::new();
    let mut k: usize = 0;
    while k < works.len()
        invariant
            k <= works@.len(),
            r@.len() == k,
            forall|i: int| 0 <= i < k ==> (#[trigger] r@[i])@ == info_of_work(works_view(works@)[i]),
        decreases works@.len() - k,
    {
        let w = &works[k];
        r.push(MountInfo { hash: w.hash.clone(), path: w.path.clone(), inode: w.node });
        k = k + 1;
    }
    r
}

/// A mount request being fetched stays tracked: a query answers "fetching"
/// and forgets nothing.
pub proof fn law_fetching_task_is_kept(tasks: Map<Seq<char>, TaskView>, id: Seq<char>, req: RequestView)
    ensures
        ({
            let begun = tasks.insert(id, fetching_task(id, req));
            &&& select_reply(begun, id).status == "Success"@
            &&& select_reply(begun, id).task_status == "fetching"@
            &&& select_reply(begun, id).mount is None
            &&& after_select(begun, id) == begun
        }),
{
    reveal_strlit("fetching");
    reveal_strlit("finished");
    reveal_strlit("error");
    assert("fetching"@[1] != "finished"@[1]);
    assert("fetching"@[0] != "error"@[0]);
}

/// The outcome of a finished mount is handed out once: the first query
/// after completion answers "finished" with what was mounted and forgets the
/// task, so the next query answers "not_found"; the other tasks are as they
/// were before the request.
pub proof fn law_finished_task_read_once(
    tasks: Map<Seq<char>, TaskView>,
    id: Seq<char>,
    req: RequestView,
    info: InfoView,
)
    ensures
        ({
            let done = after_complete(tasks.insert(id, fetching_task(id, req)), id, Ok(info));
            &&& complete_reply(tasks.insert(id, fetching_task(id, req)), id, Ok(info)).status == "Success"@
            &&& select_reply(done, id).task_status == "finished"@
            &&& select_reply(done, id).mount == Some(info)
            &&& after_select(done, id) == tasks.remove(id)
            &&& select_reply(after_select(done, id), id).task_status == "not_found"@
        }),
{
    let begun = tasks.insert(id, fetching_task(id, req));
    let done = after_complete(begun, id, Ok(info));
    assert(after_select(done, id) =~= tasks.remove(id));
}

/// A failed mount is reported once as "error", with the failure passed to
/// the client in the mount answer, and then forgotten.
pub proof fn law_failed_task_read_once(
    tasks: Map<Seq<char>, TaskView>,
    id: Seq<char>,
    req: RequestView,
    err: Seq<char>,
)
    ensures
        ({
            let done = after_complete(tasks.insert(id, fetching_task(id, req)), id, Err(err));
            &&& complete_reply(tasks.insert(id, fetching_task(id, req)), id, Err(err)).status == "Fail"@
            &&& complete_reply(tasks.insert(id, fetching_task(id, req)), id, Err(err)).message
                == failure_message_of(err)
            &&& select_reply(done, id).task_status == "error"@
            &&& select_reply(done, id).mount is None
            &&& after_select(done, id) == tasks.remove(id)
        }),
{
    let begun = tasks.insert(id, fetching_task(id, req));
    let done = after_complete(begun, id, Err(err));
    assert(after_select(done, id) =~= tasks.remove(id));
}

/// Completing or querying one task leaves every other task as it was.
pub proof fn law_tasks_are_independent(
    tasks: Map<Seq<char>, TaskView>,
    id: Seq<char>,
    outcome: Result<InfoView, Seq<char>>,
)
    ensures
        after_complete(tasks, id, outcome).remove(id) == tasks.remove(id),
        after_select(tasks, id).remove(id) == tasks.remove(id),
{
    assert(after_complete(tasks, id, outcome).remove(id) =~= tasks.remove(id));
    assert(after_select(tasks, id).remove(id) =~= tasks.remove(id));
}

/// Completing a task nobody asked for changes nothing and is answered
/// "task not found".
pub proof fn law_unknown_task_is_refused(
    tasks: Map<Seq<char>, TaskView>,
    id: Seq<char>,
    outcome: Result<InfoView, Seq<char>>,
)
    requires
        !tasks.contains_key(id),
    ensures
        after_complete(tasks, id, outcome) == tasks,
        complete_reply(tasks, id, outcome).status == "Fail"@,
        complete_reply(tasks, id, outcome).message == "task not found"@,
        after_select(tasks, id) == tasks,
        select_reply(tasks, id).task_status == "not_found"@,
{
}

} // verus!
