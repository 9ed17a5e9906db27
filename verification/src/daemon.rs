//! What the workspace daemon's HTTP handlers decide, apart from the FUSE and
//! network work they drive: how a mount path that has no inode yet is
//! resolved or refused, how a failed mount is reported, when a finished
//! mount task is forgotten, which CL layer an unmounted path names, how an
//! unmount request is addressed and answered, and what configuration is
//! reported.

use vstd::prelude::*;

use crate::text::{cat, contains_seq, contains_text, last_index_of, rfind_char, same_text};
use crate::manager::{position_of, works_view, ScorpioManager};
use crate::util::config::ScorpioConfig;

verus! {

/// The message a failed mount is answered with: a conflict with an existing
/// mount asks the caller to unmount first; any other failure is passed on.
pub open spec fn failure_message_of(err: Seq<char>) -> Seq<char> {
    if contains_seq(err, "already mounted"@) || contains_seq(err, "already checked-out"@) {
        "please unmount"@
    } else {
        "Mount failed: "@ + err
    }
}

pub fn mount_failure_message(err: &str) -> (r: String)
    ensures
        r@ == failure_message_of(err@),
{
    if contains_text(err, "already mounted") || contains_text(err, "already checked-out") {
        String::from_str("please unmount")
    } else {
        cat(String::from_str("Mount failed: "), err)
    }
}

/// The error when `mono_path` overlaps the checked-out workspace `mounted`.
pub fn checked_out_message(mounted: &str) -> (r: String)
    ensures
        r@ == "The "@ + mounted@ + " is already checked-out"@,
{
    cat(cat(String::from_str("The "), mounted), " is already checked-out")
}

/// A mount task is done, and is forgotten once its status has been read,
/// when it finished or failed.
pub fn task_is_done(status: &str) -> (b: bool)
    ensures
        b == (status@ == "finished"@ || status@ == "error"@),
{
    same_text(status, "finished") || same_text(status, "error")
}

/// The CL link a mounted path names: the text after its last `_`, when that
/// is non-empty and holds no `/`.
pub open spec fn cl_link_of_path(path: Seq<char>) -> Option<Seq<char>> {
    match last_index_of(path, '_') {
        None => None,
        Some(i) => {
            let link = path.subrange(i + 1, path.len() as int);
            if link.len() > 0 && !link.contains('/') {
                Some(link)
            } else {
                None
            }
        },
    }
}

pub fn cl_link_of(path: &str) -> (r: Option<String>)
    ensures
        match (r, cl_link_of_path(path@)) {
            (Some(l), Some(m)) => l@ == m,
            (None, None) => true,
            _ => false,
        },
{
    match rfind_char(path, '_') {
        None => None,
        Some(i) => {
            let n = path.unicode_len();
            let link = path.substring_char(i + 1, n);
            let m = link.unicode_len();
            if m == 0 {
                return None;
            }
            let mut k: usize = 0;
            while k < m
                invariant
                    m == link@.len(),
                    k <= m,
                    link@ == path@.subrange(i + 1, path@.len() as int),
                    last_index_of(path@, '_') == Some(i as int),
                    forall|j: int| 0 <= j < k ==> link@[j] != '/',
                decreases m - k,
            {
                if link.get_char(k) == '/' {
                    assert(link@.contains('/')) by {
                        assert(link@[k as int] == '/');
                    }
                    return None;
                }
                k = k + 1;
            }
            Some(String::from_str(link))
        },
    }
}

/// What an unmount request addresses: an inode takes precedence over a path.
pub enum UmountTarget {
    Inode(u64),
    Path(String),
}

/// Addresses an unmount request: an inode takes precedence over a path, and
/// a request with neither is answered "Fail" with "Need a inode or path.",
/// before anything is unmounted or forgotten.
pub fn umount_target(inode: Option<u64>, path: Option<&str>) -> (r: Result<UmountTarget, UmountResponse>)
    ensures
        inode matches Some(n) ==> (r matches Ok(UmountTarget::Inode(m)) && m == n),
        inode is None && path is Some ==> (r matches Ok(UmountTarget::Path(p)) && p@ == path->0@),
        inode is None && path is None ==> (r matches Err(reply) && reply.status@ == "Fail"@
            && reply.message@ == "Need a inode or path."@),
{
    match inode {
        Some(n) => Ok(UmountTarget::Inode(n)),
        None => match path {
            Some(p) => Ok(UmountTarget::Path(String::from_str(p))),
            None => Err(UmountResponse {
                status: String::from_str("Fail"),
                message: String::from_str("Need a inode or path."),
            }),
        },
    }
}

/// How the inode of a mount request's path is found, given the inode the
/// path already has, if any, and whether the request names a CL.
pub enum InodeStep {
    /// The path has this inode.
    Found(u64),
    /// A request without a CL (a temporary mount): add a temporary point.
    AddTempPoint,
    /// A request with a CL: look the path up in the read-only tree.
    LookUp,
}

pub open spec fn inode_step_of(existing: Option<u64>, has_cl: bool) -> InodeStep {
    match existing {
        Some(i) => InodeStep::Found(i),
        None => if has_cl {
            InodeStep::LookUp
        } else {
            InodeStep::AddTempPoint
        },
    }
}

/// The first step of resolving a mount request's inode; a found inode is
/// never a temporary mount.
pub fn first_inode_step(existing: Option<u64>, has_cl: bool) -> (r: InodeStep)
    ensures
        r == inode_step_of(existing, has_cl),
{
    match existing {
        Some(i) => InodeStep::Found(i),
        None => if has_cl {
            InodeStep::LookUp
        } else {
            InodeStep::AddTempPoint
        },
    }
}

/// What the read-only tree knows of a path.
pub enum LookupStatus {
    /// The path is loaded, at this inode.
    Found(u64),
    /// The path's parent directory, named here, is not loaded yet.
    ParentNotLoaded(String),
    /// The path is not in the tree.
    NotFound,
}

/// The outcome of resolving a regular (CL) mount request whose path has no
/// inode yet, given what the tree knows of it: its inode, not a temporary
/// mount, or why it cannot be mounted.
pub open spec fn lookup_outcome(mono_path: Seq<char>, status: Result<LookupStatus, Seq<char>>) -> Result<(u64, bool), Seq<char>> {
    match status {
        Err(e) => Err("Mount path lookup failed in dicfuse: "@ + mono_path + ": "@ + e),
        Ok(LookupStatus::Found(inode)) => Ok((inode, false)),
        Ok(LookupStatus::ParentNotLoaded(parent)) => Err(
            "Mount parent directory not loaded in dicfuse: "@ + mono_path + " (parent: "@ + parent@ + ")"@,
        ),
        Ok(LookupStatus::NotFound) => Err("Mount path not found in dicfuse: "@ + mono_path),
    }
}

pub open spec fn status_text(r: Result<LookupStatus, String>) -> Result<LookupStatus, Seq<char>> {
    match r {
        Ok(s) => Ok(s),
        Err(e) => Err(e@),
    }
}

pub open spec fn resolved_text(r: Result<(u64, bool), String>) -> Result<(u64, bool), Seq<char>> {
    match r {
        Ok(p) => Ok(p),
        Err(e) => Err(e@),
    }
}

pub fn resolve_after_lookup(mono_path: &str, status: Result<LookupStatus, String>) -> (r: Result<(u64, bool), String>)
    ensures
        resolved_text(r) == lookup_outcome(mono_path@, status_text(status)),
{
    match status {
        Err(e) => Err(cat(cat(cat(String::from_str("Mount path lookup failed in dicfuse: "), mono_path), ": "), e.as_str())),
        Ok(LookupStatus::Found(inode)) => Ok((inode, false)),
        Ok(LookupStatus::ParentNotLoaded(parent)) => Err(
            cat(
                cat(cat(cat(String::from_str("Mount parent directory not loaded in dicfuse: "), mono_path), " (parent: "), parent.as_str()),
                ")",
            ),
        ),
        Ok(LookupStatus::NotFound) => Err(cat(String::from_str("Mount path not found in dicfuse: "), mono_path)),
    }
}

/// Why a temporary mount point could not be added for `mono_path`, given
/// the error and, when the error was "not found" and the tree could be
/// asked, what it knows of the path: an unloaded parent is named, anything
/// else passes the error on.
pub open spec fn temp_point_message(mono_path: Seq<char>, err: Seq<char>, status: Option<LookupStatus>) -> Seq<char> {
    match status {
        Some(LookupStatus::ParentNotLoaded(parent)) => "Temp mount parent directory not loaded in dicfuse: "@ + mono_path
            + " (parent: "@ + parent@ + ")"@,
        _ => "Failed to add temp point for "@ + mono_path + ": "@ + err,
    }
}

pub fn temp_point_error(mono_path: &str, err: &str, status: Option<LookupStatus>) -> (r: String)
    ensures
        r@ == temp_point_message(mono_path@, err@, status),
{
    match status {
        Some(LookupStatus::ParentNotLoaded(parent)) => cat(
            cat(cat(cat(String::from_str("Temp mount parent directory not loaded in dicfuse: "), mono_path), " (parent: "), parent.as_str()),
            ")",
        ),
        _ => cat(cat(cat(String::from_str("Failed to add temp point for "), mono_path), ": "), err),
    }
}

pub open spec fn temp_point_outcome(mono_path: Seq<char>, added: Result<u64, Seq<char>>, status: Option<LookupStatus>) -> Result<(u64, bool), Seq<char>> {
    match added {
        Ok(i) => Ok((i, true)),
        Err(e) => Err(temp_point_message(mono_path, e, status)),
    }
}

pub open spec fn added_text(r: Result<u64, String>) -> Result<u64, Seq<char>> {
    match r {
        Ok(i) => Ok(i),
        Err(e) => Err(e@),
    }
}

/// After adding a temporary point for `mono_path`: its inode, as a
/// temporary mount, or why it could not be added (`status` is what the tree
/// knows of the path, asked only when the failure was "not found").
pub fn after_temp_point(mono_path: &str, added: Result<u64, String>, status: Option<LookupStatus>) -> (r: Result<(u64, bool), String>)
    ensures
        resolved_text(r) == temp_point_outcome(mono_path@, added_text(added), status),
{
    match added {
        Ok(i) => Ok((i, true)),
        Err(e) => Err(temp_point_error(mono_path, e.as_str(), status)),
    }
}

/// The answer to an unmount request.
pub struct UmountResponse {
    pub status: String,
    pub message: String,
}

/// How an unmount request is answered, given how the unmount went.
pub fn unmount_reply(outcome: Result<(), String>) -> (r: UmountResponse)
    ensures
        match outcome {
            Ok(()) => r.status@ == "Success"@ && r.message@ == "Directory unmounted successfully"@,
            Err(e) => r.status@ == "Fail"@ && r.message@ == "Umount process error :"@ + e@ + "."@,
        },
{
    match outcome {
        Ok(()) => UmountResponse {
            status: String::from_str("Success"),
            message: String::from_str("Directory unmounted successfully"),
        },
        Err(e) => UmountResponse {
            status: String::from_str("Fail"),
            message: cat(cat(String::from_str("Umount process error :"), e.as_str()), "."),
        },
    }
}

/// What follows an unmount request once the unmount was tried: the answer,
/// the CL layer to clean up, and how forgetting the workspace went.
pub struct UnmountFollowUp {
    pub reply: UmountResponse,
    /// The CL link whose layer is to be removed.
    pub cl_link: Option<String>,
    /// Whether the workspace was forgotten (an error here is only logged).
    pub forgotten: Option<Result<(), String>>,
}

/// After an unmount was tried (`path` is the unmounted resource's path, when
/// it could be found): a failure is answered with nothing else done; after
/// a success, the CL layer the path names is cleaned up and the workspace is
/// forgotten, and the request is answered with success even when that fails.
pub fn after_unmount(manager: &mut ScorpioManager, outcome: Result<(), String>, path: Option<&str>) -> (r: UnmountFollowUp)
    ensures
        match outcome {
            Ok(()) => r.reply.status@ == "Success"@ && r.reply.message@ == "Directory unmounted successfully"@,
            Err(e) => r.reply.status@ == "Fail"@ && r.reply.message@ == "Umount process error :"@ + e@ + "."@,
        },
        (outcome is Err || path is None) ==> r.cl_link is None && r.forgotten is None
            && works_view(final(manager).works@) == works_view(old(manager).works@),
        outcome is Ok && path is Some ==> ({
            let p = path->0@;
            &&& match (r.cl_link, cl_link_of_path(p)) {
                (Some(l), Some(m)) => l@ == m,
                (None, None) => true,
                _ => false,
            }
            &&& r.forgotten is Some
            &&& (r.forgotten->0 is Ok <==> position_of(works_view(old(manager).works@), p) is Some)
            &&& works_view(final(manager).works@) == match position_of(works_view(old(manager).works@), p) {
                Some(i) => works_view(old(manager).works@).remove(i),
                None => works_view(old(manager).works@),
            }
        }),
{
    let failed = outcome.is_err();
    let reply = unmount_reply(outcome);
    if failed {
        return UnmountFollowUp { reply, cl_link: None, forgotten: None };
    }
    match path {
        None => UnmountFollowUp { reply, cl_link: None, forgotten: None },
        Some(p) => {
            let cl_link = cl_link_of(p);
            let forgotten = manager.remove_workspace(p);
            UnmountFollowUp { reply, cl_link, forgotten: Some(forgotten) }
        },
    }
}

/// The configuration the daemon reports, under its legacy field names.
pub struct ConfigInfo {
    pub mega_url: String,
    pub mount_path: String,
    pub store_path: String,
}

/// The daemon's answer to a configuration query or update.
pub struct ConfigResponse {
    pub status: String,
    pub config: ConfigInfo,
}

/// The answer to a configuration query: "Success", with the server URL,
/// the workspace mountpoint and the store path.
pub fn config_reply(cfg: &ScorpioConfig) -> (r: ConfigResponse)
    ensures
        r.status@ == "Success"@,
        r.config.mega_url@ == cfg.base_url@,
        r.config.mount_path@ == cfg.workspace@,
        r.config.store_path@ == cfg.store_path@,
{
    ConfigResponse {
        status: String::from_str("Success"),
        config: ConfigInfo {
            mega_url: cfg.base_url.clone(),
            mount_path: cfg.workspace.clone(),
            store_path: cfg.store_path.clone(),
        },
    }
}

pub open spec fn text_or_empty(o: Option<String>) -> Seq<char> {
    match o {
        Some(s) => s@,
        None => Seq::empty(),
    }
}

fn or_empty(o: Option<String>) -> (r: String)
    ensures
        r@ == text_or_empty(o),
{
    match o {
        Some(s) => s,
        None => String::new(),
    }
}

/// The answer to the deprecated configuration update, which applies and
/// persists nothing (it takes no configuration to change): "Success", with
/// the request echoed and a missing field as empty text.
pub fn update_config_reply(mega_url: Option<String>, mount_path: Option<String>, store_path: Option<String>) -> (r: ConfigResponse)
    ensures
        r.status@ == "Success"@,
        r.config.mega_url@ == text_or_empty(mega_url),
        r.config.mount_path@ == text_or_empty(mount_path),
        r.config.store_path@ == text_or_empty(store_path),
{
    ConfigResponse {
        status: String::from_str("Success"),
        config: ConfigInfo { mega_url: or_empty(mega_url), mount_path: or_empty(mount_path), store_path: or_empty(store_path) },
    }
}

proof fn lemma_last_index_of(s: Seq<char>, c: char)
    ensures
        match last_index_of(s, c) {
            Some(i) => 0 <= i < s.len() && s[i] == c && forall|j: int| i < j < s.len() ==> s[j] != c,
            None => forall|j: int| 0 <= j < s.len() ==> s[j] != c,
        },
    decreases s.len(),
{
    if s.len() > 0 && s.last() != c {
        let t = s.drop_last();
        lemma_last_index_of(t, c);
        assert(s.last() == s[s.len() - 1]);
        match last_index_of(t, c) {
            Some(i) => {
                assert forall|j: int| i < j < s.len() implies s[j] != c by {
                    if j < s.len() - 1 {
                        assert(s[j] == t[j]);
                    }
                }
                assert(s[i] == t[i]);
            },
            None => {
                assert forall|j: int| 0 <= j < s.len() implies s[j] != c by {
                    if j < s.len() - 1 {
                        assert(s[j] == t[j]);
                    }
                }
            },
        }
    }
}

/// The CL link an unmounted path names, when it names one, is the non-empty
/// text after the path's last `_`: it holds neither `_` nor `/`, and the
/// path is what comes before it, that `_`, and the link.
pub proof fn law_cl_link_is_last_segment(path: Seq<char>)
    ensures
        cl_link_of_path(path) matches Some(l) ==> {
            &&& l.len() > 0
            &&& !l.contains('_')
            &&& !l.contains('/')
            &&& path == path.subrange(0, path.len() - l.len() - 1) + seq!['_'] + l
        },
{
    lemma_last_index_of(path, '_');
    if let Some(l) = cl_link_of_path(path) {
        let i = last_index_of(path, '_')->0;
        assert(l == path.subrange(i + 1, path.len() as int));
        if l.contains('_') {
            let k = choose|k: int| 0 <= k < l.len() && l[k] == '_';
            assert(path[i + 1 + k] == '_');
        }
        assert(path =~= path.subrange(0, path.len() - l.len() - 1) + seq!['_'] + l);
    }
}

/// A path that ends in `_` and a non-empty link holding neither `_` nor `/`
/// names that link.
pub proof fn law_cl_link_found(prefix: Seq<char>, link: Seq<char>)
    requires
        link.len() > 0,
        !link.contains('_'),
        !link.contains('/'),
    ensures
        cl_link_of_path(prefix + seq!['_'] + link) == Some(link),
{
    let path = prefix + seq!['_'] + link;
    let i = prefix.len() as int;
    lemma_last_index_of(path, '_');
    assert(path[i] == '_');
    assert forall|j: int| i < j < path.len() implies path[j] != '_' by {
        assert(path[j] == link[j - i - 1]);
    }
    let found = last_index_of(path, '_');
    assert(found == Some(i)) by {
        match found {
            Some(f) => {
                if f < i {
                    assert(path[i] != '_');
                }
                if f > i {
                    assert(path[f] == link[f - i - 1]);
                }
            },
            None => {
                assert(path[i] != '_');
            },
        }
    }
    assert(path.subrange(i + 1, path.len() as int) =~= link);
}

} // verus!
