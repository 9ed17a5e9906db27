//! The order of a mount request's steps in the workspace daemon, apart from
//! the FUSE and network work they drive. Once the path's inode is resolved
//! and the mount table consulted, a mount already in place or a checked-out
//! workspace that overlaps the path refuses the request. A temporary mount
//! is then overlay-mounted, recorded as a workspace and persisted, and is
//! undone when persisting fails; any other mount is fetched first and then
//! overlay-mounted.

use vstd::prelude::*;

use crate::manager::{first_overlap, works_view, ScorpioManager, WorkDir, WorkView};
use crate::mount_tasks::{InfoView, MountInfo};
use crate::text::cat;

verus! {

/// How a mount request goes on once nothing is in its way.
pub enum MountRoute {
    /// A temporary mount: overlay-mounted on the spot, then recorded.
    Temp,
    /// A regular mount: its tree is fetched first.
    Fetch,
}

pub open spec fn route_of(works: Seq<WorkView>, mono_path: Seq<char>, temp: bool, already_mounted: bool) -> Result<MountRoute, Seq<char>> {
    if already_mounted {
        Err("The target is already mounted"@)
    } else {
        match first_overlap(works, mono_path) {
            Some(p) => Err("The "@ + p + " is already checked-out"@),
            None => Ok(if temp { MountRoute::Temp } else { MountRoute::Fetch }),
        }
    }
}

pub open spec fn route_result(r: Result<MountRoute, String>) -> Result<MountRoute, Seq<char>> {
    match r {
        Ok(m) => Ok(m),
        Err(e) => Err(e@),
    }
}

/// Decides, for a path resolved to an inode (`temp` when it is a temporary
/// mount) and given whether that inode is already mounted, whether the
/// mount goes on and how.
pub fn route_mount(manager: &ScorpioManager, mono_path: &str, temp: bool, already_mounted: bool) -> (r: Result<MountRoute, String>)
    ensures
        route_result(r) == route_of(works_view(manager.works@), mono_path@, temp, already_mounted),
{
    if already_mounted {
        return Err(String::from_str("The target is already mounted"));
    }
    match manager.check_before_mount(mono_path) {
        Err(p) => Err(cat(cat(String::from_str("The "), p.as_str()), " is already checked-out")),
        Ok(()) => Ok(if temp { MountRoute::Temp } else { MountRoute::Fetch }),
    }
}

pub open spec fn info_result(r: Result<MountInfo, String>) -> Result<InfoView, Seq<char>> {
    match r {
        Ok(i) => Ok(i@),
        Err(e) => Err(e@),
    }
}

/// The workspace a temporary mount is recorded as.
pub open spec fn temp_work(mono_path: Seq<char>, inode: u64, hash: Seq<char>) -> WorkView {
    WorkView { path: mono_path, node: inode, hash }
}

/// After the overlay mount of a temporary mount at `inode`, whose store
/// entry is named `hash`: a failure is reported and nothing is recorded;
/// otherwise the workspace is recorded, to be persisted next.
pub fn record_temp_mount(manager: &mut ScorpioManager, mono_path: &str, inode: u64, hash: &str, overlay: Result<(), String>) -> (r: Result<MountInfo, String>)
    ensures
        match overlay {
            Err(e) => info_result(r) == Err::<InfoView, Seq<char>>("Failed to overlay mount: "@ + e@)
                && works_view(final(manager).works@) == works_view(old(manager).works@),
            Ok(()) => info_result(r) == Ok::<InfoView, Seq<char>>(InfoView { hash: hash@, path: mono_path@, inode })
                && works_view(final(manager).works@) == works_view(old(manager).works@).push(temp_work(mono_path@, inode, hash@)),
        },
{
    match overlay {
        Err(e) => Err(cat(String::from_str("Failed to overlay mount: "), e.as_str())),
        Ok(()) => {
            let ghost before = manager.works@;
            manager.works.push(WorkDir { path: String::from_str(mono_path), node: inode, hash: String::from_str(hash) });
            assert(works_view(manager.works@) =~= works_view(before).push(temp_work(mono_path@, inode, hash@)));
            Ok(MountInfo { hash: String::from_str(hash), path: String::from_str(mono_path), inode })
        },
    }
}

/// How a temporary mount ends once persisting its record was tried.
pub struct Settled {
    pub result: Result<MountInfo, String>,
    /// The overlay mount must be undone.
    pub roll_back: bool,
}

/// After persisting: kept on success; on failure the last recorded
/// workspace is dropped again, the overlay mount is to be rolled back, and
/// the request fails with the persisting error.
pub fn settle_temp_mount(manager: &mut ScorpioManager, info: MountInfo, persisted: Result<(), String>) -> (r: Settled)
    ensures
        match persisted {
            Ok(()) => info_result(r.result) == Ok::<InfoView, Seq<char>>(info@) && !r.roll_back
                && works_view(final(manager).works@) == works_view(old(manager).works@),
            Err(e) => info_result(r.result) == Err::<InfoView, Seq<char>>("Failed to persist mount state: "@ + e@)
                && r.roll_back
                && works_view(final(manager).works@) == (if old(manager).works@.len() > 0 {
                    works_view(old(manager).works@).drop_last()
                } else {
                    works_view(old(manager).works@)
                }),
        },
{
    match persisted {
        Ok(()) => Settled { result: Ok(info), roll_back: false },
        Err(e) => {
            let ghost before = manager.works@;
            let _ = manager.works.pop();
            proof {
                if before.len() > 0 {
                    assert(works_view(manager.works@) =~= works_view(before).drop_last());
                } else {
                    assert(works_view(manager.works@) =~= works_view(before));
                }
            }
            Settled { result: Err(cat(String::from_str("Failed to persist mount state: "), e.as_str())), roll_back: true }
        },
    }
}

pub open spec fn work_result(r: Result<WorkDir, String>) -> Result<WorkView, Seq<char>> {
    match r {
        Ok(w) => Ok(w@),
        Err(e) => Err(e@),
    }
}

/// After fetching a regular mount's tree: its workspace, or the failure.
pub fn after_fetch(fetched: Result<WorkDir, String>) -> (r: Result<WorkDir, String>)
    ensures
        work_result(r) == match work_result(fetched) {
            Ok(w) => Ok::<WorkView, Seq<char>>(w),
            Err(e) => Err("Failed to fetch: "@ + e),
        },
{
    match fetched {
        Ok(w) => Ok(w),
        Err(e) => Err(cat(String::from_str("Failed to fetch: "), e.as_str())),
    }
}

/// After the overlay mount of a fetched workspace at `inode`: what was
/// mounted, or the failure.
pub fn after_fetched_overlay(inode: u64, work: WorkDir, overlay: Result<(), String>) -> (r: Result<MountInfo, String>)
    ensures
        info_result(r) == match overlay {
            Ok(()) => Ok::<InfoView, Seq<char>>(InfoView { hash: work@.hash, path: work@.path, inode }),
            Err(e) => Err("Mount process error: "@ + e@),
        },
{
    match overlay {
        Ok(()) => Ok(MountInfo { hash: work.hash, path: work.path, inode }),
        Err(e) => Err(cat(String::from_str("Mount process error: "), e.as_str())),
    }
}

/// A temporary mount whose record cannot be persisted leaves the recorded
/// workspaces as they were before the request.
pub proof fn law_failed_persist_leaves_works(works: Seq<WorkView>, mono_path: Seq<char>, inode: u64, hash: Seq<char>)
    ensures
        works.push(temp_work(mono_path, inode, hash)).drop_last() == works,
{
    assert(works.push(temp_work(mono_path, inode, hash)).drop_last() =~= works);
}

/// A request is refused before anything is mounted or recorded when its
/// target is already mounted or overlaps a checked-out workspace; otherwise
/// it goes on, as a temporary mount exactly when it was resolved as one.
pub proof fn law_conflicts_refused_first(works: Seq<WorkView>, mono_path: Seq<char>, temp: bool, already_mounted: bool)
    ensures
        route_of(works, mono_path, temp, already_mounted) is Ok <==> !already_mounted && first_overlap(works, mono_path) is None,
        route_of(works, mono_path, temp, already_mounted) matches Ok(m) ==> (m is Temp <==> temp),
{
}

} // verus!
