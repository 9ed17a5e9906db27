//! Workspace bookkeeping: which monorepo paths are checked out, and whether a
//! new mount would overlap one of them.

use vstd::prelude::*;

use crate::text::{is_prefix, same_text, starts_with};

verus! {

/// A checked-out workspace: its monorepo path, the inode it is mounted on,
/// and the hash of the tree it holds.
pub struct WorkDir {
    pub path: String,
    pub node: u64,
    pub hash: String,
}

pub struct WorkView {
    pub path: Seq<char>,
    pub node: u64,
    pub hash: Seq<char>,
}

impl View for WorkDir {
    type V = WorkView;

    open spec fn view(&self) -> WorkView {
        WorkView { path: self.path@, node: self.node, hash: self.hash@ }
    }
}

impl Clone for WorkDir {
    fn clone(&self) -> (r: Self)
        ensures
            r@ == self@,
    {
        WorkDir { path: self.path.clone(), node: self.node, hash: self.hash.clone() }
    }
}

/// The checked-out workspaces, as recorded in the runtime state file.
pub struct ScorpioManager {
    pub works: Vec<WorkDir>,
}

pub open spec fn works_view(works: Seq<WorkDir>) -> Seq<WorkView> {
    works.map_values(|w: WorkDir| w@)
}

/// `b` lies strictly below `a`: `a` followed by `/` starts `b`.
pub open spec fn is_ancestor(a: Seq<char>, b: Seq<char>) -> bool {
    is_prefix(a, b) && b.len() > a.len() && b[a.len() as int] == '/'
}

/// Two monorepo paths overlap when they are equal or one is a
/// path-component ancestor of the other.
pub open spec fn overlaps(a: Seq<char>, b: Seq<char>) -> bool {
    a == b || is_ancestor(a, b) || is_ancestor(b, a)
}

/// The path of the first workspace that overlaps `p`.
pub open spec fn first_overlap(works: Seq<WorkView>, p: Seq<char>) -> Option<Seq<char>>
    decreases works.len(),
{
    if works.len() == 0 {
        None
    } else if overlaps(works[0].path, p) {
        Some(works[0].path)
    } else {
        first_overlap(works.drop_first(), p)
    }
}

/// The first workspace whose path equals `p` or is a (textual) prefix of it.
pub open spec fn first_covering(works: Seq<WorkView>, p: Seq<char>) -> Option<int>
    decreases works.len(),
{
    if works.len() == 0 {
        None
    } else if is_prefix(works[0].path, p) || works[0].path == p {
        Some(0)
    } else {
        match first_covering(works.drop_first(), p) {
            Some(i) => Some(i + 1),
            None => None,
        }
    }
}

/// The position of the first workspace whose path is exactly `p`.
pub open spec fn position_of(works: Seq<WorkView>, p: Seq<char>) -> Option<int>
    decreases works.len(),
{
    if works.len() == 0 {
        None
    } else if works[0].path == p {
        Some(0)
    } else {
        match position_of(works.drop_first(), p) {
            Some(i) => Some(i + 1),
            None => None,
        }
    }
}

fn path_overlaps(a: &str, b: &str) -> (r: bool)
    ensures
        r == overlaps(a@, b@),
{
    if same_text(a, b) {
        return true;
    }
    let la = a.unicode_len();
    let lb = b.unicode_len();
    if lb > la && starts_with(b, a) && b.get_char(la) == '/' {
        return true;
    }
    if la > lb && starts_with(a, b) && a.get_char(lb) == '/' {
        return true;
    }
    false
}

impl ScorpioManager {
    /// Checks that `mono_path` overlaps no checked-out workspace: neither
    /// equal to one, nor inside one, nor containing one. On conflict, the
    /// path of the first overlapping workspace is returned.
    pub fn check_before_mount(&self, mono_path: &str) -> (r: Result<(), String>)
        ensures
            match (r, first_overlap(works_view(self.works@), mono_path@)) {
                (Ok(()), None) => true,
                (Err(q), Some(p)) => q@ == p,
                _ => false,
            },
    {
        let ghost all = works_view(self.works@);
        let mut i: usize = 0;
        assert(all.subrange(0, all.len() as int) =~= all);
        while i < self.works.len()
            invariant
                i <= self.works.len(),
                all == works_view(self.works@),
                first_overlap(all, mono_path@) == first_overlap(all.subrange(i as int, all.len() as int), mono_path@),
            decreases self.works.len() - i,
        {
            let work = &self.works[i];
            assert(all.subrange(i as int, all.len() as int)[0] == work@);
            assert(all.subrange(i as int, all.len() as int).drop_first() =~= all.subrange(i + 1, all.len() as int));
            if path_overlaps(work.path.as_str(), mono_path) {
                return Err(work.path.clone());
            }
            i = i + 1;
        }
        Ok(())
    }

    /// The workspace for `mono_path`: the first whose path equals it or is a
    /// prefix of it.
    fn select_work(&self, mono_path: &str) -> (r: Result<&WorkDir, String>)
        ensures
            match (r, first_covering(works_view(self.works@), mono_path@)) {
                (Ok(w), Some(i)) => 0 <= i < self.works.len() && w@ == self.works@[i]@,
                (Err(e), None) => e@ == "WorkDir not found"@,
                _ => false,
            },
    {
        let ghost all = works_view(self.works@);
        let mut i: usize = 0;
        assert(all.subrange(0, all.len() as int) =~= all);
        while i < self.works.len()
            invariant
                i <= self.works.len(),
                all == works_view(self.works@),
                first_covering(all, mono_path@) == match first_covering(all.subrange(i as int, all.len() as int), mono_path@) {
                    Some(j) => Some(j + i),
                    None => None,
                },
            decreases self.works.len() - i,
        {
            let work = &self.works[i];
            assert(all.subrange(i as int, all.len() as int)[0] == work@);
            assert(all.subrange(i as int, all.len() as int).drop_first() =~= all.subrange(i + 1, all.len() as int));
            if starts_with(mono_path, work.path.as_str()) || same_text(mono_path, work.path.as_str()) {
                return Ok(work);
            }
            i = i + 1;
        }
        Err(String::from_str("WorkDir not found"))
    }

    /// Removes the first workspace whose path is exactly `mono_path`.
    /// Persisting the state file afterwards is the caller's part.
    pub fn remove_workspace(&mut self, mono_path: &str) -> (r: Result<(), String>)
        ensures
            match position_of(works_view(old(self).works@), mono_path@) {
                Some(i) => r is Ok && works_view(final(self).works@) == works_view(old(self).works@).remove(i),
                None => r is Err && r->Err_0@ == "Workspace not found"@ && works_view(final(self).works@) == works_view(old(self).works@),
            },
    {
        let ghost all = works_view(self.works@);
        let mut i: usize = 0;
        assert(all.subrange(0, all.len() as int) =~= all);
        while i < self.works.len()
            invariant
                i <= self.works.len(),
                all == works_view(self.works@),
                all == works_view(old(self).works@),
                position_of(all, mono_path@) == match position_of(all.subrange(i as int, all.len() as int), mono_path@) {
                    Some(j) => Some(j + i),
                    None => None,
                },
            decreases self.works.len() - i,
        {
            assert(all.subrange(i as int, all.len() as int)[0] == self.works@[i as int]@);
            assert(all.subrange(i as int, all.len() as int).drop_first() =~= all.subrange(i + 1, all.len() as int));
            if same_text(self.works[i].path.as_str(), mono_path) {
                self.works.remove(i);
                assert(works_view(self.works@) =~= all.remove(i as int));
                return Ok(());
            }
            i = i + 1;
        }
        Err(String::from_str("Workspace not found"))
    }
}

} // verus!

verus! {

/// Overlap does not depend on which path is checked against which.
pub proof fn law_overlap_symmetric(a: Seq<char>, b: Seq<char>)
    ensures
        overlaps(a, b) == overlaps(b, a),
{
}

/// `check_before_mount` accepts a path exactly when no checked-out
/// workspace overlaps it.
pub proof fn law_check_accepts_iff_no_overlap(works: Seq<WorkView>, p: Seq<char>)
    ensures
        first_overlap(works, p) is None <==> forall|i: int| 0 <= i < works.len() ==> !overlaps(#[trigger] works[i].path, p),
    decreases works.len(),
{
    if works.len() > 0 {
        law_check_accepts_iff_no_overlap(works.drop_first(), p);
        assert forall|i: int| 0 < i < works.len() implies works[i] == #[trigger] works.drop_first()[i - 1] by {}
        if first_overlap(works, p) is None {
            assert forall|i: int| 0 <= i < works.len() implies !overlaps(#[trigger] works[i].path, p) by {
                if i > 0 {
                    assert(works[i] == works.drop_first()[i - 1]);
                }
            }
        }
    }
}

/// Once a workspace is recorded, every path overlapping it (the same path,
/// one inside it, one containing it) is refused by `check_before_mount`.
pub proof fn law_recorded_workspace_blocks_overlaps(works: Seq<WorkView>, w: WorkView, p: Seq<char>)
    requires
        overlaps(w.path, p),
    ensures
        first_overlap(works.push(w), p) is Some,
{
    law_check_accepts_iff_no_overlap(works.push(w), p);
    assert(works.push(w)[works.len() as int] == w);
}

} // verus!
