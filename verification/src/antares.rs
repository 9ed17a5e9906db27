//! Antares: per-job overlay workspaces on top of the read-only Dicfuse tree.
//!
//! This module holds what Antares decides: where a job's layers and
//! mountpoint go, how long to wait before an unmount, and the bookkeeping of
//! which jobs are mounted (one record per job id).

use vstd::prelude::*;

use crate::text::{cat, parse_unsigned, parse_unsigned_text, same_text, trim, trim_text};
use crate::util::config::ScorpioConfig;
use crate::util::sources::{opt_text, random_id};

verus! {

/// `base.join(p)` for Unix paths: an absolute `p` replaces `base`; otherwise
/// `p` is appended, with a `/` between unless `base` is empty or already ends
/// in one.
pub open spec fn join_path(base: Seq<char>, p: Seq<char>) -> Seq<char> {
    if p.len() > 0 && p[0] == '/' {
        p
    } else if base.len() > 0 && base.last() != '/' {
        base + "/"@ + p
    } else {
        base + p
    }
}

/// Joins `p` onto `base` as `Path::join` does on Unix.
pub fn join(base: &str, p: &str) -> (r: String)
    ensures
        r@ == join_path(base@, p@),
{
    let lp = p.unicode_len();
    if lp > 0 && p.get_char(0) == '/' {
        return String::from_str(p);
    }
    let lb = base.unicode_len();
    if lb > 0 && base.get_char(lb - 1) != '/' {
        cat(cat(String::from_str(base), "/"), p)
    } else {
        cat(String::from_str(base), p)
    }
}

/// Global paths used by Antares to place layers and state.
pub struct AntaresPaths {
    /// Root directory to place per-job upper layers.
    pub upper_root: String,
    /// Root directory to place per-job CL layers when requested.
    pub cl_root: String,
    /// Base directory for mountpoints returned to callers.
    pub mount_root: String,
    /// Path to persist mount state as TOML.
    pub state_file: String,
}

impl AntaresPaths {
    pub fn new(upper_root: String, cl_root: String, mount_root: String, state_file: String) -> (r: Self)
        ensures
            r.upper_root == upper_root,
            r.cl_root == cl_root,
            r.mount_root == mount_root,
            r.state_file == state_file,
    {
        AntaresPaths { upper_root, cl_root, mount_root, state_file }
    }

    /// The paths the configuration names.
    pub fn from_global_config(cfg: &ScorpioConfig) -> (r: Self)
        ensures
            r.upper_root@ == cfg.antares_upper_root@,
            r.cl_root@ == cfg.antares_cl_root@,
            r.mount_root@ == cfg.antares_mount_root@,
            r.state_file@ == cfg.antares_state_file@,
    {
        AntaresPaths {
            upper_root: cfg.antares_upper_root.clone(),
            cl_root: cfg.antares_cl_root.clone(),
            mount_root: cfg.antares_mount_root.clone(),
            state_file: cfg.antares_state_file.clone(),
        }
    }

    /// The default mountpoint of a job: `{mount_root}/{job_id}`.
    pub fn job_mountpoint(&self, job_id: &str) -> (r: String)
        ensures
            r@ == join_path(self.mount_root@, job_id@),
    {
        join(self.mount_root.as_str(), job_id)
    }

    /// The record of a job mounted at `mountpoint`: its upper layer lives at
    /// `{upper_root}/{upper_id}`, and, only when a CL name is given, its CL
    /// layer at `{cl_root}/{cl_id}`.
    pub fn plan_instance(&self, job_id: &str, mountpoint: String, cl_name: Option<&str>, upper_id: String, cl_id: String) -> (r: AntaresConfig)
        ensures
            r.job_id@ == job_id@,
            r.mountpoint == mountpoint,
            r.upper_id == upper_id,
            r.upper_dir@ == join_path(self.upper_root@, upper_id@),
            cl_name is None ==> r.cl_id is None && r.cl_dir is None,
            cl_name is Some ==> r.cl_id == Some(cl_id) && r.cl_dir is Some && r.cl_dir->0@ == join_path(self.cl_root@, cl_id@),
    {
        let upper_dir = join(self.upper_root.as_str(), upper_id.as_str());
        let (cl_id, cl_dir) = match cl_name {
            Some(_) => {
                let dir = join(self.cl_root.as_str(), cl_id.as_str());
                (Some(cl_id), Some(dir))
            },
            None => (None, None),
        };
        AntaresConfig { job_id: String::from_str(job_id), mountpoint, upper_id, upper_dir, cl_dir, cl_id }
    }

    /// The record of a new job mounted by its id: its mountpoint is
    /// `{mount_root}/{job_id}`, and the rest is as for a job mounted there.
    pub fn plan_job(&self, job_id: &str, cl_name: Option<&str>) -> (r: AntaresConfig)
        ensures
            r.job_id@ == job_id@,
            r.mountpoint@ == join_path(self.mount_root@, job_id@),
            r.upper_dir@ == join_path(self.upper_root@, r.upper_id@),
            r.upper_id@.len() == 36,
            cl_name is None ==> r.cl_id is None && r.cl_dir is None,
            cl_name is Some ==> r.cl_id is Some && r.cl_dir is Some && r.cl_dir->0@ == join_path(self.cl_root@, r.cl_id->0@),
            cl_name is Some ==> r.cl_id->0@.len() == 36,
    {
        let mountpoint = self.job_mountpoint(job_id);
        self.plan_new_instance(job_id, mountpoint, cl_name)
    }

    /// The record of a new job mounted at `mountpoint`, with fresh random
    /// ids for its upper layer and, when a CL name is given, its CL layer.
    pub fn plan_new_instance(&self, job_id: &str, mountpoint: String, cl_name: Option<&str>) -> (r: AntaresConfig)
        ensures
            r.job_id@ == job_id@,
            r.mountpoint == mountpoint,
            r.upper_dir@ == join_path(self.upper_root@, r.upper_id@),
            r.upper_id@.len() == 36,
            cl_name is None ==> r.cl_id is None && r.cl_dir is None,
            cl_name is Some ==> r.cl_id is Some && r.cl_dir is Some && r.cl_dir->0@ == join_path(self.cl_root@, r.cl_id->0@),
            cl_name is Some ==> r.cl_id->0@.len() == 36,
    {
        let upper_id = random_id();
        let cl_id = match cl_name {
            Some(_) => random_id(),
            None => String::new(),
        };
        self.plan_instance(job_id, mountpoint, cl_name, upper_id, cl_id)
    }
}

/// Persisted config for a mounted Antares job instance.
pub struct AntaresConfig {
    pub job_id: String,
    pub mountpoint: String,
    pub upper_id: String,
    pub upper_dir: String,
    pub cl_dir: Option<String>,
    pub cl_id: Option<String>,
}

pub struct InstanceView {
    pub job_id: Seq<char>,
    pub mountpoint: Seq<char>,
    pub upper_id: Seq<char>,
    pub upper_dir: Seq<char>,
    pub cl_dir: Option<Seq<char>>,
    pub cl_id: Option<Seq<char>>,
}

impl View for AntaresConfig {
    type V = InstanceView;

    open spec fn view(&self) -> InstanceView {
        InstanceView {
            job_id: self.job_id@,
            mountpoint: self.mountpoint@,
            upper_id: self.upper_id@,
            upper_dir: self.upper_dir@,
            cl_dir: opt_text(self.cl_dir),
            cl_id: opt_text(self.cl_id),
        }
    }
}

fn clone_opt(o: &Option<String>) -> (r: Option<String>)
    ensures
        opt_text(r) == opt_text(*o),
{
    match o {
        Some(s) => Some(s.clone()),
        None => None,
    }
}

impl Clone for AntaresConfig {
    fn clone(&self) -> (r: Self)
        ensures
            r@ == self@,
    {
        AntaresConfig {
            job_id: self.job_id.clone(),
            mountpoint: self.mountpoint.clone(),
            upper_id: self.upper_id.clone(),
            upper_dir: self.upper_dir.clone(),
            cl_dir: clone_opt(&self.cl_dir),
            cl_id: clone_opt(&self.cl_id),
        }
    }
}

pub const DEFAULT_UNMOUNT_GRACE_MS: u64 = 150;
pub const MAX_UNMOUNT_GRACE_MS: u64 = 3000;

/// The quiesce delay before an unmount, in milliseconds, given the raw
/// `ANTARES_UNMOUNT_GRACE_MS` setting: unset or not a number means 150, and
/// a number is clamped to at most 3000.
pub open spec fn grace_millis(raw: Option<Seq<char>>) -> nat {
    match raw {
        None => DEFAULT_UNMOUNT_GRACE_MS as nat,
        Some(t) => match parse_unsigned(trim(t), u64::MAX as nat) {
            Ok(ms) => if ms > MAX_UNMOUNT_GRACE_MS {
                MAX_UNMOUNT_GRACE_MS as nat
            } else {
                ms
            },
            Err(_) => DEFAULT_UNMOUNT_GRACE_MS as nat,
        },
    }
}

/// The unmount grace period in milliseconds for the raw setting `raw`.
pub fn unmount_grace_duration(raw: Option<&str>) -> (ms: u64)
    ensures
        ms as nat == grace_millis(
            match raw {
                Some(t) => Some(t@),
                None => None,
            },
        ),
{
    match raw {
        None => DEFAULT_UNMOUNT_GRACE_MS,
        Some(t) => {
            let trimmed = trim_text(t);
            match parse_unsigned_text(trimmed.as_str(), u64::MAX) {
                Ok(ms) => if ms > MAX_UNMOUNT_GRACE_MS {
                    MAX_UNMOUNT_GRACE_MS
                } else {
                    ms
                },
                Err(_) => DEFAULT_UNMOUNT_GRACE_MS,
            }
        },
    }
}

} // verus!

verus! {

/// No two records share a job id.
pub open spec fn ids_unique(s: Seq<InstanceView>) -> bool {
    forall|i: int, j: int| 0 <= i < s.len() && 0 <= j < s.len() && i != j ==> (#[trigger] s[i]).job_id != (#[trigger] s[j]).job_id
}

pub open spec fn has_job(s: Seq<InstanceView>, id: Seq<char>) -> bool {
    exists|i: int| 0 <= i < s.len() && (#[trigger] s[i]).job_id == id
}

/// The records keyed by job id.
pub open spec fn by_job(s: Seq<InstanceView>) -> Map<Seq<char>, InstanceView> {
    Map::new(
        |id: Seq<char>| has_job(s, id),
        |id: Seq<char>| s[choose|i: int| 0 <= i < s.len() && (#[trigger] s[i]).job_id == id],
    )
}

proof fn lemma_by_job_at(s: Seq<InstanceView>, i: int)
    requires
        ids_unique(s),
        0 <= i < s.len(),
    ensures
        by_job(s).contains_key(s[i].job_id),
        by_job(s)[s[i].job_id] == s[i],
{
    let id = s[i].job_id;
    assert(has_job(s, id));
    let j = choose|j: int| 0 <= j < s.len() && (#[trigger] s[j]).job_id == id;
    assert(j == i);
}

proof fn lemma_by_job_push(s: Seq<InstanceView>, c: InstanceView)
    requires
        ids_unique(s),
        !has_job(s, c.job_id),
    ensures
        ids_unique(s.push(c)),
        by_job(s.push(c)) == by_job(s).insert(c.job_id, c),
{
    let t = s.push(c);
    assert forall|i: int, j: int| 0 <= i < t.len() && 0 <= j < t.len() && i != j implies (#[trigger] t[i]).job_id != (#[trigger] t[j]).job_id by {
        if i < s.len() && j < s.len() {
            assert(t[i] == s[i] && t[j] == s[j]);
        } else if i < s.len() {
            assert(t[i] == s[i]);
        } else {
            assert(t[j] == s[j]);
        }
    }
    assert forall|id: Seq<char>| #[trigger] by_job(t).contains_key(id) == by_job(s).insert(c.job_id, c).contains_key(id) by {
        if has_job(s, id) {
            let k = choose|k: int| 0 <= k < s.len() && (#[trigger] s[k]).job_id == id;
            assert(t[k] == s[k]);
        }
        if has_job(t, id) {
            let k = choose|k: int| 0 <= k < t.len() && (#[trigger] t[k]).job_id == id;
            if k < s.len() {
                assert(t[k] == s[k]);
            }
        }
        if id == c.job_id {
            assert(t[s.len() as int] == c);
        }
    }
    assert forall|id: Seq<char>| #[trigger] by_job(t).contains_key(id) implies by_job(t)[id] == by_job(s).insert(c.job_id, c)[id] by {
        let k = choose|k: int| 0 <= k < t.len() && (#[trigger] t[k]).job_id == id;
        lemma_by_job_at(t, k);
        if k < s.len() {
            assert(t[k] == s[k]);
            lemma_by_job_at(s, k);
        }
    }
    assert(by_job(t) =~= by_job(s).insert(c.job_id, c));
}

proof fn lemma_by_job_update(s: Seq<InstanceView>, i: int, c: InstanceView)
    requires
        ids_unique(s),
        0 <= i < s.len(),
        s[i].job_id == c.job_id,
    ensures
        ids_unique(s.update(i, c)),
        by_job(s.update(i, c)) == by_job(s).insert(c.job_id, c),
{
    let t = s.update(i, c);
    assert forall|a: int, b: int| 0 <= a < t.len() && 0 <= b < t.len() && a != b implies (#[trigger] t[a]).job_id != (#[trigger] t[b]).job_id by {
        assert(t[a].job_id == s[a].job_id && t[b].job_id == s[b].job_id);
    }
    assert forall|id: Seq<char>| #[trigger] by_job(t).contains_key(id) == by_job(s).insert(c.job_id, c).contains_key(id) by {
        if has_job(s, id) {
            let k = choose|k: int| 0 <= k < s.len() && (#[trigger] s[k]).job_id == id;
            assert(t[k].job_id == s[k].job_id);
        }
        if has_job(t, id) {
            let k = choose|k: int| 0 <= k < t.len() && (#[trigger] t[k]).job_id == id;
            assert(t[k].job_id == s[k].job_id);
        }
        if id == c.job_id {
            assert(t[i] == c);
        }
    }
    assert forall|id: Seq<char>| #[trigger] by_job(t).contains_key(id) implies by_job(t)[id] == by_job(s).insert(c.job_id, c)[id] by {
        let k = choose|k: int| 0 <= k < t.len() && (#[trigger] t[k]).job_id == id;
        lemma_by_job_at(t, k);
        if k != i {
            assert(t[k] == s[k]);
            lemma_by_job_at(s, k);
        }
    }
    assert(by_job(t) =~= by_job(s).insert(c.job_id, c));
}

proof fn lemma_by_job_remove(s: Seq<InstanceView>, i: int)
    requires
        ids_unique(s),
        0 <= i < s.len(),
    ensures
        ids_unique(s.remove(i)),
        by_job(s.remove(i)) == by_job(s).remove(s[i].job_id),
{
    let t = s.remove(i);
    let gone = s[i].job_id;
    assert forall|k: int| 0 <= k < t.len() implies #[trigger] t[k] == s[if k < i { k } else { k + 1 }] by {}
    assert forall|a: int, b: int| 0 <= a < t.len() && 0 <= b < t.len() && a != b implies (#[trigger] t[a]).job_id != (#[trigger] t[b]).job_id by {
        let a2 = if a < i { a } else { a + 1 };
        let b2 = if b < i { b } else { b + 1 };
        assert(t[a] == s[a2] && t[b] == s[b2]);
    }
    assert forall|id: Seq<char>| #[trigger] by_job(t).contains_key(id) == by_job(s).remove(gone).contains_key(id) by {
        if has_job(s, id) && id != gone {
            let k = choose|k: int| 0 <= k < s.len() && (#[trigger] s[k]).job_id == id;
            assert(k != i);
            let k2 = if k < i { k } else { k - 1 };
            assert(t[k2] == s[k]);
        }
        if has_job(t, id) {
            let k = choose|k: int| 0 <= k < t.len() && (#[trigger] t[k]).job_id == id;
            let k2 = if k < i { k } else { k + 1 };
            assert(t[k] == s[k2]);
            assert(k2 != i);
        }
    }
    assert forall|id: Seq<char>| #[trigger] by_job(t).contains_key(id) implies by_job(t)[id] == by_job(s).remove(gone)[id] by {
        let k = choose|k: int| 0 <= k < t.len() && (#[trigger] t[k]).job_id == id;
        lemma_by_job_at(t, k);
        let k2 = if k < i { k } else { k + 1 };
        assert(t[k] == s[k2]);
        lemma_by_job_at(s, k2);
    }
    assert(by_job(t) =~= by_job(s).remove(gone));
}

pub open spec fn instances_view(v: Seq<AntaresConfig>) -> Seq<InstanceView> {
    v.map_values(|c: AntaresConfig| c@)
}

/// The mounted job instances, at most one per job id, seen as a map from
/// job id to record. They are kept in a vector whose job ids are unique
/// rather than in a `HashMap` keyed by the id: vstd's `HashMap`
/// specification gives nothing to prove with `String` keys, so a contract
/// over such a map could not say which record a lookup, insert or removal
/// touches.
pub struct MountRegistry {
    instances: Vec<AntaresConfig>,
}

impl MountRegistry {
    #[verifier::type_invariant]
    spec fn well_formed(self) -> bool {
        ids_unique(instances_view(self.instances@))
    }
}

impl View for MountRegistry {
    type V = Map<Seq<char>, InstanceView>;

    closed spec fn view(&self) -> Map<Seq<char>, InstanceView> {
        by_job(instances_view(self.instances@))
    }
}

impl MountRegistry {
    /// No job mounted.
    pub fn new() -> (r: Self)
        ensures
            r@ == Map::<Seq<char>, InstanceView>::empty(),
    {
        let r = MountRegistry { instances: Vec::new() };
        assert(by_job(instances_view(r.instances@)) =~= Map::<Seq<char>, InstanceView>::empty());
        r
    }

    fn find(&self, job_id: &str) -> (r: Option<usize>)
        ensures
            match r {
                Some(i) => i < self.instances.len() && self.instances@[i as int]@.job_id == job_id@,
                None => !has_job(instances_view(self.instances@), job_id@),
            },
    {
        let mut i: usize = 0;
        while i < self.instances.len()
            invariant
                i <= self.instances.len(),
                forall|j: int| 0 <= j < i ==> (#[trigger] instances_view(self.instances@)[j]).job_id != job_id@,
            decreases self.instances.len() - i,
        {
            if same_text(self.instances[i].job_id.as_str(), job_id) {
                return Some(i);
            }
            assert(instances_view(self.instances@)[i as int] == self.instances@[i as int]@);
            i = i + 1;
        }
        None
    }

    /// Whether a job is mounted.
    pub fn contains(&self, job_id: &str) -> (b: bool)
        ensures
            b == self@.contains_key(job_id@),
    {
        match self.find(job_id) {
            Some(i) => {
                assert(instances_view(self.instances@)[i as int].job_id == job_id@);
                true
            },
            None => false,
        }
    }

    /// The record of a job.
    pub fn get(&self, job_id: &str) -> (r: Option<&AntaresConfig>)
        ensures
            r is Some == self@.contains_key(job_id@),
            r matches Some(c) ==> c@ == self@[job_id@],
    {
        proof {
            use_type_invariant(self);
        }
        match self.find(job_id) {
            Some(i) => {
                proof {
                    lemma_by_job_at(instances_view(self.instances@), i as int);
                }
                Some(&self.instances[i])
            },
            None => None,
        }
    }

    /// Records a mounted job, replacing any earlier record of the same id.
    pub fn insert(&mut self, cfg: AntaresConfig)
        ensures
            final(self)@ == old(self)@.insert(cfg@.job_id, cfg@),
    {
        proof {
            use_type_invariant(&*self);
        }
        let ghost c = cfg@;
        let ghost before = instances_view(self.instances@);
        match self.find(cfg.job_id.as_str()) {
            Some(i) => {
                let mut v = Vec::new();
                std::mem::swap(&mut v, &mut self.instances);
                proof {
                    lemma_by_job_update(before, i as int, c);
                }
                v.set(i, cfg);
                assert(instances_view(v@) =~= before.update(i as int, c));
                self.instances = v;
            },
            None => {
                let mut v = Vec::new();
                std::mem::swap(&mut v, &mut self.instances);
                proof {
                    lemma_by_job_push(before, c);
                }
                v.push(cfg);
                assert(instances_view(v@) =~= before.push(c));
                self.instances = v;
            },
        }
    }

    /// Forgets a job, returning its record when it was mounted.
    pub fn remove(&mut self, job_id: &str) -> (r: Option<AntaresConfig>)
        ensures
            final(self)@ == old(self)@.remove(job_id@),
            r is Some == old(self)@.contains_key(job_id@),
            r matches Some(c) ==> c@ == old(self)@[job_id@],
    {
        proof {
            use_type_invariant(&*self);
        }
        let ghost before = instances_view(self.instances@);
        match self.find(job_id) {
            Some(i) => {
                proof {
                    lemma_by_job_at(before, i as int);
                    lemma_by_job_remove(before, i as int);
                }
                let mut v = Vec::new();
                std::mem::swap(&mut v, &mut self.instances);
                let c = v.remove(i);
                assert(instances_view(v@) =~= before.remove(i as int));
                self.instances = v;
                Some(c)
            },
            None => {
                assert(!by_job(before).contains_key(job_id@));
                assert(by_job(before).remove(job_id@) =~= by_job(before));
                None
            },
        }
    }

    /// The number of mounted jobs.
    pub fn len(&self) -> (n: usize)
        ensures
            n == self@.len(),
    {
        proof {
            use_type_invariant(self);
            lemma_by_job_len(instances_view(self.instances@));
        }
        self.instances.len()
    }

    /// All records, one per mounted job, in no promised order.
    pub fn list(&self) -> (v: Vec<AntaresConfig>)
        ensures
            ids_unique(instances_view(v@)),
            by_job(instances_view(v@)) == self@,
    {
        proof {
            use_type_invariant(self);
        }
        let mut out: Vec<AntaresConfig> = Vec::new();
        let mut i: usize = 0;
        while i < self.instances.len()
            invariant
                i <= self.instances.len(),
                out@.len() == i,
                instances_view(out@) == instances_view(self.instances@).subrange(0, i as int),
            decreases self.instances.len() - i,
        {
            let c = self.instances[i].clone();
            assert(c@ == self.instances@[i as int]@);
            assert(instances_view(self.instances@)[i as int] == self.instances@[i as int]@);
            let ghost prev = out@;
            let ghost cv = c@;
            out.push(c);
            assert(out@ == prev.push(c));
            assert forall|k: int| 0 <= k < i + 1 implies #[trigger] instances_view(out@)[k] == instances_view(self.instances@).subrange(0, i + 1)[k] by {
                if k < i {
                    assert(out@[k] == prev[k]);
                    assert(instances_view(prev)[k] == prev[k]@);
                }
            }
            assert(instances_view(out@) =~= instances_view(self.instances@).subrange(0, i + 1));
            i = i + 1;
        }
        assert(instances_view(out@) =~= instances_view(self.instances@));
        out
    }
}

proof fn lemma_by_job_len(s: Seq<InstanceView>)
    requires
        ids_unique(s),
    ensures
        by_job(s).dom().finite(),
        by_job(s).len() == s.len(),
    decreases s.len(),
{
    if s.len() == 0 {
        assert(by_job(s).dom() =~= Set::<Seq<char>>::empty());
    } else {
        let t = s.drop_last();
        assert forall|i: int, j: int| 0 <= i < t.len() && 0 <= j < t.len() && i != j implies (#[trigger] t[i]).job_id != (#[trigger] t[j]).job_id by {
            assert(t[i] == s[i] && t[j] == s[j]);
        }
        lemma_by_job_len(t);
        if has_job(t, s.last().job_id) {
            let k = choose|k: int| 0 <= k < t.len() && (#[trigger] t[k]).job_id == s.last().job_id;
            assert(t[k] == s[k]);
            assert(s[k].job_id == s[s.len() - 1].job_id);
        }
        lemma_by_job_push(t, s.last());
        assert(t.push(s.last()) =~= s);
    }
}

} // verus!

verus! {

/// The records a persisted mount list loads to: each record in turn, a later
/// record replacing an earlier one with the same job id.
pub open spec fn load_fold(s: Seq<InstanceView>) -> Map<Seq<char>, InstanceView>
    decreases s.len(),
{
    if s.len() == 0 {
        Map::empty()
    } else {
        load_fold(s.drop_last()).insert(s.last().job_id, s.last())
    }
}

impl MountRegistry {
    /// The registry a persisted mount list loads to.
    pub fn from_mounts(mounts: &Vec<AntaresConfig>) -> (r: Self)
        ensures
            r@ == load_fold(instances_view(mounts@)),
    {
        let mut reg = MountRegistry::new();
        let ghost all = instances_view(mounts@);
        let mut i: usize = 0;
        assert(all.subrange(0, 0) =~= Seq::<InstanceView>::empty());
        while i < mounts.len()
            invariant
                i <= mounts.len(),
                all == instances_view(mounts@),
                reg@ == load_fold(all.subrange(0, i as int)),
            decreases mounts.len() - i,
        {
            let c = mounts[i].clone();
            assert(all[i as int] == c@);
            reg.insert(c);
            assert(all.subrange(0, i + 1).drop_last() =~= all.subrange(0, i as int));
            i = i + 1;
        }
        assert(all.subrange(0, mounts.len() as int) =~= all);
        reg
    }
}

proof fn lemma_load_fold_unique(s: Seq<InstanceView>)
    requires
        ids_unique(s),
    ensures
        load_fold(s) == by_job(s),
    decreases s.len(),
{
    if s.len() == 0 {
        assert(by_job(s) =~= Map::<Seq<char>, InstanceView>::empty());
    } else {
        let t = s.drop_last();
        assert forall|i: int, j: int| 0 <= i < t.len() && 0 <= j < t.len() && i != j implies (#[trigger] t[i]).job_id != (#[trigger] t[j]).job_id by {
            assert(t[i] == s[i] && t[j] == s[j]);
        }
        lemma_load_fold_unique(t);
        if has_job(t, s.last().job_id) {
            let k = choose|k: int| 0 <= k < t.len() && (#[trigger] t[k]).job_id == s.last().job_id;
            assert(t[k] == s[k]);
            assert(s[k].job_id == s[s.len() - 1].job_id);
        }
        lemma_by_job_push(t, s.last());
        assert(t.push(s.last()) =~= s);
    }
}

/// Persisting the mounted jobs and loading them back gives the same records:
/// the state file written from `list` restores every job as it was.
pub proof fn law_persist_then_load(listed: Seq<InstanceView>, current: Map<Seq<char>, InstanceView>)
    requires
        ids_unique(listed),
        by_job(listed) == current,
    ensures
        load_fold(listed) == current,
{
    lemma_load_fold_unique(listed);
}

/// After a job is recorded it is found with its record; other jobs are
/// untouched.
pub proof fn law_mount_then_lookup(m: Map<Seq<char>, InstanceView>, c: InstanceView, other: Seq<char>)
    requires
        other != c.job_id,
    ensures
        m.insert(c.job_id, c).contains_key(c.job_id),
        m.insert(c.job_id, c)[c.job_id] == c,
        m.insert(c.job_id, c).contains_key(other) == m.contains_key(other),
        m.contains_key(other) ==> m.insert(c.job_id, c)[other] == m[other],
{
}

/// After a job is unmounted its bookkeeping is gone, and mounting then
/// unmounting a job that was not mounted leaves the registry as it was.
pub proof fn law_unmount_forgets(m: Map<Seq<char>, InstanceView>, c: InstanceView)
    ensures
        !m.remove(c.job_id).contains_key(c.job_id),
        !m.contains_key(c.job_id) ==> m.insert(c.job_id, c).remove(c.job_id) == m,
{
    if !m.contains_key(c.job_id) {
        assert(m.insert(c.job_id, c).remove(c.job_id) =~= m);
    }
}

} // verus!

verus! {

/// The FUSE unmount helper to invoke, given which helpers are on `PATH`:
/// fuse3's `fusermount3` first, then fuse2's `fusermount`, and
/// `fusermount3` when neither is found (so the error names what the docs
/// tell users to install).
pub fn fusermount_bin(fusermount3_on_path: bool, fusermount_on_path: bool) -> (r: &'static str)
    ensures
        r@ == (if fusermount3_on_path || !fusermount_on_path {
            "fusermount3"@
        } else {
            "fusermount"@
        }),
{
    if fusermount3_on_path {
        "fusermount3"
    } else if fusermount_on_path {
        "fusermount"
    } else {
        "fusermount3"
    }
}

} // verus!

verus! {

/// Whether a failed `fusermount -u` only means the filesystem was not
/// mounted any more, so that removing the bookkeeping is all that is left.
pub fn unmount_failure_is_benign(stderr: &str) -> (b: bool)
    ensures
        b == (crate::text::contains_seq(stderr@, "not mounted"@) || crate::text::contains_seq(stderr@, "Invalid argument"@)),
{
    crate::text::contains_text(stderr, "not mounted") || crate::text::contains_text(stderr, "Invalid argument")
}

} // verus!

verus! {

/// Whatever `ANTARES_UNMOUNT_GRACE_MS` holds, the quiesce delay before an
/// unmount never exceeds three seconds.
pub proof fn law_grace_is_bounded(raw: Option<Seq<char>>)
    ensures
        grace_millis(raw) <= MAX_UNMOUNT_GRACE_MS,
{
}

} // verus!

verus! {

/// How a job's FUSE filesystem is unmounted.
pub enum UnmountMethod {
    /// Through the FUSE handle kept since the job was mounted.
    Handle,
    /// With the `fusermount -u` helper.
    Fusermount,
}

/// How unmounting a tracked job goes: wait the grace period, then unmount
/// its mountpoint by the method given.
pub struct UmountPlan {
    pub mountpoint: String,
    pub grace_ms: u64,
    pub method: UnmountMethod,
}

pub open spec fn opt_text_of(raw: Option<&str>) -> Option<Seq<char>> {
    match raw {
        Some(t) => Some(t@),
        None => None,
    }
}

/// The first step of unmounting job `job_id`: nothing to do for a job that
/// is not tracked; otherwise its mountpoint is quiesced for the grace period
/// (`grace_raw` is the raw setting) and unmounted through its FUSE handle
/// when it has one, else with `fusermount`.
pub fn plan_umount(registry: &MountRegistry, job_id: &str, grace_raw: Option<&str>, has_handle: bool) -> (r: Option<UmountPlan>)
    ensures
        r is None <==> !registry@.contains_key(job_id@),
        r matches Some(p) ==> p.mountpoint@ == registry@[job_id@].mountpoint
            && p.grace_ms as nat == grace_millis(opt_text_of(grace_raw))
            && (p.method is Handle <==> has_handle),
{
    match registry.get(job_id) {
        None => None,
        Some(cfg) => Some(UmountPlan {
            mountpoint: cfg.mountpoint.clone(),
            grace_ms: unmount_grace_duration(grace_raw),
            method: if has_handle { UnmountMethod::Handle } else { UnmountMethod::Fusermount },
        }),
    }
}

/// After unmounting through the FUSE handle: a failure falls back to
/// `fusermount -u`, whose outcome is then not looked at.
pub fn after_handle_unmount(result: &Result<(), String>) -> (next: Option<UnmountMethod>)
    ensures
        next is None <==> result is Ok,
        next matches Some(m) ==> m is Fusermount,
{
    match result {
        Ok(()) => None,
        Err(_) => Some(UnmountMethod::Fusermount),
    }
}

/// What a `fusermount -u` run without a FUSE handle amounted to. Whatever
/// it is, the job's bookkeeping is removed afterwards.
pub enum FusermountVerdict {
    Unmounted,
    /// The filesystem was not mounted any more: only the bookkeeping is left.
    NotMounted,
    /// The helper ran and failed otherwise.
    Failed,
    /// The helper could not be started, for the reason given.
    NotStarted(String),
}

/// The verdict on a `fusermount -u` run that was started, given whether it
/// succeeded and its standard error.
pub open spec fn ran_verdict(ok: bool, stderr: Seq<char>) -> FusermountVerdict {
    if ok {
        FusermountVerdict::Unmounted
    } else if crate::text::contains_seq(stderr, "not mounted"@) || crate::text::contains_seq(stderr, "Invalid argument"@) {
        FusermountVerdict::NotMounted
    } else {
        FusermountVerdict::Failed
    }
}

/// Judges a `fusermount -u` run (`ran` is whether it succeeded and its
/// standard error, or why it could not be started).
pub fn fusermount_verdict(ran: Result<(bool, String), String>) -> (r: FusermountVerdict)
    ensures
        match ran {
            Err(e) => r matches FusermountVerdict::NotStarted(m) && m@ == e@,
            Ok((ok, stderr)) => r == ran_verdict(ok, stderr@),
        },
{
    match ran {
        Err(e) => FusermountVerdict::NotStarted(e),
        Ok((true, _)) => FusermountVerdict::Unmounted,
        Ok((false, stderr)) => if unmount_failure_is_benign(stderr.as_str()) {
            FusermountVerdict::NotMounted
        } else {
            FusermountVerdict::Failed
        },
    }
}

/// How the unmount of a tracked job went.
pub enum UnmountOutcome {
    /// Through its FUSE handle: unmounted, or the failure (after which
    /// `fusermount -u` was tried, its outcome not looked at).
    Handle(Result<(), String>),
    /// With `fusermount -u`, there being no handle.
    Fusermount(FusermountVerdict),
}

/// The last step of unmounting job `job_id`: its bookkeeping is removed
/// whatever the unmount came to, and its record handed back (`None` for a
/// job that was not tracked).
pub fn finish_umount(registry: &mut MountRegistry, job_id: &str, outcome: &UnmountOutcome) -> (r: Option<AntaresConfig>)
    ensures
        final(registry)@ == old(registry)@.remove(job_id@),
        !final(registry)@.contains_key(job_id@),
        r is Some <==> old(registry)@.contains_key(job_id@),
        r matches Some(c) ==> c@ == old(registry)@[job_id@],
{
    registry.remove(job_id)
}

} // verus!
