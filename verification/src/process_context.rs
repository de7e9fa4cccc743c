//! Process contexts: what the agent has learned about one running process,
//! kept in two bounded tiers so that processes with a behavioural score are
//! not pushed out by low-signal process churn.

use vstd::prelude::*;

use moka::policy::EvictionPolicy;
use moka::sync::Cache;

use crate::canonical::fsc_canonicalize_path;
use crate::file_context::{copy_opt_string, FileContextKey, KeyView, opt_str};
use crate::maps::{
    lemma_submap_contains, lemma_submap_overwrite, lemma_submap_removed, lemma_submap_trans,
    lemma_submap_update,
};
use crate::signatures::ProcessFlags;
use crate::tiers::{
    lru_policy, process_tier_capacity, process_tier_contains, process_tier_contents, process_tier_get,
    process_tier_insert, process_tier_invalidate, process_tier_new,
};

verus! {

/// Capacity of both process context tiers together.
pub const PROCESS_CONTEXT_CACHE_CAPACITY: u64 = 10000;

/// Capacity of the protected process context tier.
pub const HIGH_PRIORITY_PROCESS_CONTEXT_CACHE_CAPACITY: u64 = 2000;

/// Capacity of the normal process context tier.
pub const NORMAL_PROCESS_CONTEXT_CACHE_CAPACITY: u64 = 8000;

/// Galatea's internal 128-bit process identity, as its low and high halves.
#[derive(Debug, Clone, Copy, PartialEq, Eq, Structural, Hash)]
pub struct GaPid {
    pub lo: u64,
    pub hi: u64,
}

impl GaPid {
    /// The identity whose 16 little-endian bytes are those of `lo` followed by
    /// those of `hi`.
    pub fn from_halves(lo: u64, hi: u64) -> (r: GaPid)
        ensures
            r.lo == lo,
            r.hi == hi,
    {
        GaPid { lo, hi }
    }
}

/// Partial process telemetry update data.
#[derive(Debug, Clone)]
pub struct ProcessContextUpdate {
    /// Windows-assigned process ID.
    pub pid: Option<u64>,
    /// Windows process start key.
    pub process_start_key: Option<u64>,
    /// Current behavioural score for the process.
    pub behavioural_score: Option<u64>,
    /// Path of the process image.
    pub image_path: Option<String>,
    /// Context key for the process image file.
    pub image_context_key: Option<FileContextKey>,
    /// Flags matched during process runtime.
    pub matching_flags: Option<Vec<ProcessFlags>>,
}

/// The mathematical value of a [`ProcessContext`].
pub struct ProcessContextView {
    pub pid: Option<u64>,
    pub process_start_key: Option<u64>,
    pub guid: Option<GaPid>,
    pub behavioural_score: Option<u64>,
    pub image_path: Option<Seq<char>>,
    pub image_context_key: Option<KeyView>,
    pub matching_flags: Seq<ProcessFlags>,
}

/// Contextual information about a process used during correlation.
#[derive(Debug, Clone)]
pub struct ProcessContext {
    pid: Option<u64>,
    process_start_key: Option<u64>,
    guid: Option<GaPid>,
    behavioural_score: Option<u64>,
    image_path: Option<String>,
    image_context_key: Option<FileContextKey>,
    matching_flags: Vec<ProcessFlags>,
}

/// The view of an optional key.
pub open spec fn opt_key(k: Option<FileContextKey>) -> Option<KeyView> {
    match k {
        Some(k) => Some(k@),
        None => None,
    }
}

impl View for ProcessContext {
    type V = ProcessContextView;

    closed spec fn view(&self) -> ProcessContextView {
        ProcessContextView {
            pid: self.pid,
            process_start_key: self.process_start_key,
            guid: self.guid,
            behavioural_score: self.behavioural_score,
            image_path: opt_str(self.image_path),
            image_context_key: opt_key(self.image_context_key),
            matching_flags: self.matching_flags@,
        }
    }
}

/// A field of a partial update replaces the old value where present.
pub open spec fn replaced<T>(new: Option<T>, old: Option<T>) -> Option<T> {
    match new {
        Some(v) => Some(v),
        None => old,
    }
}

/// The context of a process seen for the first time.
pub open spec fn fresh_process_context(guid: GaPid) -> ProcessContextView {
    ProcessContextView {
        pid: None,
        process_start_key: None,
        guid: Some(guid),
        behavioural_score: None,
        image_path: None,
        image_context_key: None,
        matching_flags: seq![],
    }
}

/// An update merged into a context: present fields replace the old ones,
/// flags are appended.
pub open spec fn update_applied(c: ProcessContextView, u: ProcessContextUpdate) -> ProcessContextView {
    ProcessContextView {
        pid: replaced(u.pid, c.pid),
        process_start_key: replaced(u.process_start_key, c.process_start_key),
        guid: c.guid,
        behavioural_score: replaced(u.behavioural_score, c.behavioural_score),
        image_path: replaced(opt_str(u.image_path), c.image_path),
        image_context_key: replaced(opt_key(u.image_context_key), c.image_context_key),
        matching_flags: match u.matching_flags {
            Some(f) => c.matching_flags + f@,
            None => c.matching_flags,
        },
    }
}

/// A process belongs to the protected tier once its behavioural score is
/// known and positive.
pub open spec fn process_is_high_priority(c: ProcessContextView) -> bool {
    match c.behavioural_score {
        Some(s) => s > 0,
        None => false,
    }
}

fn copy_process_flags(v: &Vec<ProcessFlags>) -> (r: Vec<ProcessFlags>)
    ensures
        r@ == v@,
{
    let mut r: Vec<ProcessFlags> = Vec::new();
    let mut i: usize = 0;
    while i < v.len()
        invariant
            0 <= i <= v@.len(),
            r@ == v@.subrange(0, i as int),
        decreases v@.len() - i,
    {
        r.push(v[i]);
        assert(v@.subrange(0, i + 1) =~= v@.subrange(0, i as int).push(v@[i as int]));
        i = i + 1;
    }
    assert(v@.subrange(0, v@.len() as int) =~= v@);
    r
}

impl ProcessContext {
    /// The context of a process seen for the first time.
    pub fn fresh(guid: GaPid) -> (r: ProcessContext)
        ensures
            r@ == fresh_process_context(guid),
    {
        let r = ProcessContext {
            pid: None,
            process_start_key: None,
            guid: Some(guid),
            behavioural_score: None,
            image_path: None,
            image_context_key: None,
            matching_flags: Vec::new(),
        };
        assert(r@.matching_flags =~= seq![]);
        r
    }

    /// A copy of this context.
    pub fn duplicate(&self) -> (r: ProcessContext)
        ensures
            r@ == self@,
    {
        ProcessContext {
            pid: self.pid,
            process_start_key: self.process_start_key,
            guid: self.guid,
            behavioural_score: self.behavioural_score,
            image_path: copy_opt_string(&self.image_path),
            image_context_key: match &self.image_context_key {
                Some(k) => Some(k.copy_key()),
                None => None,
            },
            matching_flags: copy_process_flags(&self.matching_flags),
        }
    }

    /// Returns the Windows-assigned process ID if known.
    pub fn pid(&self) -> (r: Option<u64>)
        ensures
            r == self@.pid,
    {
        self.pid
    }

    /// Returns the Windows process start key if known.
    pub fn process_start_key(&self) -> (r: Option<u64>)
        ensures
            r == self@.process_start_key,
    {
        self.process_start_key
    }

    /// Returns the Galatea internal process identity if known.
    pub fn guid(&self) -> (r: Option<GaPid>)
        ensures
            r == self@.guid,
    {
        self.guid
    }

    /// Returns the current behavioural score if known.
    pub fn behavioural_score(&self) -> (r: Option<u64>)
        ensures
            r == self@.behavioural_score,
    {
        self.behavioural_score
    }

    /// Returns the process image path if known.
    pub fn image_path(&self) -> (r: Option<&str>)
        ensures
            match r {
                Some(s) => self@.image_path == Some(s@),
                None => self@.image_path is None,
            },
    {
        match &self.image_path {
            Some(s) => Some(s.as_str()),
            None => None,
        }
    }

    /// Returns the context key for the process image if known.
    pub fn image_context_key(&self) -> (r: Option<&FileContextKey>)
        ensures
            match r {
                Some(k) => self@.image_context_key == Some(k@),
                None => self@.image_context_key is None,
            },
    {
        match &self.image_context_key {
            Some(k) => Some(k),
            None => None,
        }
    }

    /// Returns the accumulated correlation flags.
    pub fn flags(&self) -> (r: &[ProcessFlags])
        ensures
            r@ == self@.matching_flags,
    {
        self.matching_flags.as_slice()
    }

    /// Adds correlation flags to this context.
    pub fn apply_flags(&mut self, flags: Vec<ProcessFlags>)
        ensures
            final(self)@ == (ProcessContextView {
                matching_flags: old(self)@.matching_flags + flags@,
                ..old(self)@
            }),
    {
        let mut flags = flags;
        self.matching_flags.append(&mut flags);
    }

    /// Merges an update whose image path is already canonical.
    pub fn apply_canonical_update(&mut self, update: ProcessContextUpdate)
        ensures
            final(self)@ == update_applied(old(self)@, update),
            update.behavioural_score matches Some(s) ==> final(self)@.behavioural_score == Some(s),
            update.behavioural_score is None ==> final(self)@.behavioural_score == old(
                self,
            )@.behavioural_score,
    {
        let ghost u = update;
        let ProcessContextUpdate {
            pid,
            process_start_key,
            behavioural_score,
            image_path,
            image_context_key,
            matching_flags,
        } = update;
        if let Some(pid) = pid {
            self.pid = Some(pid);
        }
        if let Some(key) = process_start_key {
            self.process_start_key = Some(key);
        }
        if let Some(score) = behavioural_score {
            self.behavioural_score = Some(score);
        }
        if let Some(path) = image_path {
            self.image_path = Some(path);
        }
        if let Some(key) = image_context_key {
            self.image_context_key = Some(key);
        }
        if let Some(flags) = matching_flags {
            self.apply_flags(flags);
        }
        assert(self@ == update_applied(old(self)@, u));
    }

    /// Merges an update, canonicalizing its image path first; the path that
    /// is stored is whatever canonicalization gives back.
    pub fn apply_update(&mut self, update: ProcessContextUpdate)
        ensures
            final(self)@.image_path is Some == (update.image_path is Some || old(self)@.image_path is Some),
            update.image_path is None ==> final(self)@ == update_applied(old(self)@, update),
            update.image_path is Some ==> final(self)@ == (ProcessContextView {
                image_path: final(self)@.image_path,
                ..update_applied(old(self)@, update)
            }),
    {
        let ProcessContextUpdate {
            pid,
            process_start_key,
            behavioural_score,
            image_path,
            image_context_key,
            matching_flags,
        } = update;
        let image_path = match image_path {
            Some(path) => Some(fsc_canonicalize_path(path.as_str())),
            None => None,
        };
        self.apply_canonical_update(
            ProcessContextUpdate {
                pid,
                process_start_key,
                behavioural_score,
                image_path,
                image_context_key,
                matching_flags,
            },
        );
    }

    /// Whether this context belongs to the protected tier.
    pub fn is_high_priority(&self) -> (r: bool)
        ensures
            r == process_is_high_priority(self@),
    {
        match self.behavioural_score {
            Some(score) => score > 0,
            None => false,
        }
    }
}

/// The context stored for a process in either tier, the protected one first.
pub open spec fn stored_process(
    high: Map<GaPid, ProcessContextView>,
    normal: Map<GaPid, ProcessContextView>,
    guid: GaPid,
) -> Option<ProcessContextView> {
    if high.contains_key(guid) {
        Some(high[guid])
    } else if normal.contains_key(guid) {
        Some(normal[guid])
    } else {
        None
    }
}

/// What merging `update` into the context of `guid` does to the tiers, and
/// the context it returns: the stored context (a fresh one when none is
/// stored) with the update applied, kept in the protected tier when it was
/// there, moved there once its behavioural score is positive, and kept in
/// the normal tier otherwise; either tier may also lose entries to eviction.
pub open spec fn process_update_effect(
    pre_high: Map<GaPid, ProcessContextView>,
    pre_normal: Map<GaPid, ProcessContextView>,
    post_high: Map<GaPid, ProcessContextView>,
    post_normal: Map<GaPid, ProcessContextView>,
    guid: GaPid,
    update: ProcessContextUpdate,
    r: Option<ProcessContext>,
) -> bool {
    let before = match stored_process(pre_high, pre_normal, guid) {
        Some(c) => c,
        None => fresh_process_context(guid),
    };
    let after = update_applied(before, update);
    let was_high = pre_high.contains_key(guid);
    &&& r matches Some(c) && c@ == after
    &&& was_high ==> post_high.submap_of(pre_high.insert(guid, after)) && post_normal.submap_of(
        pre_normal,
    )
    &&& !was_high && process_is_high_priority(after) ==> post_high.submap_of(
        pre_high.insert(guid, after),
    ) && post_normal.submap_of(pre_normal.remove(guid))
    &&& !was_high && !process_is_high_priority(after) ==> post_high.submap_of(pre_high)
        && post_normal.submap_of(pre_normal.insert(guid, after))
}

/// The process context cache for telemetry correlation.
pub struct ProcessContextCache {
    normal_entries: Cache<GaPid, ProcessContext>,
    high_priority_entries: Cache<GaPid, ProcessContext>,
}

impl ProcessContextCache {
    /// The contexts in the normal tier.
    pub closed spec fn normal(&self) -> Map<GaPid, ProcessContextView> {
        process_tier_contents(self.normal_entries)
    }

    /// The contexts in the protected tier.
    pub closed spec fn high(&self) -> Map<GaPid, ProcessContextView> {
        process_tier_contents(self.high_priority_entries)
    }

    /// The capacity the normal tier was built with.
    pub closed spec fn normal_capacity(&self) -> Option<u64> {
        process_tier_capacity(self.normal_entries)
    }

    /// The capacity the protected tier was built with.
    pub closed spec fn high_capacity(&self) -> Option<u64> {
        process_tier_capacity(self.high_priority_entries)
    }

    /// No process is stored in both tiers.
    pub open spec fn wf(&self) -> bool {
        forall|g: GaPid| #[trigger] self.high().contains_key(g) ==> !self.normal().contains_key(g)
    }

    /// Creates a new process context cache.
    pub fn new() -> (r: ProcessContextCache)
        ensures
            r.wf(),
            r.normal() == Map::<GaPid, ProcessContextView>::empty(),
            r.high() == Map::<GaPid, ProcessContextView>::empty(),
            r.normal_capacity() == Some(NORMAL_PROCESS_CONTEXT_CACHE_CAPACITY),
            r.high_capacity() == Some(HIGH_PRIORITY_PROCESS_CONTEXT_CACHE_CAPACITY),
    {
        ProcessContextCache {
            normal_entries: process_tier_new(NORMAL_PROCESS_CONTEXT_CACHE_CAPACITY, lru_policy()),
            high_priority_entries: process_tier_new(
                HIGH_PRIORITY_PROCESS_CONTEXT_CACHE_CAPACITY,
                lru_policy(),
            ),
        }
    }

    /// Creates a cache with the given tier capacities and eviction policies.
    pub fn with_capacities(
        normal_capacity: u64,
        high_priority_capacity: u64,
        normal_policy: EvictionPolicy,
        high_priority_policy: EvictionPolicy,
    ) -> (r: ProcessContextCache)
        ensures
            r.wf(),
            r.normal() == Map::<GaPid, ProcessContextView>::empty(),
            r.high() == Map::<GaPid, ProcessContextView>::empty(),
            r.normal_capacity() == Some(normal_capacity),
            r.high_capacity() == Some(high_priority_capacity),
    {
        ProcessContextCache {
            normal_entries: process_tier_new(normal_capacity, normal_policy),
            high_priority_entries: process_tier_new(high_priority_capacity, high_priority_policy),
        }
    }

    /// Returns a copy of the context for a Galatea process identity.
    pub fn get(&mut self, guid: &GaPid) -> (r: Option<ProcessContext>)
        requires
            old(self).wf(),
        ensures
            final(self).wf(),
            match r {
                Some(c) => stored_process(old(self).high(), old(self).normal(), *guid) == Some(c@),
                None => stored_process(old(self).high(), old(self).normal(), *guid) is None,
            },
            final(self).high().submap_of(old(self).high()),
            final(self).normal().submap_of(old(self).normal()),
    {
        let r = match process_tier_get(&mut self.high_priority_entries, *guid) {
            Some(c) => Some(c),
            None => process_tier_get(&mut self.normal_entries, *guid),
        };
        proof {
            lemma_process_tiers_shrink(old(self).high(), old(self).normal(), self.high(), self.normal());
        }
        r
    }

    /// Inserts or merges partial process telemetry into a context; the image
    /// path is canonicalized first.
    pub fn write_telemetry(&mut self, guid: GaPid, update: ProcessContextUpdate) -> (r: Option<
        ProcessContext,
    >)
        requires
            old(self).wf(),
        ensures
            final(self).wf(),
            update.image_path is None ==> process_update_effect(
                old(self).high(),
                old(self).normal(),
                final(self).high(),
                final(self).normal(),
                guid,
                update,
                r,
            ),
            update.image_path is Some ==> exists|p: String|
                process_update_effect(
                    old(self).high(),
                    old(self).normal(),
                    final(self).high(),
                    final(self).normal(),
                    guid,
                    (ProcessContextUpdate { image_path: Some(p), ..update }),
                    r,
                ),
            final(self).high_capacity() == old(self).high_capacity(),
            final(self).normal_capacity() == old(self).normal_capacity(),
    {
        let ghost u0 = update;
        let ProcessContextUpdate {
            pid,
            process_start_key,
            behavioural_score,
            image_path,
            image_context_key,
            matching_flags,
        } = update;
        let image_path = match image_path {
            Some(path) => Some(fsc_canonicalize_path(path.as_str())),
            None => None,
        };
        let canonical = ProcessContextUpdate {
            pid,
            process_start_key,
            behavioural_score,
            image_path,
            image_context_key,
            matching_flags,
        };
        proof {
            if canonical.image_path is Some {
                assert(canonical == (ProcessContextUpdate {
                    image_path: Some(canonical.image_path->0),
                    ..u0
                }));
            } else {
                assert(canonical == u0);
            }
        }
        self.update_context(guid, canonical)
    }

    /// Invalidates a context entry in both tiers.
    pub fn invalidate(&mut self, guid: &GaPid)
        requires
            old(self).wf(),
        ensures
            final(self).wf(),
            !final(self).high().contains_key(*guid),
            !final(self).normal().contains_key(*guid),
            final(self).high().submap_of(old(self).high()),
            final(self).normal().submap_of(old(self).normal()),
    {
        process_tier_invalidate(&mut self.high_priority_entries, *guid);
        proof {
            lemma_submap_removed(self.high(), old(self).high(), *guid);
        }
        process_tier_invalidate(&mut self.normal_entries, *guid);
        proof {
            lemma_submap_removed(self.normal(), old(self).normal(), *guid);
            lemma_process_tiers_shrink(old(self).high(), old(self).normal(), self.high(), self.normal());
        }
    }

    /// Merges an update whose image path is already canonical into the
    /// context of `guid` (a fresh one when none is stored), and moves the
    /// context to the protected tier once its behavioural score is positive.
    pub fn update_context(&mut self, guid: GaPid, update: ProcessContextUpdate) -> (r: Option<
        ProcessContext,
    >)
        requires
            old(self).wf(),
        ensures
            final(self).wf(),
            process_update_effect(
                old(self).high(),
                old(self).normal(),
                final(self).high(),
                final(self).normal(),
                guid,
                update,
                r,
            ),
            final(self).high_capacity() == old(self).high_capacity(),
            final(self).normal_capacity() == old(self).normal_capacity(),
    {
        let ghost h0 = self.high();
        let ghost n0 = self.normal();
        let found_high: bool;
        let mut context: ProcessContext;
        let ghost n_mid: Map<GaPid, ProcessContextView>;
        match process_tier_get(&mut self.high_priority_entries, guid) {
            Some(c) => {
                found_high = true;
                context = c;
                proof {
                    n_mid = n0;
                }
            },
            None => {
                found_high = false;
                match process_tier_get(&mut self.normal_entries, guid) {
                    Some(c) => {
                        context = c;
                        proof {
                            n_mid = n0;
                            lemma_submap_trans(self.normal(), n0, n0);
                        }
                    },
                    None => {
                        let fresh = ProcessContext::fresh(guid);
                        let ghost n1 = self.normal();
                        process_tier_insert(&mut self.normal_entries, guid, fresh.duplicate());
                        proof {
                            n_mid = n0.insert(guid, fresh@);
                            lemma_submap_update(n1, n0, guid, fresh@);
                            lemma_submap_trans(self.normal(), n1.insert(guid, fresh@), n_mid);
                        }
                        context = fresh;
                    },
                }
            },
        }
        let ghost h1 = self.high();
        let ghost n1 = self.normal();
        assert(h1.submap_of(h0));
        assert(n1.submap_of(n_mid));
        assert(found_high == h0.contains_key(guid));
        let ghost before = match stored_process(h0, n0, guid) {
            Some(c) => c,
            None => fresh_process_context(guid),
        };
        assert(context@ == before);
        context.apply_canonical_update(update);
        let is_high_priority = context.is_high_priority();
        if found_high {
            process_tier_insert(&mut self.high_priority_entries, guid, context.duplicate());
            proof {
                lemma_submap_update(h1, h0, guid, context@);
                lemma_submap_trans(self.high(), h1.insert(guid, context@), h0.insert(guid, context@));
            }
        } else if is_high_priority && !process_tier_contains(&self.high_priority_entries, guid) {
            process_tier_insert(&mut self.high_priority_entries, guid, context.duplicate());
            proof {
                lemma_submap_update(h1, h0, guid, context@);
                lemma_submap_trans(self.high(), h1.insert(guid, context@), h0.insert(guid, context@));
            }
            process_tier_invalidate(&mut self.normal_entries, guid);
            proof {
                if n_mid == n0 {
                    lemma_submap_update(n1, n0, guid, context@);
                    lemma_submap_trans(self.normal(), n1.remove(guid), n0.remove(guid));
                } else {
                    lemma_submap_overwrite(n1, n0, guid, fresh_process_context(guid), context@);
                    lemma_submap_trans(self.normal(), n1.remove(guid), n0.remove(guid));
                }
            }
        } else {
            proof {
                assert(!h1.contains_key(guid));
            }
            process_tier_insert(&mut self.normal_entries, guid, context.duplicate());
            proof {
                if n_mid == n0 {
                    lemma_submap_update(n1, n0, guid, context@);
                    lemma_submap_trans(self.normal(), n1.insert(guid, context@), n0.insert(guid, context@));
                } else {
                    lemma_submap_overwrite(n1, n0, guid, fresh_process_context(guid), context@);
                    lemma_submap_trans(self.normal(), n1.insert(guid, context@), n0.insert(guid, context@));
                }
            }
        }
        proof {
            let h2 = self.high();
            let n2 = self.normal();
            assert forall|g: GaPid| #[trigger] h2.contains_key(g) implies !n2.contains_key(g) by {
                if n2.contains_key(g) {
                    if h0.contains_key(guid) {
                        lemma_submap_contains(h2, h0.insert(guid, context@), g);
                        lemma_submap_contains(n2, n0, g);
                        if g != guid {
                            assert(h0.contains_key(g));
                        }
                    } else if process_is_high_priority(context@) {
                        lemma_submap_contains(h2, h0.insert(guid, context@), g);
                        lemma_submap_contains(n2, n0.remove(guid), g);
                        assert(h0.contains_key(g));
                    } else {
                        lemma_submap_contains(h2, h0, g);
                        lemma_submap_contains(n2, n0.insert(guid, context@), g);
                        if g != guid {
                            assert(n0.contains_key(g));
                        }
                    }
                }
            }
        }
        Some(context)
    }
}

/// Tiers that only shrink stay disjoint.
proof fn lemma_process_tiers_shrink(
    h0: Map<GaPid, ProcessContextView>,
    n0: Map<GaPid, ProcessContextView>,
    h1: Map<GaPid, ProcessContextView>,
    n1: Map<GaPid, ProcessContextView>,
)
    requires
        forall|g: GaPid| #[trigger] h0.contains_key(g) ==> !n0.contains_key(g),
        h1.submap_of(h0),
        n1.submap_of(n0),
    ensures
        forall|g: GaPid| #[trigger] h1.contains_key(g) ==> !n1.contains_key(g),
{
    assert forall|g: GaPid| #[trigger] h1.contains_key(g) implies !n1.contains_key(g) by {
        lemma_submap_contains(h1, h0, g);
        if n1.contains_key(g) {
            lemma_submap_contains(n1, n0, g);
        }
    }
}

/// A process context whose behavioural score became positive is kept out of
/// the normal tier, so that churn of low-signal processes cannot evict it
/// from there; it stays in the protected tier unless that tier evicts it.
pub proof fn law_scored_process_leaves_normal_tier(
    old: ProcessContextCache,
    new: ProcessContextCache,
    guid: GaPid,
    update: ProcessContextUpdate,
    r: Option<ProcessContext>,
)
    requires
        old.wf(),
        process_update_effect(old.high(), old.normal(), new.high(), new.normal(), guid, update, r),
        r matches Some(c) && process_is_high_priority(c@),
    ensures
        !new.normal().contains_key(guid),
        new.high().contains_key(guid) ==> new.high()[guid] == r->0@,
{
    let after = r->0@;
    if old.high().contains_key(guid) {
        assert(!old.normal().contains_key(guid));
        if new.normal().contains_key(guid) {
            lemma_submap_contains(new.normal(), old.normal(), guid);
        }
        if new.high().contains_key(guid) {
            lemma_submap_contains(new.high(), old.high().insert(guid, after), guid);
        }
    } else {
        lemma_submap_removed(new.normal(), old.normal(), guid);
        if new.high().contains_key(guid) {
            lemma_submap_contains(new.high(), old.high().insert(guid, after), guid);
        }
    }
}

/// What an update wrote is what a lookup reads back: after an update, the
/// context stored for the process is the one the update returned, unless a
/// tier has evicted it since.
pub proof fn law_update_is_read_back(
    old: ProcessContextCache,
    new: ProcessContextCache,
    guid: GaPid,
    update: ProcessContextUpdate,
    r: Option<ProcessContext>,
)
    requires
        old.wf(),
        process_update_effect(old.high(), old.normal(), new.high(), new.normal(), guid, update, r),
    ensures
        stored_process(new.high(), new.normal(), guid) matches Some(c) ==> c == r->0@,
{
    let after = r->0@;
    if old.high().contains_key(guid) {
        if new.normal().contains_key(guid) {
            lemma_submap_contains(new.normal(), old.normal(), guid);
        }
        if new.high().contains_key(guid) {
            lemma_submap_contains(new.high(), old.high().insert(guid, after), guid);
        }
    } else if process_is_high_priority(after) {
        lemma_submap_removed(new.normal(), old.normal(), guid);
        if new.high().contains_key(guid) {
            lemma_submap_contains(new.high(), old.high().insert(guid, after), guid);
        }
    } else {
        if new.high().contains_key(guid) {
            lemma_submap_contains(new.high(), old.high(), guid);
        }
        if new.normal().contains_key(guid) {
            lemma_submap_contains(new.normal(), old.normal().insert(guid, after), guid);
        }
    }
}

/// An update replaces every field it carries, whatever the context held
/// before (the current behavioural score replaces an older one), keeps every
/// field it does not carry and the process identity, and appends its flags
/// after the old ones.
pub proof fn law_update_replaces_what_it_carries(c: ProcessContextView, u: ProcessContextUpdate)
    ensures
        u.behavioural_score matches Some(s) ==> update_applied(c, u).behavioural_score == Some(s),
        u.behavioural_score is None ==> update_applied(c, u).behavioural_score == c.behavioural_score,
        u.pid matches Some(p) ==> update_applied(c, u).pid == Some(p),
        u.pid is None ==> update_applied(c, u).pid == c.pid,
        u.process_start_key matches Some(k) ==> update_applied(c, u).process_start_key == Some(k),
        u.process_start_key is None ==> update_applied(c, u).process_start_key == c.process_start_key,
        u.image_path matches Some(p) ==> update_applied(c, u).image_path == Some(p@),
        u.image_path is None ==> update_applied(c, u).image_path == c.image_path,
        u.image_context_key is None ==> update_applied(c, u).image_context_key == c.image_context_key,
        u.image_context_key matches Some(k) ==> update_applied(c, u).image_context_key == Some(k@),
        update_applied(c, u).guid == c.guid,
        update_applied(c, u).matching_flags.len() >= c.matching_flags.len(),
        update_applied(c, u).matching_flags.subrange(0, c.matching_flags.len() as int)
            == c.matching_flags,
        u.matching_flags matches Some(f) ==> update_applied(c, u).matching_flags.subrange(
            c.matching_flags.len() as int,
            update_applied(c, u).matching_flags.len() as int,
        ) == f@,
        u.matching_flags is None ==> update_applied(c, u).matching_flags == c.matching_flags,
{
    let f = update_applied(c, u).matching_flags;
    assert(f.subrange(0, c.matching_flags.len() as int) =~= c.matching_flags);
    if let Some(g) = u.matching_flags {
        assert(f.subrange(c.matching_flags.len() as int, f.len() as int) =~= g@);
    }
}

/// The current behavioural score is what a write returns and a read gives
/// back: after an update that carries a score, the returned context has that
/// score whatever score was stored before, and so has the stored context
/// unless a tier has evicted it; a process whose new score is positive is
/// out of the normal tier.
pub proof fn law_latest_score_is_read_back(
    old: ProcessContextCache,
    new: ProcessContextCache,
    guid: GaPid,
    update: ProcessContextUpdate,
    r: Option<ProcessContext>,
)
    requires
        old.wf(),
        process_update_effect(old.high(), old.normal(), new.high(), new.normal(), guid, update, r),
    ensures
        update.behavioural_score matches Some(s) ==> r matches Some(c) && c@.behavioural_score == Some(
            s,
        ),
        update.behavioural_score matches Some(s) ==> (stored_process(new.high(), new.normal(), guid) is None
            || (stored_process(new.high(), new.normal(), guid) matches Some(c) && c.behavioural_score
            == Some(s))),
        update.behavioural_score matches Some(s) && s > 0 ==> !new.normal().contains_key(guid),
{
    law_update_is_read_back(old, new, guid, update, r);
    if let Some(s) = update.behavioural_score {
        if s > 0 {
            law_scored_process_leaves_normal_tier(old, new, guid, update, r);
        }
    }
}

} // verus!
