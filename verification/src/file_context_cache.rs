//! The file context cache: each logical file context is stored once, in one
//! of two bounded tiers, and every path or file-index key that names the file
//! is an alias resolving to the same internal context ID.
//!
//! High-signal contexts live in a protected tier so that low-signal file churn
//! cannot push them out. Aliases of contexts that a tier has evicted are
//! removed before any lookup.

use vstd::prelude::*;

use moka::policy::EvictionPolicy;

use crate::alias_index::{alias_list_of, without_context, AliasIndexes};
use crate::canonical::fsc_canonicalize_path;
use crate::file_context::{
    empty_context, flags_applied, scan_summary_applied, telemetry_applied, FileContext,
    FileContextKey, FileContextView, FileTelemetryUpdate, KeyView, ScanSummary,
    context_is_high_priority,
};
use crate::maps::{
    lemma_prefix_contains, lemma_submap_contains, lemma_submap_overwrite, lemma_submap_removed, lemma_submap_trans, lemma_submap_update,
};
use crate::signatures::FileFlags;
use crate::snapshot::{
    file_context_snapshot, key_snapshot_view, lemma_first_index_alias, listed_key, first_index_alias, shows,
    snapshot_key, FileContextSnapshot,
};
use crate::tiers::{
    file_tier_capacity, file_tier_contains, file_tier_contents, file_tier_get, file_tier_insert, file_tier_invalidate,
    file_tier_new, file_tier_run_pending_tasks, lru_policy, tiny_lfu_policy, FileTier,
};

verus! {

/// Capacity of both file context tiers together.
pub const FILE_CONTEXT_CACHE_CAPACITY: u64 = 10000;

/// Capacity of the protected file context tier.
pub const HIGH_PRIORITY_FILE_CONTEXT_CACHE_CAPACITY: u64 = 2000;

/// Capacity of the normal file context tier.
pub const NORMAL_FILE_CONTEXT_CACHE_CAPACITY: u64 = 8000;

/// A change to apply to one file context.
pub enum ContextChange {
    /// Merge partial telemetry (with a canonical path).
    Telemetry(FileTelemetryUpdate),
    /// Record the latest scan summary.
    ScanSummary(ScanSummary),
    /// Append flags.
    Flags(Vec<FileFlags>),
}

/// A change applied to a context.
pub open spec fn change_applied(c: FileContextView, ch: ContextChange) -> FileContextView {
    match ch {
        ContextChange::Telemetry(u) => telemetry_applied(c, u),
        ContextChange::ScanSummary(s) => scan_summary_applied(c, s),
        ContextChange::Flags(f) => flags_applied(c, f@),
    }
}

/// Whether a context is stored in either tier.
pub open spec fn is_live(
    high: Map<u64, FileContextView>,
    normal: Map<u64, FileContextView>,
    id: u64,
) -> bool {
    high.contains_key(id) || normal.contains_key(id)
}

/// The context stored under `id`, the protected tier first.
/// Whether `k` may be the canonical form of `key`: a file-index key is its
/// own canonical form; a path key canonicalizes to some path key.
pub open spec fn canonical_form_of(key: KeyView, k: KeyView) -> bool {
    &&& key is FileIndex ==> k == key
    &&& key is Path ==> k is Path
}

/// Whether `u` is `update` with its path, when it has one, canonicalized.
pub open spec fn canonical_update_of(update: FileTelemetryUpdate, u: FileTelemetryUpdate) -> bool {
    &&& u == (FileTelemetryUpdate { normalized_file_path: u.normalized_file_path, ..update })
    &&& (u.normalized_file_path is Some <==> update.normalized_file_path is Some)
}

/// Whether `retired` is the canonical path key of a rename's original name,
/// present exactly when the name is.
pub open spec fn canonical_retired(original_name: Option<String>, retired: Option<KeyView>) -> bool {
    match original_name {
        Some(_) => retired matches Some(k) && k is Path,
        None => retired is None,
    }
}

/// What a lookup does: only aliases of stored contexts remain, the tiers may
/// only lose entries, and the answer is the context `k` resolved to.
pub open spec fn lookup_effect(
    old: FileContextCache,
    new: FileContextCache,
    k: KeyView,
    r: Option<FileContext>,
) -> bool {
    &&& new.wf()
    &&& new.alias_map() == live_aliases(old.alias_map(), old.high(), old.normal())
    &&& new.high().submap_of(old.high())
    &&& new.normal().submap_of(old.normal())
    &&& new.next_id() == old.next_id()
    &&& FileContextCache::same_capacities(old, new)
    &&& old.ids_fresh() ==> new.ids_fresh()
    &&& opt_ctx_view(r) == old.resolved(k)
}

/// Whether `snap` shows, under its key, the context stored under `id` in one
/// of the tiers.
pub open spec fn shows_context(
    high: Map<u64, FileContextView>,
    normal: Map<u64, FileContextView>,
    snap: FileContextSnapshot,
    id: u64,
) -> bool {
    ||| high.contains_key(id) && shows(snap, key_snapshot_view(snap.key), high[id])
    ||| normal.contains_key(id) && shows(snap, key_snapshot_view(snap.key), normal[id])
}

/// Whether entry `j` of a listing shows the stored context `listed[j]`, each
/// context known to the alias index at most once.
pub open spec fn lists_contexts(
    snaps: Seq<FileContextSnapshot>,
    listed: Seq<u64>,
    ids: Seq<u64>,
    high: Map<u64, FileContextView>,
    normal: Map<u64, FileContextView>,
) -> bool {
    &&& listed.len() == snaps.len()
    &&& forall|a: int, b: int| 0 <= a < b < listed.len() ==> listed[a] != listed[b]
    &&& forall|j: int|
        0 <= j < listed.len() ==> ids.contains(#[trigger] listed[j]) && shows_context(
            high,
            normal,
            snaps[j],
            listed[j],
        )
}

/// Whether alias `a` resolves to context `id`.
pub open spec fn resolves_to(m: Map<KeyView, u64>, a: KeyView, id: u64) -> bool {
    m.contains_key(a) && m[a] == id
}

/// Whether `k` is a key a context may be listed under: one of its file-index
/// aliases when it has any, else one of its aliases, else an empty path.
pub open spec fn listed_under(m: Map<KeyView, u64>, id: u64, k: KeyView) -> bool {
    if exists|a: KeyView| a is FileIndex && #[trigger] resolves_to(m, a, id) {
        k is FileIndex && resolves_to(m, k, id)
    } else if exists|a: KeyView| #[trigger] resolves_to(m, a, id) {
        resolves_to(m, k, id)
    } else {
        k == KeyView::Path(Seq::empty())
    }
}

/// Whether every entry of a listing is shown under a key its context may be
/// listed under.
pub open spec fn listed_under_keys(
    snaps: Seq<FileContextSnapshot>,
    listed: Seq<u64>,
    m: Map<KeyView, u64>,
) -> bool {
    forall|j: int|
        0 <= j < listed.len() && j < snaps.len() ==> listed_under(
            m,
            #[trigger] listed[j],
            key_snapshot_view(snaps[j].key),
        )
}

/// Whether a listing includes every context of the alias index that is
/// still stored.
pub open spec fn lists_every_stored(
    listed: Seq<u64>,
    ids: Seq<u64>,
    high: Map<u64, FileContextView>,
    normal: Map<u64, FileContextView>,
) -> bool {
    forall|id: u64| ids.contains(id) && is_live(high, normal, id) ==> #[trigger] listed.contains(id)
}

pub open spec fn stored_file(
    high: Map<u64, FileContextView>,
    normal: Map<u64, FileContextView>,
    id: u64,
) -> Option<FileContextView> {
    if high.contains_key(id) {
        Some(high[id])
    } else if normal.contains_key(id) {
        Some(normal[id])
    } else {
        None
    }
}

/// The aliases whose context is still stored in a tier.
pub open spec fn live_aliases(
    m: Map<KeyView, u64>,
    high: Map<u64, FileContextView>,
    normal: Map<u64, FileContextView>,
) -> Map<KeyView, u64> {
    Map::new(|k: KeyView| m.contains_key(k) && is_live(high, normal, m[k]), |k: KeyView| m[k])
}

/// The context ID of the first alias in `aliases` that is bound; with
/// `index_only`, of the first bound file-index alias.
pub open spec fn first_bound(aliases: Seq<KeyView>, m: Map<KeyView, u64>, index_only: bool) -> Option<
    u64,
>
    decreases aliases.len(),
{
    if aliases.len() == 0 {
        None
    } else if m.contains_key(aliases[0]) && (!index_only || aliases[0] is FileIndex) {
        Some(m[aliases[0]])
    } else {
        first_bound(aliases.drop_first(), m, index_only)
    }
}

/// The existing context a set of aliases resolves to: a file-index alias
/// wins over a path alias.
pub open spec fn preferred_context(aliases: Seq<KeyView>, m: Map<KeyView, u64>) -> Option<u64> {
    match first_bound(aliases, m, true) {
        Some(id) => Some(id),
        None => first_bound(aliases, m, false),
    }
}

/// `m` with every alias in `aliases` bound to `id`.
pub open spec fn bound_to(m: Map<KeyView, u64>, aliases: Seq<KeyView>, id: u64) -> Map<KeyView, u64> {
    Map::new(
        |k: KeyView| m.contains_key(k) || aliases.contains(k),
        |k: KeyView|
            if aliases.contains(k) {
                id
            } else {
                m[k]
            },
    )
}

/// `m` without the alias `r` when that alias resolves to `id`.
pub open spec fn retired_from(m: Map<KeyView, u64>, r: Option<KeyView>, id: u64) -> Map<KeyView, u64> {
    match r {
        Some(k) => if m.get(k) == Some(id) {
            m.remove(k)
        } else {
            m
        },
        None => m,
    }
}

/// The views of a list of keys.
pub open spec fn key_views(v: Seq<FileContextKey>) -> Seq<KeyView> {
    v.map_values(|k: FileContextKey| k@)
}

/// The view of an optional key.
pub open spec fn opt_key_view(k: Option<FileContextKey>) -> Option<KeyView> {
    match k {
        Some(k) => Some(k@),
        None => None,
    }
}

/// The ID after `n`, wrapping around at the end of the range.
pub open spec fn next_after(n: u64) -> u64 {
    if n == u64::MAX {
        0
    } else {
        (n + 1) as u64
    }
}

/// The aliases of a telemetry update: its key, then its path and its file
/// index when present.
pub open spec fn telemetry_alias_views(key: KeyView, path: Option<Seq<char>>, file_index: Option<u64>) -> Seq<KeyView> {
    let with_path = match path {
        Some(p) => seq![key, KeyView::Path(p)],
        None => seq![key],
    };
    match file_index {
        Some(i) => with_path.push(KeyView::FileIndex(i)),
        None => with_path,
    }
}

/// The aliases of a scan summary write: its key, then the scanned file index
/// when known.
pub open spec fn scan_alias_views(key: KeyView, file_index: Option<u64>) -> Seq<KeyView> {
    match file_index {
        Some(i) => seq![key, KeyView::FileIndex(i)],
        None => seq![key],
    }
}

/// The view of an optional context.
pub open spec fn opt_ctx_view(r: Option<FileContext>) -> Option<FileContextView> {
    match r {
        Some(c) => Some(c@),
        None => None,
    }
}

/// The file context cache for telemetry and scan correlation.
pub struct FileContextCache {
    normal_entries: FileTier,
    high_priority_entries: FileTier,
    aliases: AliasIndexes,
    next_context_id: u64,
}

impl FileContextCache {
    /// The contexts in the normal tier.
    pub closed spec fn normal(&self) -> Map<u64, FileContextView> {
        file_tier_contents(self.normal_entries)
    }

    /// The contexts in the protected tier.
    pub closed spec fn high(&self) -> Map<u64, FileContextView> {
        file_tier_contents(self.high_priority_entries)
    }

    /// The alias index as a map from alias to context ID.
    pub closed spec fn alias_map(&self) -> Map<KeyView, u64> {
        self.aliases.alias_map()
    }

    /// The context IDs the alias index knows.
    pub closed spec fn context_ids(&self) -> Seq<u64> {
        self.aliases.context_ids()
    }

    /// The capacity the normal tier was built with.
    pub closed spec fn normal_capacity(&self) -> Option<u64> {
        file_tier_capacity(self.normal_entries)
    }

    /// The capacity the protected tier was built with.
    pub closed spec fn high_capacity(&self) -> Option<u64> {
        file_tier_capacity(self.high_priority_entries)
    }

    /// The ID the next new context receives.
    pub closed spec fn next_id(&self) -> u64 {
        self.next_context_id
    }

    /// Well-formedness of the alias index.
    pub closed spec fn wf(&self) -> bool {
        self.aliases.wf()
    }

    /// What a lookup of `key` answers: the stored context its live alias
    /// resolves to, if any.
    pub open spec fn resolved(self, key: KeyView) -> Option<FileContextView> {
        match live_aliases(self.alias_map(), self.high(), self.normal()).get(key) {
            Some(id) => stored_file(self.high(), self.normal(), id),
            None => None,
        }
    }

    /// Whether the tiers share no context and no stored context has an ID at
    /// or above the next ID to be handed out.
    pub open spec fn ids_fresh(self) -> bool {
        &&& forall|id: u64| #[trigger] self.high().contains_key(id) ==> !self.normal().contains_key(id)
        &&& forall|id: u64| #[trigger] self.high().contains_key(id) ==> id < self.next_id()
        &&& forall|id: u64| #[trigger] self.normal().contains_key(id) ==> id < self.next_id()
    }

    /// Whether both tiers keep the capacities they were built with.
    pub open spec fn same_capacities(old: FileContextCache, new: FileContextCache) -> bool {
        &&& new.high_capacity() == old.high_capacity()
        &&& new.normal_capacity() == old.normal_capacity()
    }

    /// What `drain_evicted_contexts` does: only aliases of stored contexts
    /// remain, the tiers are untouched.
    pub open spec fn drain_effect(old: FileContextCache, new: FileContextCache) -> bool {
        &&& new.wf()
        &&& Self::same_capacities(old, new)
        &&& old.ids_fresh() ==> new.ids_fresh()
        &&& new.high() == old.high()
        &&& new.normal() == old.normal()
        &&& new.next_id() == old.next_id()
        &&& new.alias_map() == live_aliases(old.alias_map(), old.high(), old.normal())
        &&& forall|c: u64|
            #![trigger new.context_ids().contains(c)]
            new.context_ids().contains(c) <==> old.context_ids().contains(c) && is_live(
                old.high(),
                old.normal(),
                c,
            )
    }

    /// What `invalidate_canonical` does: the context that `key` resolves to
    /// leaves both tiers together with every alias that resolves to it; other
    /// entries may leave only through eviction.
    pub open spec fn invalidate_effect(old: FileContextCache, new: FileContextCache, key: KeyView) -> bool {
        let m = live_aliases(old.alias_map(), old.high(), old.normal());
        &&& new.wf()
        &&& new.next_id() == old.next_id()
        &&& Self::same_capacities(old, new)
        &&& old.ids_fresh() ==> new.ids_fresh()
        &&& match m.get(key) {
            Some(id) => {
                &&& new.alias_map() == without_context(m, id)
                &&& new.high().submap_of(old.high().remove(id))
                &&& new.normal().submap_of(old.normal().remove(id))
            },
            None => {
                &&& new.alias_map() == m
                &&& new.high() == old.high()
                &&& new.normal() == old.normal()
            },
        }
    }

    /// What `update_context` does: the aliases resolve to the preferred live
    /// context (or a new one), all of them are bound to it, `retired` is
    /// dropped when it pointed there, the change is applied to the context,
    /// and the context is written back to its tier or promoted when it has
    /// become high-priority. Either tier may lose entries to eviction at any
    /// time, the written context among them.
    pub open spec fn update_core(
        old: FileContextCache,
        new: FileContextCache,
        aliases: Seq<KeyView>,
        retired: Option<KeyView>,
        change: ContextChange,
        r: Option<FileContext>,
    ) -> bool {
        let m = live_aliases(old.alias_map(), old.high(), old.normal());
        let chosen = preferred_context(aliases, m);
        let id = match chosen {
            Some(i) => i,
            None => old.next_id(),
        };
        let before = match chosen {
            Some(i) => match stored_file(old.high(), old.normal(), i) {
                Some(c) => c,
                None => empty_context(),
            },
            None => empty_context(),
        };
        let after = change_applied(before, change);
        let was_high = chosen is Some && old.high().contains_key(id);
        &&& new.wf()
        &&& Self::same_capacities(old, new)
        &&& r matches Some(c) && c@ == after
        &&& new.alias_map() == retired_from(bound_to(m, aliases, id), retired, id)
        &&& new.next_id() == if chosen is Some {
            old.next_id()
        } else {
            next_after(old.next_id())
        }
        &&& was_high ==> new.high().submap_of(old.high().insert(id, after)) && new.normal().submap_of(
            old.normal(),
        )
        &&& !was_high && context_is_high_priority(after) ==> new.high().submap_of(
            old.high().insert(id, after),
        ) && new.normal().submap_of(old.normal().remove(id))
        &&& !was_high && !context_is_high_priority(after) ==> new.high().submap_of(old.high())
            && new.normal().submap_of(old.normal().insert(id, after))
    }

    /// What `update_context` does (`update_core`), and that it keeps the
    /// tiers disjoint and every stored ID below the next ID, as long as the
    /// ID counter does not wrap around.
    pub open spec fn update_effect(
        old: FileContextCache,
        new: FileContextCache,
        aliases: Seq<KeyView>,
        retired: Option<KeyView>,
        change: ContextChange,
        r: Option<FileContext>,
    ) -> bool {
        &&& Self::update_core(old, new, aliases, retired, change, r)
        &&& old.ids_fresh() && old.next_id() < u64::MAX ==> new.ids_fresh()
    }

    /// What a listing of up to `limit` contexts does: each entry shows,
    /// under a key its context may be listed under, a distinct context that
    /// the alias index knew and a tier held; short of the limit, every
    /// context still stored is listed; the tiers only lose entries.
    pub open spec fn snapshot_effect(
        old: FileContextCache,
        new: FileContextCache,
        limit: usize,
        r: Seq<FileContextSnapshot>,
    ) -> bool {
        &&& new.wf()
        &&& old.ids_fresh() ==> new.ids_fresh()
        &&& r.len() <= limit
        &&& new.high().submap_of(old.high())
        &&& new.normal().submap_of(old.normal())
        &&& exists|listed: Seq<u64>|
            {
                &&& #[trigger] lists_contexts(r, listed, old.context_ids(), old.high(), old.normal())
                &&& r.len() < limit ==> lists_every_stored(
                    listed,
                    old.context_ids(),
                    new.high(),
                    new.normal(),
                )
                &&& listed_under_keys(r, listed, new.alias_map())
            }
    }

    /// Creates a new cache with a protected tier for high-signal file contexts.
    pub fn new() -> (r: FileContextCache)
        ensures
            r.wf(),
            r.alias_map() == Map::<KeyView, u64>::empty(),
            r.high().dom() == Set::<u64>::empty(),
            r.normal().dom() == Set::<u64>::empty(),
            r.next_id() == 1,
            r.ids_fresh(),
            r.normal_capacity() == Some(NORMAL_FILE_CONTEXT_CACHE_CAPACITY),
            r.high_capacity() == Some(HIGH_PRIORITY_FILE_CONTEXT_CACHE_CAPACITY),
    {
        Self::with_capacities(
            NORMAL_FILE_CONTEXT_CACHE_CAPACITY,
            HIGH_PRIORITY_FILE_CONTEXT_CACHE_CAPACITY,
            tiny_lfu_policy(),
        )
    }

    /// Creates a cache with the given tier capacities; the normal tier uses
    /// `normal_policy`, the protected tier evicts the least recently used.
    pub fn with_capacities(
        normal_capacity: u64,
        high_priority_capacity: u64,
        normal_policy: EvictionPolicy,
    ) -> (r: FileContextCache)
        ensures
            r.wf(),
            r.alias_map() == Map::<KeyView, u64>::empty(),
            r.high().dom() == Set::<u64>::empty(),
            r.normal().dom() == Set::<u64>::empty(),
            r.next_id() == 1,
            r.ids_fresh(),
            r.normal_capacity() == Some(normal_capacity),
            r.high_capacity() == Some(high_priority_capacity),
    {
        FileContextCache {
            normal_entries: file_tier_new(normal_capacity, normal_policy),
            high_priority_entries: file_tier_new(high_priority_capacity, lru_policy()),
            aliases: AliasIndexes::new(),
            next_context_id: 1,
        }
    }

    /// Whether a context with this ID is stored in the protected tier.
    pub fn is_in_high_priority_tier(&self, id: u64) -> (r: bool)
        ensures
            r == self.high().contains_key(id),
    {
        file_tier_contains(&self.high_priority_entries, id)
    }

    /// Whether a context with this ID is stored in the normal tier.
    pub fn is_in_normal_tier(&self, id: u64) -> (r: bool)
        ensures
            r == self.normal().contains_key(id),
    {
        file_tier_contains(&self.normal_entries, id)
    }

    /// Runs pending housekeeping of both tiers, which may evict contexts.
    pub fn run_pending_tasks(&mut self)
        requires
            old(self).wf(),
        ensures
            final(self).wf(),
            final(self).alias_map() == old(self).alias_map(),
            final(self).high().submap_of(old(self).high()),
            final(self).normal().submap_of(old(self).normal()),
            final(self).next_id() == old(self).next_id(),
            Self::same_capacities(*old(self), *final(self)),
            old(self).ids_fresh() ==> final(self).ids_fresh(),
    {
        file_tier_run_pending_tasks(&mut self.normal_entries);
        file_tier_run_pending_tasks(&mut self.high_priority_entries);
        proof {
            if old(self).ids_fresh() {
                lemma_submap_trans(self.normal(), self.normal(), old(self).normal());
                law_shrinking_keeps_ids_fresh(*old(self), *self);
            }
        }
    }

    fn is_stored(&self, id: u64) -> (r: bool)
        ensures
            r == is_live(self.high(), self.normal(), id),
    {
        file_tier_contains(&self.high_priority_entries, id) || file_tier_contains(
            &self.normal_entries,
            id,
        )
    }

    /// Removes the aliases of every context that neither tier holds any more.
    pub fn drain_evicted_contexts(&mut self)
        requires
            old(self).wf(),
        ensures
            Self::drain_effect(*old(self), *final(self)),
    {
        proof {
            self.aliases.lemma_entries();
        }
        let ghost m0 = self.alias_map();
        let ghost c0 = self.context_ids();
        let ghost h = self.high();
        let ghost n = self.normal();
        let ids = self.aliases.context_list();
        let mut i: usize = 0;
        while i < ids.len()
            invariant
                self.wf(),
                ids@ == c0,
                0 <= i <= ids@.len(),
                self.high() == h,
                self.normal() == n,
                self.next_id() == old(self).next_id(),
                Self::same_capacities(*old(self), *self),
                self.alias_map() == Map::new(
                    |k: KeyView|
                        m0.contains_key(k) && (is_live(h, n, m0[k]) || !ids@.subrange(
                            0,
                            i as int,
                        ).contains(m0[k])),
                    |k: KeyView| m0[k],
                ),
                forall|c: u64|
                    #![trigger self.context_ids().contains(c)]
                    self.context_ids().contains(c) <==> c0.contains(c) && (is_live(h, n, c)
                        || !ids@.subrange(0, i as int).contains(c)),
            decreases ids@.len() - i,
        {
            let id = ids[i];
            let ghost before_map = self.alias_map();
            let ghost before_ctx = self.context_ids();
            proof {
                lemma_prefix_contains(ids@, i as int);
            }
            if !self.is_stored(id) {
                self.aliases.remove_context_aliases(id);
                proof {
                    broadcast use vstd::seq_lib::group_filter_ensures;
                    assert(self.alias_map() =~= without_context(before_map, id));
                    assert forall|c: u64|
                        #![trigger self.context_ids().contains(c)]
                        self.context_ids().contains(c) <==> before_ctx.contains(c) && c != id by {
                        let p = crate::alias_index::other_than(id);
                        if self.context_ids().contains(c) {
                            before_ctx.lemma_filter_contains_rev(p, c);
                            let j = choose|j: int|
                                0 <= j < self.context_ids().len() && self.context_ids()[j] == c;
                            before_ctx.lemma_filter_pred(p, j);
                        }
                        if before_ctx.contains(c) && c != id {
                            let j = choose|j: int| 0 <= j < before_ctx.len() && before_ctx[j] == c;
                            before_ctx.lemma_filter_contains(p, j);
                        }
                    }
                }
            }
            proof {
                assert(self.alias_map() =~= Map::new(
                    |k: KeyView|
                        m0.contains_key(k) && (is_live(h, n, m0[k]) || !ids@.subrange(
                            0,
                            i + 1,
                        ).contains(m0[k])),
                    |k: KeyView| m0[k],
                ));
            }
            i = i + 1;
        }
        proof {
            assert(ids@.subrange(0, ids@.len() as int) =~= ids@);
            assert(self.alias_map() =~= live_aliases(m0, h, n));
        }
    }

    /// The context ID that `alias` resolves to while that context is still
    /// stored; the aliases of a context that is gone are removed.
    pub fn context_id_for_alias(&mut self, alias: &FileContextKey) -> (r: Option<u64>)
        requires
            old(self).wf(),
        ensures
            final(self).wf(),
            final(self).high().submap_of(old(self).high()),
            final(self).normal().submap_of(old(self).normal()),
            final(self).next_id() == old(self).next_id(),
            old(self).ids_fresh() ==> final(self).ids_fresh(),
            r == match old(self).alias_map().get(alias@) {
                Some(id) => if is_live(old(self).high(), old(self).normal(), id) {
                    Some(id)
                } else {
                    None
                },
                None => None,
            },
            final(self).alias_map() == match old(self).alias_map().get(alias@) {
                Some(id) => if is_live(old(self).high(), old(self).normal(), id) {
                    old(self).alias_map()
                } else {
                    without_context(old(self).alias_map(), id)
                },
                None => old(self).alias_map(),
            },
    {
        proof {
            if old(self).ids_fresh() {
                law_shrinking_keeps_ids_fresh(*old(self), *old(self));
            }
        }
        match self.aliases.lookup(alias) {
            None => None,
            Some(id) => {
                let (entry, _) = self.context_entry(id);
                proof {
                    if old(self).ids_fresh() {
                        law_shrinking_keeps_ids_fresh(*old(self), *self);
                    }
                }
                match entry {
                    Some(_) => Some(id),
                    None => {
                        self.aliases.remove_context_aliases(id);
                        None
                    },
                }
            },
        }
    }

    /// The context stored under `id`, and whether it came from the protected
    /// tier; a read of the tiers.
    fn context_entry(&mut self, id: u64) -> (r: (Option<FileContext>, bool))
        ensures
            match r.0 {
                Some(c) => stored_file(old(self).high(), old(self).normal(), id) == Some(c@),
                None => stored_file(old(self).high(), old(self).normal(), id) is None,
            },
            r.1 == old(self).high().contains_key(id),
            final(self).high().submap_of(old(self).high()),
            final(self).normal().submap_of(old(self).normal()),
            final(self).aliases == old(self).aliases,
            final(self).next_context_id == old(self).next_context_id,
            Self::same_capacities(*old(self), *final(self)),
    {
        match file_tier_get(&mut self.high_priority_entries, id) {
            Some(c) => (Some(c), true),
            None => (file_tier_get(&mut self.normal_entries, id), false),
        }
    }

    /// Returns a copy of the context that an already canonical key resolves to.
    pub fn get_canonical(&mut self, key: &FileContextKey) -> (r: Option<FileContext>)
        requires
            old(self).wf(),
        ensures
            final(self).wf(),
            final(self).alias_map() == live_aliases(
                old(self).alias_map(),
                old(self).high(),
                old(self).normal(),
            ),
            final(self).high().submap_of(old(self).high()),
            final(self).normal().submap_of(old(self).normal()),
            final(self).next_id() == old(self).next_id(),
            Self::same_capacities(*old(self), *final(self)),
            old(self).ids_fresh() ==> final(self).ids_fresh(),
            opt_ctx_view(r) == old(self).resolved(key@),
    {
        self.drain_evicted_contexts();
        let id = match self.aliases.lookup(key) {
            Some(id) => id,
            None => {
                return None;
            },
        };
        let ghost before = *self;
        let (entry, _) = self.context_entry(id);
        proof {
            if before.ids_fresh() {
                law_shrinking_keeps_ids_fresh(before, *self);
            }
        }
        entry
    }

    /// Returns a copy of the context for either alias key; a path key is
    /// canonicalized first.
    pub fn get(&mut self, key: &FileContextKey) -> (r: Option<FileContext>)
        requires
            old(self).wf(),
        ensures
            final(self).wf(),
            exists|k: KeyView|
                canonical_form_of(key@, k) && lookup_effect(*old(self), *final(self), k, r),
    {
        let canonical = FileContextKey::canonicalized(key);
        let r = self.get_canonical(&canonical);
        assert(canonical_form_of(key@, canonical@) && lookup_effect(*old(self), *self, canonical@, r));
        r
    }

    /// Returns a copy of the context for a path alias.
    pub fn get_by_path(&mut self, path: &str) -> (r: Option<FileContext>)
        requires
            old(self).wf(),
        ensures
            final(self).wf(),
            exists|p: Seq<char>| lookup_effect(*old(self), *final(self), KeyView::Path(p), r),
    {
        let key = FileContextKey::Path(fsc_canonicalize_path(path));
        let r = self.get(&key);
        proof {
            let k = choose|k: KeyView| canonical_form_of(key@, k) && lookup_effect(*old(self), *self, k, r);
            assert(lookup_effect(*old(self), *self, KeyView::Path(k->Path_0), r));
        }
        r
    }

    /// Returns a copy of the context for a file-index alias.
    pub fn get_by_file_index(&mut self, file_index: u64) -> (r: Option<FileContext>)
        requires
            old(self).wf(),
        ensures
            final(self).wf(),
            lookup_effect(*old(self), *final(self), KeyView::FileIndex(file_index), r),
    {
        self.get(&FileContextKey::FileIndex(file_index))
    }

    fn preferred_bound(&self, aliases: &Vec<FileContextKey>) -> (r: Option<u64>)
        requires
            self.wf(),
        ensures
            r == preferred_context(key_views(aliases@), self.alias_map()),
    {
        let ghost vs = key_views(aliases@);
        let n = aliases.len();
        assert(vs.subrange(0, n as int) =~= vs);
        let mut pass: usize = 0;
        while pass < 2
            invariant
                self.wf(),
                0 <= pass <= 2,
                n == aliases@.len(),
                vs == key_views(aliases@),
                vs.subrange(0, n as int) == vs,
                pass >= 1 ==> first_bound(vs, self.alias_map(), true) is None,
                pass >= 2 ==> first_bound(vs, self.alias_map(), false) is None,
            decreases 2 - pass,
        {
            let index_only = pass == 0;
            let mut i: usize = 0;
            while i < n
                invariant
                    self.wf(),
                    0 <= i <= n,
                    0 <= pass < 2,
                    index_only == (pass == 0),
                    pass >= 1 ==> first_bound(vs, self.alias_map(), true) is None,
                    n == aliases@.len(),
                    vs == key_views(aliases@),
                    first_bound(vs, self.alias_map(), index_only) == first_bound(
                        vs.subrange(i as int, n as int),
                        self.alias_map(),
                        index_only,
                    ),
                decreases n - i,
            {
                let ghost rest = vs.subrange(i as int, n as int);
                assert(rest[0] == aliases@[i as int]@);
                if !index_only || aliases[i].is_file_index() {
                    match self.aliases.lookup(&aliases[i]) {
                        Some(id) => {
                            assert(self.alias_map().contains_key(rest[0]));
                            assert(first_bound(rest, self.alias_map(), index_only) == Some(id));
                            return Some(id);
                        },
                        None => {},
                    }
                }
                assert(rest.drop_first() =~= vs.subrange(i + 1, n as int));
                i = i + 1;
            }
            assert(vs.subrange(n as int, n as int).len() == 0);
            pass = pass + 1;
        }
        None
    }

    /// Merges `change` into the context that `aliases` resolve to (a new
    /// context when none is stored), binds every alias to it, drops
    /// `retired` when it pointed there, and keeps the context in the
    /// protected tier once it is high-priority.
    pub fn update_context(
        &mut self,
        aliases: Vec<FileContextKey>,
        retired: Option<FileContextKey>,
        change: ContextChange,
    ) -> (r: Option<FileContext>)
        requires
            old(self).wf(),
        ensures
            Self::update_effect(
                *old(self),
                *final(self),
                key_views(aliases@),
                opt_key_view(retired),
                change,
                r,
            ),
    {
        let ghost alias_views = key_views(aliases@);
        let ghost retired_view = opt_key_view(retired);
        let ghost change_spec = change;
        self.drain_evicted_contexts();
        let ghost m = self.alias_map();
        let ghost h0 = self.high();
        let ghost n0 = self.normal();
        let ghost vs = key_views(aliases@);
        let chosen = self.preferred_bound(&aliases);
        let ghost id_spec = match chosen {
            Some(i) => i,
            None => self.next_context_id,
        };
        let id: u64;
        let mut context: FileContext;
        let in_high: bool;
        match chosen {
            Some(existing) => {
                proof {
                    lemma_preferred_is_bound(vs, m);
                }
                let (entry, from_high) = self.context_entry(existing);
                match entry {
                    Some(c) => {
                        id = existing;
                        context = c;
                        in_high = from_high;
                    },
                    None => {
                        // Unreachable: the preferred context is live.
                        id = existing;
                        context = FileContext::empty();
                        in_high = false;
                    },
                }
            },
            None => {
                id = self.next_context_id;
                self.next_context_id = self.next_context_id.wrapping_add(1);
                context = FileContext::empty();
                in_high = false;
            },
        }
        let ghost h1 = self.high();
        let ghost n1 = self.normal();
        assert(id == id_spec);
        assert(Self::same_capacities(*old(self), *self));
        let mut i: usize = 0;
        while i < aliases.len()
            invariant
                self.wf(),
                0 <= i <= aliases@.len(),
                vs == key_views(aliases@),
                self.high() == h1,
                self.normal() == n1,
                Self::same_capacities(*old(self), *self),
                self.next_id() == if chosen is Some {
                    old(self).next_id()
                } else {
                    next_after(old(self).next_id())
                },
                self.alias_map() == bound_to(m, vs.subrange(0, i as int), id),
            decreases aliases@.len() - i,
        {
            let ghost before = self.alias_map();
            self.aliases.bind_alias(aliases[i].copy_key(), id);
            proof {
                lemma_prefix_contains(vs, i as int);
                assert(self.alias_map() =~= bound_to(m, vs.subrange(0, i + 1), id));
            }
            i = i + 1;
        }
        assert(vs.subrange(0, aliases@.len() as int) =~= vs);
        let ghost before_ctx = context@;
        match change {
            ContextChange::Telemetry(u) => context.apply_canonical_telemetry(u),
            ContextChange::ScanSummary(s) => context.apply_scan_summary(s),
            ContextChange::Flags(f) => context.apply_flags(f),
        }
        let is_high_priority = context.is_high_priority();
        if in_high {
            file_tier_insert(&mut self.high_priority_entries, id, context.duplicate());
            proof {
                lemma_submap_update(h1, h0, id, context@);
                lemma_submap_trans(self.high(), h1.insert(id, context@), h0.insert(id, context@));
            }
        } else if is_high_priority {
            file_tier_insert(&mut self.high_priority_entries, id, context.duplicate());
            proof {
                lemma_submap_update(h1, h0, id, context@);
                lemma_submap_trans(self.high(), h1.insert(id, context@), h0.insert(id, context@));
            }
            file_tier_invalidate(&mut self.normal_entries, id);
            proof {
                lemma_submap_update(n1, n0, id, context@);
                lemma_submap_trans(self.normal(), n1.remove(id), n0.remove(id));
            }
        } else {
            file_tier_insert(&mut self.normal_entries, id, context.duplicate());
            proof {
                lemma_submap_update(n1, n0, id, context@);
                lemma_submap_trans(self.normal(), n1.insert(id, context@), n0.insert(id, context@));
            }
        }
        match retired {
            Some(r) => self.aliases.remove_alias(id, &r),
            None => {},
        }
        let r = Some(context);
        proof {
            assert(Self::update_core(*old(self), *self, alias_views, retired_view, change_spec, r));
            if old(self).ids_fresh() && old(self).next_id() < u64::MAX {
                law_update_keeps_ids_fresh(*old(self), *self, alias_views, retired_view, change_spec, r);
            }
        }
        r
    }

    /// Inserts or merges telemetry whose key, path and retired alias are
    /// already canonical.
    pub fn write_canonical_telemetry(
        &mut self,
        key: FileContextKey,
        update: FileTelemetryUpdate,
        retired: Option<FileContextKey>,
    ) -> (r: Option<FileContext>)
        requires
            old(self).wf(),
        ensures
            Self::update_effect(
                *old(self),
                *final(self),
                telemetry_alias_views(
                    key@,
                    crate::file_context::opt_str(update.normalized_file_path),
                    update.file_index,
                ),
                opt_key_view(retired),
                ContextChange::Telemetry(update),
                r,
            ),
    {
        let aliases = telemetry_aliases_from(key, &update.normalized_file_path, update.file_index);
        self.update_context(aliases, retired, ContextChange::Telemetry(update))
    }

    /// Inserts or merges partial file telemetry into a context identified by
    /// any known alias. Keys and paths are canonicalized first; a rename's
    /// original name is retired as an alias.
    pub fn write_telemetry(&mut self, key: FileContextKey, update: FileTelemetryUpdate) -> (r: Option<
        FileContext,
    >)
        requires
            old(self).wf(),
        ensures
            final(self).wf(),
            exists|k: KeyView, u: FileTelemetryUpdate, retired: Option<KeyView>|
                {
                    &&& canonical_form_of(key@, k)
                    &&& canonical_update_of(update, u)
                    &&& canonical_retired(update.original_name, retired)
                    &&& #[trigger] Self::update_effect(
                        *old(self),
                        *final(self),
                        telemetry_alias_views(
                            k,
                            crate::file_context::opt_str(u.normalized_file_path),
                            u.file_index,
                        ),
                        retired,
                        ContextChange::Telemetry(u),
                        r,
                    )
                },
    {
        let ghost original = update;
        let ghost key0 = key@;
        let key = FileContextKey::canonicalized(&key);
        let FileTelemetryUpdate {
            normalized_file_path,
            file_index,
            last_write_process,
            last_write_time,
            last_rename_time,
            original_name,
            matching_flags,
        } = update;
        let normalized_file_path = match normalized_file_path {
            Some(p) => Some(fsc_canonicalize_path(p.as_str())),
            None => None,
        };
        let retired = match &original_name {
            Some(p) => Some(FileContextKey::Path(fsc_canonicalize_path(p.as_str()))),
            None => None,
        };
        let update = FileTelemetryUpdate {
            normalized_file_path,
            file_index,
            last_write_process,
            last_write_time,
            last_rename_time,
            original_name,
            matching_flags,
        };
        let ghost k = key@;
        let ghost ret = opt_key_view(retired);
        let ghost u = update;
        let r = self.write_canonical_telemetry(key, update, retired);
        assert(canonical_form_of(key0, k));
        assert(canonical_update_of(original, u));
        assert(canonical_retired(original.original_name, ret));
        r
    }

    /// Inserts or replaces the latest scan summary for a context whose key is
    /// already canonical.
    pub fn write_canonical_scan_summary(&mut self, key: FileContextKey, scan_summary: ScanSummary) -> (r:
        Option<FileContext>)
        requires
            old(self).wf(),
        ensures
            Self::update_effect(
                *old(self),
                *final(self),
                scan_alias_views(key@, scan_summary.file_index),
                None,
                ContextChange::ScanSummary(scan_summary),
                r,
            ),
    {
        let mut aliases: Vec<FileContextKey> = Vec::new();
        let ghost k = key@;
        aliases.push(key);
        if let Some(file_index) = scan_summary.file_index {
            aliases.push(FileContextKey::FileIndex(file_index));
        }
        assert(key_views(aliases@) =~= scan_alias_views(k, scan_summary.file_index));
        self.update_context(aliases, None, ContextChange::ScanSummary(scan_summary))
    }

    /// Inserts or replaces the latest scan summary for a context identified by
    /// any known alias.
    pub fn write_scan_summary(&mut self, key: FileContextKey, scan_summary: ScanSummary) -> (r:
        Option<FileContext>)
        requires
            old(self).wf(),
        ensures
            final(self).wf(),
            r matches Some(c) && c@.last_scan_summary == Some(scan_summary),
            exists|k: KeyView|
                canonical_form_of(key@, k) && #[trigger] Self::update_effect(
                    *old(self),
                    *final(self),
                    scan_alias_views(k, scan_summary.file_index),
                    None,
                    ContextChange::ScanSummary(scan_summary),
                    r,
                ),
    {
        let key = FileContextKey::canonicalized(&key);
        let ghost k = key@;
        let r = self.write_canonical_scan_summary(key, scan_summary);
        assert(canonical_form_of(key@, k));
        r
    }

    /// Adds flags to the context of an already canonical key and promotes it
    /// when they indicate elevated risk.
    pub fn flag_canonical(&mut self, key: FileContextKey, flags: Vec<FileFlags>) -> (r: Option<
        FileContext,
    >)
        requires
            old(self).wf(),
        ensures
            Self::update_effect(
                *old(self),
                *final(self),
                seq![key@],
                None,
                ContextChange::Flags(flags),
                r,
            ),
    {
        let mut aliases: Vec<FileContextKey> = Vec::new();
        let ghost k = key@;
        aliases.push(key);
        assert(key_views(aliases@) =~= seq![k]);
        self.update_context(aliases, None, ContextChange::Flags(flags))
    }

    /// Adds flags to a file context and promotes it when they indicate
    /// elevated risk.
    pub fn flag_file(&mut self, key: FileContextKey, flags: Vec<FileFlags>) -> (r: Option<FileContext>)
        requires
            old(self).wf(),
        ensures
            final(self).wf(),
            exists|k: KeyView|
                canonical_form_of(key@, k) && #[trigger] Self::update_effect(
                    *old(self),
                    *final(self),
                    seq![k],
                    None,
                    ContextChange::Flags(flags),
                    r,
                ),
    {
        let key = FileContextKey::canonicalized(&key);
        let ghost k = key@;
        self.flag_canonical(key, flags)
    }

    /// Removes the logical context an already canonical key resolves to,
    /// together with every alias that resolves to it.
    pub fn invalidate_canonical(&mut self, key: &FileContextKey)
        requires
            old(self).wf(),
        ensures
            Self::invalidate_effect(*old(self), *final(self), key@),
    {
        self.drain_evicted_contexts();
        let id = match self.aliases.lookup(key) {
            Some(id) => id,
            None => {
                return ;
            },
        };
        let ghost before = *self;
        self.remove_context(id);
        proof {
            if before.ids_fresh() {
                lemma_submap_removed(self.high(), before.high(), id);
                lemma_submap_removed(self.normal(), before.normal(), id);
                law_shrinking_keeps_ids_fresh(before, *self);
            }
        }
    }

    /// Removes a logical context and every alias that resolves to it; a path
    /// key is canonicalized first.
    pub fn invalidate(&mut self, key: &FileContextKey)
        requires
            old(self).wf(),
        ensures
            final(self).wf(),
            exists|k: KeyView|
                canonical_form_of(key@, k) && #[trigger] Self::invalidate_effect(
                    *old(self),
                    *final(self),
                    k,
                ),
    {
        let canonical = FileContextKey::canonicalized(key);
        self.invalidate_canonical(&canonical);
        assert(canonical_form_of(key@, canonical@));
    }

    fn remove_context(&mut self, id: u64)
        requires
            old(self).wf(),
        ensures
            final(self).wf(),
            final(self).next_id() == old(self).next_id(),
            final(self).alias_map() == without_context(old(self).alias_map(), id),
            final(self).high().submap_of(old(self).high().remove(id)),
            final(self).normal().submap_of(old(self).normal().remove(id)),
            Self::same_capacities(*old(self), *final(self)),
    {
        file_tier_invalidate(&mut self.high_priority_entries, id);
        file_tier_invalidate(&mut self.normal_entries, id);
        self.aliases.remove_context_aliases(id);
    }

    /// Copies of up to `limit` stored contexts, in the order the alias index
    /// first saw them, each listed under its preferred alias; contexts found
    /// gone on the way have their aliases removed.
    pub fn snapshot(&mut self, limit: usize) -> (r: Vec<FileContextSnapshot>)
        requires
            old(self).wf(),
        ensures
            Self::snapshot_effect(*old(self), *final(self), limit, r@),
    {
        self.drain_evicted_contexts();
        let ghost drained = *self;
        let ids = self.aliases.context_list();
        proof {
            self.aliases.lemma_entries();
        }
        let mut snapshots: Vec<FileContextSnapshot> = Vec::new();
        let mut stale: Vec<u64> = Vec::new();
        let mut i: usize = 0;
        let ghost mut listed: Seq<u64> = seq![];
        while i < ids.len()
            invariant_except_break
                i <= ids@.len(),
            invariant
                self.wf(),
                self.next_id() == old(self).next_id(),
                self.aliases == drained.aliases,
                listed_under_keys(snapshots@, listed, drained.alias_map()),
                forall|a: int| 0 <= a < stale@.len() ==> ids@.subrange(0, i as int).contains(#[trigger] stale@[a]),
                forall|a: int, b: int| 0 <= a < stale@.len() && 0 <= b < listed.len() ==> #[trigger] stale@[a] != #[trigger] listed[b],
                forall|a: int, b: int| 0 <= a < b < ids@.len() ==> ids@[a] != ids@[b],
                snapshots@.len() <= limit,
                self.high().submap_of(old(self).high()),
                self.normal().submap_of(old(self).normal()),
                listed.len() == snapshots@.len(),
                forall|j: int|
                    0 <= j < listed.len() ==> ids@.subrange(0, i as int).contains(#[trigger] listed[j])
                        && shows_context(old(self).high(), old(self).normal(), snapshots@[j], listed[j]),
                forall|a: int, b: int| 0 <= a < b < listed.len() ==> listed[a] != listed[b],
                forall|m: int|
                    0 <= m < i && !listed.contains(#[trigger] ids@[m]) ==> !is_live(
                        self.high(),
                        self.normal(),
                        ids@[m],
                    ),
            ensures
                i <= ids@.len(),
                i >= ids@.len() || snapshots@.len() >= limit,
            decreases ids@.len() - i,
        {
            if snapshots.len() >= limit {
                break;
            }
            let id = ids[i];
            proof {
                assert forall|j: int| 0 <= j < listed.len() implies ids@.subrange(0, i + 1).contains(
                    #[trigger] listed[j],
                ) by {
                    let m = choose|m: int| 0 <= m < i && ids@.subrange(0, i as int)[m] == listed[j];
                    assert(ids@.subrange(0, i + 1)[m] == listed[j]);
                }
                assert(!listed.contains(id)) by {
                    if listed.contains(id) {
                        let j = choose|j: int| 0 <= j < listed.len() && listed[j] == id;
                        let m = choose|m: int| 0 <= m < i && ids@.subrange(0, i as int)[m] == listed[j];
                        assert(ids@[m] == ids@[i as int]);
                    }
                }
            }
            proof {
                assert forall|a: int| 0 <= a < stale@.len() implies ids@.subrange(0, i + 1).contains(
                    #[trigger] stale@[a],
                ) by {
                    let sub = ids@.subrange(0, i as int);
                    let m = choose|m: int| 0 <= m < sub.len() && sub[m] == stale@[a];
                    assert(ids@.subrange(0, i + 1)[m] == stale@[a]);
                }
                assert forall|a: int| 0 <= a < stale@.len() implies #[trigger] stale@[a] != id by {
                    let sub = ids@.subrange(0, i as int);
                    let m = choose|m: int| 0 <= m < sub.len() && sub[m] == stale@[a];
                    assert(ids@[m] == stale@[a]);
                }
                lemma_listed_key_is_listed_under(drained.aliases, id);
            }
            let key = snapshot_key(&self.aliases.aliases_of(id));
            let ghost hb = self.high();
            let ghost nb = self.normal();
            let (entry, _) = self.context_entry(id);
            proof {
                lemma_submap_trans(self.high(), hb, old(self).high());
                lemma_submap_trans(self.normal(), nb, old(self).normal());
            }
            match entry {
                Some(context) => {
                    let snap = file_context_snapshot(&key, &context);
                    proof {
                        if hb.contains_key(id) {
                            lemma_submap_contains(hb, old(self).high(), id);
                            assert(shows(snap, key_snapshot_view(snap.key), old(self).high()[id]));
                        } else {
                            lemma_submap_contains(nb, old(self).normal(), id);
                            assert(shows(snap, key_snapshot_view(snap.key), old(self).normal()[id]));
                        }
                        assert(shows_context(old(self).high(), old(self).normal(), snap, id));
                        assert(listed_under(drained.alias_map(), id, key_snapshot_view(snap.key)));
                    }
                    let ghost before = snapshots@;
                    let ghost listed_before = listed;
                    snapshots.push(snap);
                    proof {
                        listed = listed.push(id);
                        assert(ids@.subrange(0, i + 1)[i as int] == id);
                        assert forall|j: int|
                            0 <= j < listed.len() implies ids@.subrange(0, i + 1).contains(
                            #[trigger] listed[j],
                        ) && shows_context(old(self).high(), old(self).normal(), snapshots@[j], listed[j]) by {
                            if j < before.len() {
                                assert(snapshots@[j] == before[j]);
                                assert(listed[j] == listed_before[j]);
                            }
                        }
                        assert forall|m: int|
                            0 <= m < i + 1 && !listed.contains(#[trigger] ids@[m]) implies !is_live(
                            self.high(),
                            self.normal(),
                            ids@[m],
                        ) by {
                            if m < i {
                                if listed_before.contains(ids@[m]) {
                                    let j = choose|j: int| 0 <= j < listed_before.len() && listed_before[j] == ids@[m];
                                    assert(listed[j] == ids@[m]);
                                }
                            } else {
                                assert(listed[listed.len() - 1] == ids@[m]);
                            }
                        }
                        assert forall|j: int|
                            0 <= j < listed.len() && j < snapshots@.len() implies listed_under(
                            drained.alias_map(),
                            #[trigger] listed[j],
                            key_snapshot_view(snapshots@[j].key),
                        ) by {
                            if j < before.len() {
                                assert(snapshots@[j] == before[j]);
                                assert(listed[j] == listed_before[j]);
                            }
                        }
                        assert forall|a: int, b: int|
                            0 <= a < stale@.len() && 0 <= b < listed.len() implies #[trigger] stale@[a]
                            != #[trigger] listed[b] by {
                            if b < listed_before.len() {
                                assert(listed[b] == listed_before[b]);
                            }
                        }
                    }
                },
                None => {
                    let ghost stale_before = stale@;
                    stale.push(id);
                    proof {
                        assert forall|a: int| 0 <= a < stale@.len() implies ids@.subrange(0, i + 1).contains(
                            #[trigger] stale@[a],
                        ) by {
                            if a < stale_before.len() {
                                assert(stale@[a] == stale_before[a]);
                            } else {
                                assert(ids@.subrange(0, i + 1)[i as int] == id);
                            }
                        }
                        assert forall|a: int, b: int|
                            0 <= a < stale@.len() && 0 <= b < listed.len() implies #[trigger] stale@[a]
                            != #[trigger] listed[b] by {
                            if a < stale_before.len() {
                                assert(stale@[a] == stale_before[a]);
                            } else {
                                assert(!listed.contains(id));
                            }
                        }
                    }
                },
            }
            i = i + 1;
        }
        let ghost h1 = self.high();
        let ghost n1 = self.normal();
        let mut j: usize = 0;
        while j < stale.len()
            invariant
                self.wf(),
                0 <= j <= stale@.len(),
                self.high() == h1,
                self.normal() == n1,
                self.next_id() == old(self).next_id(),
                listed_under_keys(snapshots@, listed, self.alias_map()),
                forall|a: int, b: int| 0 <= a < stale@.len() && 0 <= b < listed.len() ==> #[trigger] stale@[a] != #[trigger] listed[b],
            decreases stale@.len() - j,
        {
            let ghost m_before = self.alias_map();
            let gone = stale[j];
            self.aliases.remove_context_aliases(gone);
            proof {
                assert forall|b: int|
                    0 <= b < listed.len() && b < snapshots@.len() implies listed_under(
                    self.alias_map(),
                    #[trigger] listed[b],
                    key_snapshot_view(snapshots@[b].key),
                ) by {
                    assert(stale@[j as int] != listed[b]);
                    lemma_listed_under_without(m_before, gone, listed[b], key_snapshot_view(snapshots@[b].key));
                }
            }
            j = j + 1;
        }
        proof {
            let old_ids = old(self).context_ids();
            assert(Self::drain_effect(*old(self), drained));
            assert(ids@ == drained.context_ids());
            assert forall|j: int|
                0 <= j < listed.len() implies old_ids.contains(#[trigger] listed[j]) by {
                let sub = ids@.subrange(0, i as int);
                assert(sub.contains(listed[j]));
                let m = choose|m: int| 0 <= m < sub.len() && sub[m] == listed[j];
                assert(ids@[m] == listed[j]);
                assert(drained.context_ids().contains(listed[j]));
            }
            if snapshots@.len() < limit {
                assert forall|id: u64|
                    old_ids.contains(id) && is_live(self.high(), self.normal(), id) implies #[trigger] listed.contains(
                    id,
                ) by {
                    assert(is_live(old(self).high(), old(self).normal(), id));
                    assert(drained.context_ids().contains(id));
                    assert(ids@.contains(id));
                    let m = choose|m: int| 0 <= m < ids@.len() && ids@[m] == id;
                    if !listed.contains(ids@[m]) {
                        assert(!is_live(h1, n1, ids@[m]));
                    }
                }
            }
            assert(lists_contexts(snapshots@, listed, old_ids, old(self).high(), old(self).normal()));
            if old(self).ids_fresh() {
                law_shrinking_keeps_ids_fresh(*old(self), *self);
            }
        }
        snapshots
    }
}

/// The key `snapshot_key` picks among the aliases of a context is one the
/// context may be listed under.
proof fn lemma_listed_key_is_listed_under(a: AliasIndexes, id: u64)
    requires
        a.wf(),
    ensures
        listed_under(a.alias_map(), id, listed_key(alias_list_of(a.entries(), id))),
{
    let m = a.alias_map();
    let l = alias_list_of(a.entries(), id);
    let k = listed_key(l);
    lemma_first_index_alias(l);
    a.lemma_aliases_resolve(id, k);
    match first_index_alias(l) {
        Some(f) => {
            assert(resolves_to(m, f, id));
        },
        None => {
            assert forall|b: KeyView| !(b is FileIndex && #[trigger] resolves_to(m, b, id)) by {
                a.lemma_aliases_resolve(id, b);
                if b is FileIndex && resolves_to(m, b, id) {
                    let i = choose|i: int| 0 <= i < l.len() && l[i] == b;
                    assert(!(l[i] is FileIndex));
                }
            }
            if l.len() > 0 {
                assert(l.contains(l[0]));
                assert(resolves_to(m, k, id));
            } else {
                assert forall|b: KeyView| !#[trigger] resolves_to(m, b, id) by {
                    a.lemma_aliases_resolve(id, b);
                }
            }
        },
    }
}

/// Dropping the aliases of another context does not change how a context
/// may be listed.
proof fn lemma_listed_under_without(m: Map<KeyView, u64>, other: u64, id: u64, k: KeyView)
    requires
        id != other,
    ensures
        listed_under(without_context(m, other), id, k) == listed_under(m, id, k),
{
    let w = without_context(m, other);
    assert forall|b: KeyView| #[trigger] resolves_to(w, b, id) == resolves_to(m, b, id) by {}
    if exists|a: KeyView| a is FileIndex && #[trigger] resolves_to(m, a, id) {
        let a = choose|a: KeyView| a is FileIndex && #[trigger] resolves_to(m, a, id);
        assert(resolves_to(w, a, id));
    }
    if exists|a: KeyView| #[trigger] resolves_to(m, a, id) {
        let a = choose|a: KeyView| #[trigger] resolves_to(m, a, id);
        assert(resolves_to(w, a, id));
    }
    if exists|a: KeyView| a is FileIndex && #[trigger] resolves_to(w, a, id) {
        let a = choose|a: KeyView| a is FileIndex && #[trigger] resolves_to(w, a, id);
        assert(resolves_to(m, a, id));
    }
    if exists|a: KeyView| #[trigger] resolves_to(w, a, id) {
        let a = choose|a: KeyView| #[trigger] resolves_to(w, a, id);
        assert(resolves_to(m, a, id));
    }
}

proof fn lemma_first_bound_is_bound(aliases: Seq<KeyView>, m: Map<KeyView, u64>, index_only: bool)
    ensures
        first_bound(aliases, m, index_only) matches Some(id) ==> exists|k: KeyView|
            m.contains_key(k) && m[k] == id,
    decreases aliases.len(),
{
    if aliases.len() > 0 && !(m.contains_key(aliases[0]) && (!index_only || aliases[0] is FileIndex)) {
        lemma_first_bound_is_bound(aliases.drop_first(), m, index_only);
    }
}

proof fn lemma_preferred_is_bound(aliases: Seq<KeyView>, m: Map<KeyView, u64>)
    ensures
        preferred_context(aliases, m) matches Some(id) ==> exists|k: KeyView|
            m.contains_key(k) && m[k] == id,
{
    lemma_first_bound_is_bound(aliases, m, true);
    lemma_first_bound_is_bound(aliases, m, false);
}

impl FileContextKey {
    /// The canonical form of a key: a file-index key as it is, a path key with
    /// its path canonicalized as the file system resolves it now.
    pub fn canonicalized(key: &FileContextKey) -> (r: FileContextKey)
        ensures
            key@ is FileIndex ==> r@ == key@,
            key@ is Path ==> r@ is Path,
    {
        match key {
            FileContextKey::FileIndex(index) => FileContextKey::FileIndex(*index),
            FileContextKey::Path(path) => FileContextKey::Path(fsc_canonicalize_path(path.as_str())),
        }
    }

    /// Creates a context key from file identity data, preferring the file
    /// index; the path is canonicalized as the file system resolves it now.
    pub fn from_identity(path: &str, file_index: Option<u64>) -> (r: FileContextKey)
        ensures
            match file_index {
                Some(i) => r@ == KeyView::FileIndex(i),
                None => r@ is Path,
            },
    {
        match file_index {
            Some(index) => FileContextKey::FileIndex(index),
            None => FileContextKey::Path(fsc_canonicalize_path(path)),
        }
    }

    /// Creates a context key from an already canonical path and a file
    /// index, preferring the file index.
    pub fn from_canonical_identity(path: String, file_index: Option<u64>) -> (r: FileContextKey)
        ensures
            r@ == match file_index {
                Some(i) => KeyView::FileIndex(i),
                None => KeyView::Path(path@),
            },
    {
        match file_index {
            Some(index) => FileContextKey::FileIndex(index),
            None => FileContextKey::Path(path),
        }
    }
}

/// The aliases of a telemetry update whose key and path are canonical: its
/// key, then its path and its file index when present.
pub fn telemetry_aliases_from(key: FileContextKey, path: &Option<String>, file_index: Option<u64>) -> (r:
    Vec<FileContextKey>)
    ensures
        key_views(r@) == telemetry_alias_views(key@, crate::file_context::opt_str(*path), file_index),
{
    let ghost k = key@;
    let mut aliases: Vec<FileContextKey> = Vec::new();
    aliases.push(key);
    if let Some(p) = path {
        aliases.push(FileContextKey::Path(p.clone()));
    }
    if let Some(index) = file_index {
        aliases.push(FileContextKey::FileIndex(index));
    }
    assert(key_views(aliases@) =~= telemetry_alias_views(
        k,
        crate::file_context::opt_str(*path),
        file_index,
    ));
    aliases
}

/// The aliases of a telemetry update: its canonical key, then its canonical
/// path and its file index when present.
pub fn telemetry_aliases(key: &FileContextKey, update: &FileTelemetryUpdate) -> (r: Vec<
    FileContextKey,
>)
    ensures
        1 <= r@.len() <= 3,
        key@ is FileIndex ==> r@[0]@ == key@,
        update.file_index matches Some(i) ==> r@.last()@ == KeyView::FileIndex(i),
{
    let path = match &update.normalized_file_path {
        Some(p) => Some(fsc_canonicalize_path(p.as_str())),
        None => None,
    };
    let r = telemetry_aliases_from(FileContextKey::canonicalized(key), &path, update.file_index);
    proof {
        assert(key_views(r@).len() == r@.len());
        assert(r@.len() >= 1);
        assert(key_views(r@)[0] == r@[0]@);
        assert(key_views(r@)[r@.len() - 1] == r@.last()@);
    }
    r
}

} // verus!

verus! {

/// An update keeps the tiers disjoint and every stored ID below the next ID,
/// as long as the ID counter does not wrap around.
pub proof fn law_update_keeps_ids_fresh(
    old: FileContextCache,
    new: FileContextCache,
    aliases: Seq<KeyView>,
    retired: Option<KeyView>,
    change: ContextChange,
    r: Option<FileContext>,
)
    requires
        FileContextCache::update_core(old, new, aliases, retired, change, r),
        old.ids_fresh(),
        old.next_id() < u64::MAX,
    ensures
        new.ids_fresh(),
{
    let m = live_aliases(old.alias_map(), old.high(), old.normal());
    let chosen = preferred_context(aliases, m);
    lemma_preferred_is_bound(aliases, m);
    let id = match chosen {
        Some(i) => i,
        None => old.next_id(),
    };
    let after = r.unwrap()@;
    let was_high = chosen is Some && old.high().contains_key(id);
    let hp = context_is_high_priority(after);
    if chosen is Some {
        let k = choose|k: KeyView| m.contains_key(k) && m[k] == id;
        assert(is_live(old.high(), old.normal(), id));
    } else {
        assert(!is_live(old.high(), old.normal(), id));
    }
    assert(id < new.next_id());
    assert forall|x: u64| #[trigger] new.high().contains_key(x) implies !new.normal().contains_key(x) by {
        if new.normal().contains_key(x) {
            if was_high {
                lemma_submap_contains(new.high(), old.high().insert(id, after), x);
                lemma_submap_contains(new.normal(), old.normal(), x);
                if x != id {
                    assert(old.high().contains_key(x));
                }
            } else if hp {
                lemma_submap_contains(new.high(), old.high().insert(id, after), x);
                lemma_submap_contains(new.normal(), old.normal().remove(id), x);
                assert(old.high().contains_key(x));
            } else {
                lemma_submap_contains(new.high(), old.high(), x);
                lemma_submap_contains(new.normal(), old.normal().insert(id, after), x);
                if x != id {
                    assert(old.normal().contains_key(x));
                }
            }
        }
    }
    assert(old.next_id() <= new.next_id());
    assert forall|x: u64| #[trigger] new.high().contains_key(x) implies x < new.next_id() by {
        if x != id {
            if was_high || hp {
                lemma_submap_contains(new.high(), old.high().insert(id, after), x);
            } else {
                lemma_submap_contains(new.high(), old.high(), x);
            }
            assert(old.high().contains_key(x));
        }
    }
    assert forall|x: u64| #[trigger] new.normal().contains_key(x) implies x < new.next_id() by {
        if x != id {
            if was_high {
                lemma_submap_contains(new.normal(), old.normal(), x);
            } else if hp {
                lemma_submap_contains(new.normal(), old.normal().remove(id), x);
            } else {
                lemma_submap_contains(new.normal(), old.normal().insert(id, after), x);
            }
            assert(old.normal().contains_key(x));
        }
    }
}

/// Operations that only shrink the tiers keep the tiers disjoint and every
/// stored ID below the next ID.
pub proof fn law_shrinking_keeps_ids_fresh(old: FileContextCache, new: FileContextCache)
    requires
        old.ids_fresh(),
        new.high().submap_of(old.high()),
        new.normal().submap_of(old.normal()),
        new.next_id() == old.next_id(),
    ensures
        new.ids_fresh(),
{
    assert forall|x: u64| #[trigger] new.high().contains_key(x) implies !new.normal().contains_key(x) by {
        lemma_submap_contains(new.high(), old.high(), x);
        if new.normal().contains_key(x) {
            lemma_submap_contains(new.normal(), old.normal(), x);
        }
    }
    assert forall|x: u64| #[trigger] new.high().contains_key(x) implies x < new.next_id() by {
        lemma_submap_contains(new.high(), old.high(), x);
    }
    assert forall|x: u64| #[trigger] new.normal().contains_key(x) implies x < new.next_id() by {
        lemma_submap_contains(new.normal(), old.normal(), x);
    }
}

/// After an update, every alias the update named (but a retired one)
/// resolves to one and the same context, and a lookup through any of them
/// yields the context the update returned, or nothing once it is evicted.
pub proof fn law_update_aliases_resolve_to_one_context(
    old: FileContextCache,
    new: FileContextCache,
    aliases: Seq<KeyView>,
    retired: Option<KeyView>,
    change: ContextChange,
    r: Option<FileContext>,
)
    requires
        FileContextCache::update_effect(old, new, aliases, retired, change, r),
        old.ids_fresh(),
    ensures
        forall|a: KeyView, b: KeyView|
            aliases.contains(a) && aliases.contains(b) && retired != Some(a) && retired != Some(b)
                ==> new.alias_map().contains_key(a) && new.alias_map()[a] == new.alias_map()[b],
        forall|a: KeyView|
            aliases.contains(a) && retired != Some(a) ==> (new.resolved(a) is None || new.resolved(
                a,
            ) == Some(r.unwrap()@)),
{
    let m = live_aliases(old.alias_map(), old.high(), old.normal());
    let chosen = preferred_context(aliases, m);
    lemma_preferred_is_bound(aliases, m);
    let id = match chosen {
        Some(i) => i,
        None => old.next_id(),
    };
    if chosen is Some {
        let k = choose|k: KeyView| m.contains_key(k) && m[k] == id;
        assert(is_live(old.high(), old.normal(), id));
    }
    let after = r.unwrap()@;
    let was_high = chosen is Some && old.high().contains_key(id);
    let hp = context_is_high_priority(after);
    assert forall|a: KeyView| aliases.contains(a) && retired != Some(a) implies (new.resolved(a) is None
        || new.resolved(a) == Some(r.unwrap()@)) by {
        assert(new.alias_map().contains_key(a));
        assert(new.alias_map()[a] == id);
        if is_live(new.high(), new.normal(), id) {
            assert(live_aliases(new.alias_map(), new.high(), new.normal()).get(a) == Some(id));
            if new.high().contains_key(id) {
                if was_high || hp {
                    lemma_submap_contains(new.high(), old.high().insert(id, after), id);
                } else {
                    lemma_submap_contains(new.high(), old.high(), id);
                    if chosen is None {
                        assert(is_live(old.high(), old.normal(), id));
                    }
                }
            } else {
                if was_high {
                    lemma_submap_contains(new.normal(), old.normal(), id);
                } else if hp {
                    lemma_submap_contains(new.normal(), old.normal().remove(id), id);
                } else {
                    lemma_submap_contains(new.normal(), old.normal().insert(id, after), id);
                }
            }
        } else {
            assert(live_aliases(new.alias_map(), new.high(), new.normal()).get(a) is None);
        }
    }
}

/// The latest scan summary is what a read gives back: after a scan summary
/// is written, every alias the write named resolves to a context whose
/// latest summary is that one, whatever summaries were written before, or
/// to nothing once the cache has evicted the context.
pub proof fn law_latest_scan_summary_is_read_back(
    old: FileContextCache,
    new: FileContextCache,
    aliases: Seq<KeyView>,
    summary: ScanSummary,
    r: Option<FileContext>,
)
    requires
        FileContextCache::update_effect(old, new, aliases, None, ContextChange::ScanSummary(summary), r),
        old.ids_fresh(),
    ensures
        forall|a: KeyView|
            aliases.contains(a) ==> (new.resolved(a) is None || (new.resolved(a) matches Some(c)
                && c.last_scan_summary == Some(summary))),
{
    law_update_aliases_resolve_to_one_context(old, new, aliases, None, ContextChange::ScanSummary(summary), r);
}

/// Invalidating one context leaves every other key as it was: a key that
/// resolved to another context still resolves to it, with the same contents,
/// unless the cache has evicted that context.
pub proof fn law_invalidate_keeps_other_keys(
    old: FileContextCache,
    new: FileContextCache,
    key: KeyView,
    other: KeyView,
)
    requires
        FileContextCache::invalidate_effect(old, new, key),
        old.ids_fresh(),
        live_aliases(old.alias_map(), old.high(), old.normal()).get(other)
            != live_aliases(old.alias_map(), old.high(), old.normal()).get(key),
    ensures
        new.resolved(other) == old.resolved(other) || new.resolved(other) is None,
{
    let m = live_aliases(old.alias_map(), old.high(), old.normal());
    match m.get(key) {
        Some(id) => {
            if m.contains_key(other) {
                let c = m[other];
                assert(c != id);
                assert(new.alias_map().contains_key(other) && new.alias_map()[other] == c);
                if is_live(new.high(), new.normal(), c) {
                    assert(live_aliases(new.alias_map(), new.high(), new.normal()).get(other) == Some(c));
                    if new.high().contains_key(c) {
                        lemma_submap_contains(new.high(), old.high().remove(id), c);
                    } else {
                        lemma_submap_contains(new.normal(), old.normal().remove(id), c);
                        assert(!old.high().contains_key(c));
                    }
                } else {
                    assert(live_aliases(new.alias_map(), new.high(), new.normal()).get(other) is None);
                }
            } else {
                assert(!new.alias_map().contains_key(other));
                assert(live_aliases(new.alias_map(), new.high(), new.normal()).get(other) is None);
            }
        },
        None => {
            assert(live_aliases(new.alias_map(), new.high(), new.normal()) =~= m);
        },
    }
}

/// Invalidating a context through one alias removes every alias that
/// resolved to it: none of them resolves to anything afterwards.
pub proof fn law_invalidate_removes_every_alias(
    old: FileContextCache,
    new: FileContextCache,
    key: KeyView,
    other: KeyView,
)
    requires
        FileContextCache::invalidate_effect(old, new, key),
        live_aliases(old.alias_map(), old.high(), old.normal()).get(key) is Some,
        live_aliases(old.alias_map(), old.high(), old.normal()).get(other) == live_aliases(
            old.alias_map(),
            old.high(),
            old.normal(),
        ).get(key),
    ensures
        !new.alias_map().contains_key(key),
        !new.alias_map().contains_key(other),
        new.resolved(key) is None,
        new.resolved(other) is None,
{
}

/// A rename retires the old path: when the old path resolved to the context
/// the update lands in, and is not itself one of the update's aliases, no
/// alias for it remains.
pub proof fn law_rename_retires_old_path(
    old: FileContextCache,
    new: FileContextCache,
    aliases: Seq<KeyView>,
    old_path: KeyView,
    change: ContextChange,
    r: Option<FileContext>,
)
    requires
        FileContextCache::update_effect(old, new, aliases, Some(old_path), change, r),
        !aliases.contains(old_path),
        live_aliases(old.alias_map(), old.high(), old.normal()).get(old_path) is Some,
        preferred_context(aliases, live_aliases(old.alias_map(), old.high(), old.normal()))
            == live_aliases(old.alias_map(), old.high(), old.normal()).get(old_path),
    ensures
        !new.alias_map().contains_key(old_path),
        new.resolved(old_path) is None,
{
}

/// A context that an update leaves high-priority is not in the normal tier
/// afterwards.
pub proof fn law_high_risk_context_leaves_normal_tier(
    old: FileContextCache,
    new: FileContextCache,
    aliases: Seq<KeyView>,
    retired: Option<KeyView>,
    change: ContextChange,
    r: Option<FileContext>,
)
    requires
        FileContextCache::update_effect(old, new, aliases, retired, change, r),
        old.ids_fresh(),
        r matches Some(c) && context_is_high_priority(c@),
    ensures
        forall|a: KeyView|
            aliases.contains(a) && retired != Some(a) ==> !new.normal().contains_key(
                new.alias_map()[a],
            ),
{
    let m = live_aliases(old.alias_map(), old.high(), old.normal());
    let chosen = preferred_context(aliases, m);
    let id = match chosen {
        Some(i) => i,
        None => old.next_id(),
    };
    let after = r.unwrap()@;
    assert forall|a: KeyView| aliases.contains(a) && retired != Some(a) implies !new.normal().contains_key(
        new.alias_map()[a],
    ) by {
        assert(new.alias_map()[a] == id);
        if new.normal().contains_key(id) {
            if chosen is Some && old.high().contains_key(id) {
                lemma_submap_contains(new.normal(), old.normal(), id);
            } else {
                lemma_submap_contains(new.normal(), old.normal().remove(id), id);
            }
        }
    }
}

/// After stale aliases are drained, every alias resolves to a stored
/// context, and lookups answer as before.
pub proof fn law_drain_leaves_only_live_aliases(old: FileContextCache, new: FileContextCache)
    requires
        FileContextCache::drain_effect(old, new),
    ensures
        forall|k: KeyView|
            #[trigger] new.alias_map().contains_key(k) ==> is_live(
                new.high(),
                new.normal(),
                new.alias_map()[k],
            ),
        forall|k: KeyView| #[trigger] new.resolved(k) == old.resolved(k),
{
    assert forall|k: KeyView| #[trigger] new.resolved(k) == old.resolved(k) by {
        assert(live_aliases(new.alias_map(), new.high(), new.normal()) =~= live_aliases(
            old.alias_map(),
            old.high(),
            old.normal(),
        ));
    }
}

/// Flags are only ever added: a change keeps the old flags as a prefix.
pub proof fn law_flags_only_grow(c: FileContextView, change: ContextChange)
    ensures
        change_applied(c, change).matching_flags.len() >= c.matching_flags.len(),
        change_applied(c, change).matching_flags.subrange(0, c.matching_flags.len() as int)
            == c.matching_flags,
{
    let f = change_applied(c, change).matching_flags;
    assert(f.subrange(0, c.matching_flags.len() as int) =~= c.matching_flags);
}

/// Whether `a` is a prefix of `b`.
pub open spec fn flags_prefix(a: Seq<FileFlags>, b: Seq<FileFlags>) -> bool {
    a.len() <= b.len() && b.subrange(0, a.len() as int) == a
}

/// Across an update, the flags of every context stored before and after
/// only grow: the old flags are a prefix of the new ones.
/// `law_flags_only_grow_over_calls` carries this over a run of calls.
pub proof fn law_stored_flags_only_grow(
    old: FileContextCache,
    new: FileContextCache,
    aliases: Seq<KeyView>,
    retired: Option<KeyView>,
    change: ContextChange,
    r: Option<FileContext>,
    id: u64,
)
    requires
        FileContextCache::update_effect(old, new, aliases, retired, change, r),
        old.ids_fresh(),
        stored_file(old.high(), old.normal(), id) is Some,
        stored_file(new.high(), new.normal(), id) is Some,
    ensures
        flags_prefix(
            stored_file(old.high(), old.normal(), id)->0.matching_flags,
            stored_file(new.high(), new.normal(), id)->0.matching_flags,
        ),
{
    let m = live_aliases(old.alias_map(), old.high(), old.normal());
    let chosen = preferred_context(aliases, m);
    lemma_preferred_is_bound(aliases, m);
    let uid = match chosen {
        Some(i) => i,
        None => old.next_id(),
    };
    let after = r.unwrap()@;
    let was_high = chosen is Some && old.high().contains_key(uid);
    let hp = context_is_high_priority(after);
    let c1 = stored_file(old.high(), old.normal(), id)->0;
    let c2 = stored_file(new.high(), new.normal(), id)->0;
    if id == uid {
        if chosen is None {
            assert(!old.high().contains_key(id) && !old.normal().contains_key(id));
        }
        law_flags_only_grow(c1, change);
        if new.high().contains_key(id) {
            if was_high || hp {
                lemma_submap_contains(new.high(), old.high().insert(id, after), id);
            } else {
                lemma_submap_contains(new.high(), old.high(), id);
            }
        } else if was_high {
            lemma_submap_contains(new.normal(), old.normal(), id);
            assert(!old.normal().contains_key(id));
        } else if hp {
            lemma_submap_contains(new.normal(), old.normal().remove(id), id);
        } else {
            lemma_submap_contains(new.normal(), old.normal().insert(id, after), id);
        }
    } else {
        if new.high().contains_key(id) {
            if was_high || hp {
                lemma_submap_contains(new.high(), old.high().insert(uid, after), id);
            } else {
                lemma_submap_contains(new.high(), old.high(), id);
            }
        } else {
            if was_high {
                lemma_submap_contains(new.normal(), old.normal(), id);
            } else if hp {
                lemma_submap_contains(new.normal(), old.normal().remove(uid), id);
            } else {
                lemma_submap_contains(new.normal(), old.normal().insert(uid, after), id);
            }
            assert(!old.high().contains_key(id));
        }
        assert(c2 == c1);
        assert(c1.matching_flags.subrange(0, c1.matching_flags.len() as int) =~= c1.matching_flags);
    }
}

/// Operations that only shrink the tiers (lookups, listings, drains,
/// invalidations) leave every context that stays stored exactly as it was.
pub proof fn law_stored_flags_survive_shrinking(old: FileContextCache, new: FileContextCache, id: u64)
    requires
        old.ids_fresh(),
        new.high().submap_of(old.high()),
        new.normal().submap_of(old.normal()),
        stored_file(new.high(), new.normal(), id) is Some,
    ensures
        stored_file(old.high(), old.normal(), id) == stored_file(new.high(), new.normal(), id),
{
    if new.high().contains_key(id) {
        lemma_submap_contains(new.high(), old.high(), id);
    } else {
        lemma_submap_contains(new.normal(), old.normal(), id);
        assert(!old.high().contains_key(id));
    }
}


/// One call as the flag law sees it: an update, or a call that only shrinks
/// the tiers and hands out no ID (a lookup, listing, drain or invalidation).
pub open spec fn flag_step(old: FileContextCache, new: FileContextCache) -> bool {
    ||| exists|aliases: Seq<KeyView>, retired: Option<KeyView>, change: ContextChange, r: Option<
        FileContext,
    >| #[trigger] FileContextCache::update_effect(old, new, aliases, retired, change, r)
    ||| {
        &&& new.high().submap_of(old.high())
        &&& new.normal().submap_of(old.normal())
        &&& new.next_id() == old.next_id()
    }
}

/// Flags on a context are only ever added, over any run of calls: while a
/// context stays stored, the flags it had before are a prefix of the flags
/// it has after, as long as the ID counter does not wrap around.
pub proof fn law_flags_only_grow_over_calls(states: Seq<FileContextCache>, id: u64)
    requires
        states.len() > 0,
        states[0].ids_fresh(),
        forall|i: int| 0 <= i < states.len() - 1 ==> #[trigger] flag_step(states[i], states[i + 1]),
        forall|i: int| 0 <= i < states.len() - 1 ==> #[trigger] states[i].next_id() < u64::MAX,
        forall|i: int|
            0 <= i < states.len() ==> (#[trigger] stored_file(states[i].high(), states[i].normal(), id)) is Some,
    ensures
        states.last().ids_fresh(),
        flags_prefix(
            stored_file(states[0].high(), states[0].normal(), id)->0.matching_flags,
            stored_file(states.last().high(), states.last().normal(), id)->0.matching_flags,
        ),
    decreases states.len(),
{
    let first = stored_file(states[0].high(), states[0].normal(), id)->0.matching_flags;
    if states.len() == 1 {
        assert(first.subrange(0, first.len() as int) =~= first);
    } else {
        let n = states.len() - 1;
        let front = states.drop_last();
        assert forall|i: int| 0 <= i < front.len() - 1 implies #[trigger] flag_step(front[i], front[i + 1]) by {
            assert(flag_step(states[i], states[i + 1]));
        }
        assert forall|i: int| 0 <= i < front.len() - 1 implies #[trigger] front[i].next_id() < u64::MAX by {
            assert(states[i].next_id() < u64::MAX);
        }
        assert forall|i: int| 0 <= i < front.len() implies (#[trigger] stored_file(
            front[i].high(),
            front[i].normal(),
            id,
        )) is Some by {
            assert(stored_file(states[i].high(), states[i].normal(), id) is Some);
        }
        law_flags_only_grow_over_calls(front, id);
        let a = states[n - 1];
        let b = states[n];
        assert(front.last() == a);
        assert(flag_step(states[n - 1], states[n - 1 + 1]));
        assert(a.next_id() < u64::MAX);
        assert(stored_file(a.high(), a.normal(), id) is Some);
        assert(stored_file(b.high(), b.normal(), id) is Some);
        let mid = stored_file(a.high(), a.normal(), id)->0.matching_flags;
        let last = stored_file(b.high(), b.normal(), id)->0.matching_flags;
        if exists|aliases: Seq<KeyView>, retired: Option<KeyView>, change: ContextChange, r: Option<
            FileContext,
        >| #[trigger] FileContextCache::update_effect(a, b, aliases, retired, change, r) {
            let (aliases, retired, change, r) = choose|
                aliases: Seq<KeyView>,
                retired: Option<KeyView>,
                change: ContextChange,
                r: Option<FileContext>,
            | #[trigger] FileContextCache::update_effect(a, b, aliases, retired, change, r);
            law_stored_flags_only_grow(a, b, aliases, retired, change, r, id);
            assert(b.ids_fresh());
        } else {
            law_stored_flags_survive_shrinking(a, b, id);
            law_shrinking_keeps_ids_fresh(a, b);
            assert(last.subrange(0, last.len() as int) =~= last);
        }
        assert(flags_prefix(first, mid));
        assert(flags_prefix(mid, last));
        assert(last.subrange(0, first.len() as int) =~= mid.subrange(0, first.len() as int));
    }
}

/// The latest path is what a read gives back: after telemetry that carries
/// a path is written, the context it returns has that path, whatever path
/// it had before (a rename included), and every alias the write named (but
/// a retired one) resolves to a context with that path, or to nothing once
/// the cache has evicted the context.
pub proof fn law_latest_path_is_read_back(
    old: FileContextCache,
    new: FileContextCache,
    aliases: Seq<KeyView>,
    retired: Option<KeyView>,
    u: FileTelemetryUpdate,
    r: Option<FileContext>,
)
    requires
        FileContextCache::update_effect(old, new, aliases, retired, ContextChange::Telemetry(u), r),
        old.ids_fresh(),
    ensures
        u.normalized_file_path matches Some(p) ==> r matches Some(c) && c@.normalized_file_path == Some(
            p@,
        ),
        u.normalized_file_path matches Some(p) ==> forall|a: KeyView|
            aliases.contains(a) && retired != Some(a) ==> (new.resolved(a) is None || (new.resolved(
                a,
            ) matches Some(c) && c.normalized_file_path == Some(p@))),
{
    law_update_aliases_resolve_to_one_context(old, new, aliases, retired, ContextChange::Telemetry(u), r);
}

} // verus!
