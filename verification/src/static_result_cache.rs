//! The cache of finished static scans and the registry of scans in flight.
//!
//! A finished scan is kept under the canonical path of its image together
//! with the size, modification time and file index the image had when it
//! was scanned; it is reused only while all three still match. While one
//! caller scans an image, every other caller for the same path is told to
//! wait for that scan instead of starting its own.
//!
//! The finished scans live in a `moka::sync::Cache`, which evicts entries on
//! its own schedule: every operation states that what is left afterwards is
//! part of what was there, together with what the operation itself wrote.

use vstd::prelude::*;

use moka::sync::Cache;

use crate::canonical::fsc_canonicalize_path;
use crate::detection::DetectionDetails;
use crate::file_context::{FileTime, FileVerdict, ScanSummary};

verus! {

/// Largest number of finished scans kept.
pub const STATIC_RESULT_CAPACITY: u64 = 10_000;

/// Threat scores above this block the process.
pub const STAT_BLOCK_THRESHOLD: i32 = 80;

/// Threat scores above this make a file suspicious.
pub const STAT_SUSPICIOUS_THRESHOLD: i32 = 50;

/// A finished scan as stored, with the file identity it was made on.
#[derive(Debug, Clone)]
pub struct CacheItemData {
    pub last_mod_time: FileTime,
    pub file_size: u64,
    pub file_index: Option<u64>,
    pub details: DetectionDetails,
}

/// The result of a finished scan and the identity of the file it was made
/// on, so that waiters can check it without reading the disk again.
#[derive(Debug, Clone)]
pub struct CompletedScan {
    pub details: DetectionDetails,
    /// File modification time at scan time.
    pub mod_time: FileTime,
    /// File size at scan time.
    pub file_size: u64,
    /// NTFS file index at scan time.
    pub file_index: Option<u64>,
}

/// The verdict a scan's threat score gives a file: malicious above the
/// block threshold, suspicious above the suspicious threshold, benign
/// otherwise.
pub open spec fn verdict_for_score(score: i32) -> FileVerdict {
    if score > STAT_BLOCK_THRESHOLD {
        FileVerdict::Malicious
    } else if score > STAT_SUSPICIOUS_THRESHOLD {
        FileVerdict::Suspicious
    } else {
        FileVerdict::Benign
    }
}

impl CompletedScan {
    /// The summary of this scan that a file context records.
    pub fn summary(&self) -> (r: ScanSummary)
        ensures
            r.verdict == verdict_for_score(self.details.threat_score),
            r.threat_score == self.details.threat_score,
            r.file_size == self.file_size,
            r.mod_time == self.mod_time,
            r.file_index == self.file_index,
    {
        let score = self.details.threat_score;
        let verdict = if score > STAT_BLOCK_THRESHOLD {
            FileVerdict::Malicious
        } else if score > STAT_SUSPICIOUS_THRESHOLD {
            FileVerdict::Suspicious
        } else {
            FileVerdict::Benign
        };
        ScanSummary {
            verdict,
            threat_score: score,
            file_size: self.file_size,
            mod_time: self.mod_time,
            file_index: self.file_index,
        }
    }
}

/// What waiting for another caller's scan gave.
#[derive(Debug, Clone)]
pub enum WaitResult {
    /// The scan finished.
    Completed(CompletedScan),
    /// The scan was given up (for example, the file could not be read).
    Failed,
    /// The wait timed out first.
    Timeout,
}

/// Where a scan that other callers wait for stands.
#[derive(Debug)]
pub enum ScanState {
    /// The owner is still scanning.
    Pending,
    /// The owner finished the scan.
    Completed(CompletedScan),
    /// The owner gave the scan up.
    Failed,
}

impl CompletedScan {
    /// A copy of this scan.
    pub fn duplicate(&self) -> (r: CompletedScan)
        ensures
            r == *self,
    {
        CompletedScan {
            details: self.details.duplicate(),
            mod_time: self.mod_time,
            file_size: self.file_size,
            file_index: self.file_index,
        }
    }
}

/// The state the owner of a scan leaves it in: completed with the scan, or
/// failed when it gave the scan up.
pub open spec fn finished(scan: Option<CompletedScan>) -> ScanState {
    match scan {
        Some(s) => ScanState::Completed(s),
        None => ScanState::Failed,
    }
}

/// The state the owner of a scan leaves it in, which wakes every waiter.
pub fn finished_state(scan: Option<CompletedScan>) -> (r: ScanState)
    ensures
        r == finished(scan),
{
    match scan {
        Some(s) => ScanState::Completed(s),
        None => ScanState::Failed,
    }
}

/// What a waiter receives once its wait for `state` to leave `Pending`
/// ends: a timeout when it ran out first, otherwise the finished scan, or a
/// failure when the scan was given up.
pub open spec fn wait_outcome(state: ScanState, timed_out: bool) -> WaitResult {
    if timed_out {
        WaitResult::Timeout
    } else {
        match state {
            ScanState::Completed(s) => WaitResult::Completed(s),
            _ => WaitResult::Failed,
        }
    }
}

/// What a waiter receives once its wait for `state` ends.
pub fn wait_result(state: &ScanState, timed_out: bool) -> (r: WaitResult)
    ensures
        r == wait_outcome(*state, timed_out),
{
    if timed_out {
        return WaitResult::Timeout;
    }
    match state {
        ScanState::Completed(s) => WaitResult::Completed(s.duplicate()),
        _ => WaitResult::Failed,
    }
}

/// A scan's owner hands its result to every waiter: once the owner is done
/// the state is no longer `Pending`, so no waiter waits out its timeout, and
/// each receives the completed scan, or a failure when the owner gave up.
pub proof fn law_waiters_receive_what_the_owner_left(scan: Option<CompletedScan>)
    ensures
        !(finished(scan) is Pending),
        wait_outcome(finished(scan), false) == match scan {
            Some(s) => WaitResult::Completed(s),
            None => WaitResult::Failed,
        },
{
}

/// The right, and the duty, to scan one path and then complete or abort it.
#[derive(Debug)]
pub struct ScanGuard {
    key: String,
}

impl ScanGuard {
    /// The cache key of the scan this guard owns.
    pub closed spec fn key_view(&self) -> Seq<char> {
        self.key@
    }

    /// The cache key of the scan this guard owns.
    pub fn key(&self) -> (r: &String)
        ensures
            r@ == self.key_view(),
    {
        &self.key
    }
}

/// What asking for a scan slot gave.
#[derive(Debug)]
pub enum ScanOutcome {
    /// A finished scan of the same file is cached; reuse its details.
    CacheHit(DetectionDetails),
    /// The caller owns the scan and must complete or abort it.
    Acquired(ScanGuard),
    /// Another caller is scanning this path (the cache key); wait for it.
    Wait(String),
}

/// The finished scans, by cache key.
pub uninterp spec fn result_tier_contents(tier: Cache<String, CacheItemData>) -> Map<
    Seq<char>,
    CacheItemData,
>;

/// The capacity the cache of finished scans was built with, as
/// `Cache::policy().max_capacity()` reports it.
pub uninterp spec fn result_tier_capacity(tier: Cache<String, CacheItemData>) -> Option<u64>;

/// `Cache::builder().max_capacity(capacity).build()`: an empty cache holding
/// at most `capacity` finished scans.
#[verifier::external_body]
fn result_tier_new(capacity: u64) -> (r: Cache<String, CacheItemData>)
    ensures
        result_tier_contents(r).dom() == Set::<Seq<char>>::empty(),
        result_tier_capacity(r) == Some(capacity),
{
    Cache::builder().max_capacity(capacity).build()
}

/// `Cache::get`: a copy of the scan stored under `key`, read before any
/// eviction the read itself may trigger.
#[verifier::external_body]
fn result_tier_get(tier: &mut Cache<String, CacheItemData>, key: &String) -> (r: Option<
    CacheItemData,
>)
    ensures
        result_tier_contents(*final(tier)).submap_of(result_tier_contents(*old(tier))),
        result_tier_capacity(*final(tier)) == result_tier_capacity(*old(tier)),
        match r {
            Some(item) => result_tier_contents(*old(tier)).contains_key(key@) && item
                == result_tier_contents(*old(tier))[key@],
            None => !result_tier_contents(*old(tier)).contains_key(key@),
        },
{
    tier.get(key)
}

/// `Cache::insert`: stores `item` under `key`, replacing any older entry.
#[verifier::external_body]
fn result_tier_insert(tier: &mut Cache<String, CacheItemData>, key: String, item: CacheItemData)
    ensures
        result_tier_contents(*final(tier)).submap_of(
            result_tier_contents(*old(tier)).insert(key@, item),
        ),
        result_tier_capacity(*final(tier)) == result_tier_capacity(*old(tier)),
{
    tier.insert(key, item)
}

/// `Cache::invalidate`: discards the entry stored under `key`.
#[verifier::external_body]
fn result_tier_invalidate(tier: &mut Cache<String, CacheItemData>, key: &String)
    ensures
        result_tier_contents(*final(tier)).submap_of(
            result_tier_contents(*old(tier)).remove(key@),
        ),
        result_tier_capacity(*final(tier)) == result_tier_capacity(*old(tier)),
{
    tier.invalidate(key)
}

/// Whether a stored scan still describes a file that now has this
/// modification time, size and file index: time and size must match, and a
/// recorded file index must match the current one.
pub open spec fn item_matches(
    item: CacheItemData,
    mod_time: FileTime,
    file_size: u64,
    current_index: Option<u64>,
) -> bool {
    &&& item.file_size == file_size
    &&& item.last_mod_time == mod_time
    &&& (item.file_index is None || current_index == item.file_index)
}

/// The cache of finished scans and the scans in flight.
pub struct StaticResultCache {
    completed: Cache<String, CacheItemData>,
    in_progress: Vec<String>,
}

/// The abstract state of the cache: the finished scans, the keys being
/// scanned, and the capacity the cache of finished scans was built with.
pub struct ResultCacheView {
    pub completed: Map<Seq<char>, CacheItemData>,
    pub in_progress: Set<Seq<char>>,
    pub capacity: Option<u64>,
}

/// The effect of asking for a scan slot under `key`: a matching finished
/// scan is reused; otherwise a stale entry is dropped, and the caller waits
/// when the key is being scanned or else takes the slot.
pub open spec fn acquire_effect(
    pre: ResultCacheView,
    post: ResultCacheView,
    key: Seq<char>,
    mod_time: FileTime,
    file_size: u64,
    current_index: Option<u64>,
    r: ScanOutcome,
) -> bool {
    if pre.completed.contains_key(key) && item_matches(
        pre.completed[key],
        mod_time,
        file_size,
        current_index,
    ) {
        &&& r == ScanOutcome::CacheHit(pre.completed[key].details)
        &&& post.completed.submap_of(pre.completed)
        &&& post.in_progress == pre.in_progress
        &&& post.capacity == pre.capacity
    } else {
        &&& post.completed.submap_of(pre.completed.remove(key))
        &&& post.capacity == pre.capacity
        &&& if pre.in_progress.contains(key) {
            &&& r matches ScanOutcome::Wait(k) && k@ == key
            &&& post.in_progress == pre.in_progress
        } else {
            &&& r matches ScanOutcome::Acquired(g) && g.key_view() == key
            &&& post.in_progress == pre.in_progress.insert(key)
        }
    }
}

/// The stored form of a finished scan.
pub open spec fn item_of(scan: CompletedScan) -> CacheItemData {
    CacheItemData {
        last_mod_time: scan.mod_time,
        file_size: scan.file_size,
        file_index: scan.file_index,
        details: scan.details,
    }
}

/// The effect of recording the finished scan of `key`: the key is no longer
/// in flight, and the cache holds at most what it held plus the scan.
pub open spec fn complete_effect(
    pre: ResultCacheView,
    post: ResultCacheView,
    key: Seq<char>,
    scan: CompletedScan,
) -> bool {
    &&& post.in_progress == pre.in_progress.remove(key)
    &&& post.completed.submap_of(pre.completed.insert(key, item_of(scan)))
    &&& post.capacity == pre.capacity
}

impl StaticResultCache {
    /// The abstract state.
    pub closed spec fn view(&self) -> ResultCacheView {
        ResultCacheView {
            completed: result_tier_contents(self.completed),
            capacity: result_tier_capacity(self.completed),
            in_progress: self.in_progress@.map_values(|k: String| k@).to_set(),
        }
    }

    /// Each key is in flight at most once.
    pub closed spec fn wf(&self) -> bool {
        self.in_progress@.map_values(|k: String| k@).no_duplicates()
    }

    /// An empty cache.
    pub fn new() -> (r: StaticResultCache)
        ensures
            r.wf(),
            r.view().completed.dom() == Set::<Seq<char>>::empty(),
            r.view().in_progress == Set::<Seq<char>>::empty(),
            r.view().capacity == Some(STATIC_RESULT_CAPACITY),
    {
        let r = StaticResultCache {
            completed: result_tier_new(STATIC_RESULT_CAPACITY),
            in_progress: Vec::new(),
        };
        assert(r.in_progress@.map_values(|k: String| k@) =~= Seq::<Seq<char>>::empty());
        r
    }

    /// The position of `key` in the in-flight list.
    fn find_in_progress(&self, key: &String) -> (r: Option<usize>)
        ensures
            match r {
                Some(i) => i < self.in_progress@.len() && self.in_progress@[i as int]@ == key@
                    && self.view().in_progress.contains(key@),
                None => !self.view().in_progress.contains(key@),
            },
    {
        let ghost keys = self.in_progress@.map_values(|k: String| k@);
        let mut i: usize = 0;
        while i < self.in_progress.len()
            invariant
                0 <= i <= self.in_progress@.len(),
                keys == self.in_progress@.map_values(|k: String| k@),
                forall|j: int| 0 <= j < i ==> keys[j] != key@,
            decreases self.in_progress@.len() - i,
        {
            let same: bool = self.in_progress[i].eq(key);
            if same {
                assert(keys[i as int] == key@);
                assert(keys.contains(key@));
                return Some(i);
            }
            i = i + 1;
        }
        proof {
            if keys.to_set().contains(key@) {
                let j = keys.index_of(key@);
                assert(keys[j] == key@);
            }
        }
        None
    }

    /// Removes `key` from the in-flight list; whether it was there.
    fn release(&mut self, key: &String) -> (r: bool)
        requires
            old(self).wf(),
        ensures
            final(self).wf(),
            r == old(self).view().in_progress.contains(key@),
            final(self).view().in_progress == old(self).view().in_progress.remove(key@),
            final(self).view().completed == old(self).view().completed,
            final(self).view().capacity == old(self).view().capacity,
    {
        match self.find_in_progress(key) {
            None => {
                assert(self.view().in_progress =~= self.view().in_progress.remove(key@));
                false
            },
            Some(i) => {
                let ghost before = self.in_progress@.map_values(|k: String| k@);
                self.in_progress.remove(i);
                let ghost after = self.in_progress@.map_values(|k: String| k@);
                assert(after =~= before.remove(i as int));
                proof {
                    assert(before[i as int] == key@);
                    crate::maps::lemma_distinct_remove(before, i as int);
                }
                true
            },
        }
    }

    /// Asks for the scan slot of an already canonical `key` for a file that
    /// now has this modification time, size and NTFS index.
    pub fn try_acquire_key(
        &mut self,
        key: String,
        mod_time: FileTime,
        file_size: u64,
        current_index: Option<u64>,
    ) -> (r: ScanOutcome)
        requires
            old(self).wf(),
        ensures
            final(self).wf(),
            acquire_effect(
                old(self).view(),
                final(self).view(),
                key@,
                mod_time,
                file_size,
                current_index,
                r,
            ),
    {
        let ghost pre = self.view();
        let fetched = result_tier_get(&mut self.completed, &key);
        let ghost mid = self.view().completed;

        match fetched {
            Some(item) => {
                if item.file_size == file_size && item.last_mod_time == mod_time {
                    match item.file_index {
                        Some(cached) => {
                            let same_index = match current_index {
                                Some(c) => c == cached,
                                None => false,
                            };
                            if !same_index {
                                result_tier_invalidate(&mut self.completed, &key);
                                proof {
                                    crate::maps::lemma_submap_update(
                                        mid.remove(key@),
                                        pre.completed.remove(key@),
                                        key@,
                                        item,
                                    );
                                    crate::maps::lemma_submap_update(
                                        mid,
                                        pre.completed,
                                        key@,
                                        item,
                                    );
                                    crate::maps::lemma_submap_removed(
                                        self.view().completed,
                                        mid,
                                        key@,
                                    );
                                }
                            } else {
                                return ScanOutcome::CacheHit(item.details);
                            }
                        },
                        None => {
                            return ScanOutcome::CacheHit(item.details);
                        },
                    }
                }
                let ghost before_second = self.view().completed;
                assert(before_second.submap_of(mid));
                result_tier_invalidate(&mut self.completed, &key);
                proof {
                    crate::maps::lemma_submap_update(before_second, mid, key@, item);
                    crate::maps::lemma_submap_update(mid, pre.completed, key@, item);
                    crate::maps::lemma_submap_trans(
                        before_second.remove(key@),
                        mid.remove(key@),
                        pre.completed.remove(key@),
                    );
                    crate::maps::lemma_submap_trans(
                        self.view().completed,
                        before_second.remove(key@),
                        pre.completed.remove(key@),
                    );
                }
            },
            None => {
                proof {
                    crate::maps::lemma_submap_without_into_insert(
                        mid,
                        pre.completed,
                        key@,
                        arbitrary(),
                    );
                }
            },
        }
        assert(self.view().completed.submap_of(pre.completed.remove(key@)));
        match self.find_in_progress(&key) {
            Some(_) => ScanOutcome::Wait(key),
            None => {
                let ghost before = self.in_progress@.map_values(|k: String| k@);
                self.in_progress.push(key.clone());
                let ghost after = self.in_progress@.map_values(|k: String| k@);
                assert(after =~= before.push(key@));
                proof {
                    crate::maps::lemma_distinct_push(before, key@);
                }
                let guard = ScanGuard { key };
                assert(guard.key_view() == key@);
                ScanOutcome::Acquired(guard)
            },
        }
    }

    /// Asks for the scan slot of `raw_path`, canonicalized as the file system
    /// resolves it now, for a file that now has this modification time, size
    /// and NTFS index.
    pub fn try_acquire_scan(
        &mut self,
        raw_path: &str,
        mod_time: FileTime,
        file_size: u64,
        current_index: Option<u64>,
    ) -> (r: ScanOutcome)
        requires
            old(self).wf(),
        ensures
            final(self).wf(),
            exists|key: Seq<char>|
                acquire_effect(
                    old(self).view(),
                    final(self).view(),
                    key,
                    mod_time,
                    file_size,
                    current_index,
                    r,
                ),
    {
        let key = fsc_canonicalize_path(raw_path);
        let ghost k = key@;
        let r = self.try_acquire_key(key, mod_time, file_size, current_index);
        assert(acquire_effect(
            old(self).view(),
            self.view(),
            k,
            mod_time,
            file_size,
            current_index,
            r,
        ));
        r
    }

    /// Records the finished scan of a slot and releases the slot; whether the
    /// slot was still registered (and its waiters are to be woken).
    pub fn complete_scan(&mut self, guard: ScanGuard, scan: CompletedScan) -> (r: bool)
        requires
            old(self).wf(),
        ensures
            final(self).wf(),
            r == old(self).view().in_progress.contains(guard.key_view()),
            complete_effect(old(self).view(), final(self).view(), guard.key_view(), scan),
    {
        let item = CacheItemData {
            last_mod_time: scan.mod_time,
            file_size: scan.file_size,
            file_index: scan.file_index,
            details: scan.details,
        };
        result_tier_insert(&mut self.completed, guard.key.clone(), item);
        self.release(&guard.key)
    }

    /// Gives up the scan of a slot and releases it; whether the slot was
    /// still registered (and its waiters are to be woken).
    pub fn abort_scan(&mut self, guard: ScanGuard) -> (r: bool)
        requires
            old(self).wf(),
        ensures
            final(self).wf(),
            r == old(self).view().in_progress.contains(guard.key_view()),
            final(self).view().in_progress == old(self).view().in_progress.remove(
                guard.key_view(),
            ),
            final(self).view().completed == old(self).view().completed,
            final(self).view().capacity == old(self).view().capacity,
    {
        self.release(&guard.key)
    }

    /// Records findings for a file of this size and modification time under
    /// `path`, outside the slot protocol and without a file index.
    pub fn cache_result(&mut self, path: String, time: FileTime, size: u64, details: DetectionDetails)
        requires
            old(self).wf(),
        ensures
            final(self).wf(),
            final(self).view().in_progress == old(self).view().in_progress,
            final(self).view().completed.submap_of(
                old(self).view().completed.insert(
                    path@,
                    CacheItemData { last_mod_time: time, file_size: size, file_index: None, details },
                ),
            ),
            final(self).view().capacity == old(self).view().capacity,
    {
        let item = CacheItemData { last_mod_time: time, file_size: size, file_index: None, details };
        result_tier_insert(&mut self.completed, path, item);
    }

    /// The findings recorded under `path` for a file that still has this
    /// size and modification time.
    pub fn retreive_result(&mut self, path: &String, time: FileTime, size: u64) -> (r: Option<
        DetectionDetails,
    >)
        requires
            old(self).wf(),
        ensures
            final(self).wf(),
            final(self).view().in_progress == old(self).view().in_progress,
            final(self).view().completed.submap_of(old(self).view().completed),
            final(self).view().capacity == old(self).view().capacity,
            r == if old(self).view().completed.contains_key(path@)
                && old(self).view().completed[path@].file_size == size
                && old(self).view().completed[path@].last_mod_time == time {
                Some(old(self).view().completed[path@].details)
            } else {
                None
            },
    {
        match result_tier_get(&mut self.completed, path) {
            Some(item) => {
                if item.file_size == size && item.last_mod_time == time {
                    Some(item.details)
                } else {
                    None
                }
            },
            None => None,
        }
    }

    /// Discards the finished scan stored under an already canonical key.
    pub fn invalidate_key(&mut self, key: &String)
        requires
            old(self).wf(),
        ensures
            final(self).wf(),
            final(self).view().completed.submap_of(old(self).view().completed.remove(key@)),
            final(self).view().in_progress == old(self).view().in_progress,
            final(self).view().capacity == old(self).view().capacity,
    {
        result_tier_invalidate(&mut self.completed, key);
    }

    /// Discards the finished scan of `raw_path`, canonicalized as the file
    /// system resolves it now.
    pub fn invalidate_result(&mut self, raw_path: &str)
        requires
            old(self).wf(),
        ensures
            final(self).wf(),
            exists|key: Seq<char>|
                final(self).view().completed.submap_of(old(self).view().completed.remove(key)),
            final(self).view().in_progress == old(self).view().in_progress,
    {
        let key = fsc_canonicalize_path(raw_path);
        self.invalidate_key(&key);
    }
}

/// Once a caller has taken the scan slot of a key, every later caller for
/// that key, until the slot is completed or aborted, is told to wait: no
/// finished scan of the key is left to reuse, and the key is in flight.
pub proof fn law_taken_slot_makes_others_wait(
    s0: ResultCacheView,
    s1: ResultCacheView,
    s2: ResultCacheView,
    key: Seq<char>,
    mod_time: FileTime,
    file_size: u64,
    index: Option<u64>,
    first: ScanOutcome,
    later_mod_time: FileTime,
    later_size: u64,
    later_index: Option<u64>,
    second: ScanOutcome,
)
    requires
        acquire_effect(s0, s1, key, mod_time, file_size, index, first),
        first is Acquired,
        acquire_effect(s1, s2, key, later_mod_time, later_size, later_index, second),
    ensures
        second matches ScanOutcome::Wait(k) && k@ == key,
        s2.in_progress == s1.in_progress,
{
    if s0.completed.contains_key(key) && item_matches(
        s0.completed[key],
        mod_time,
        file_size,
        index,
    ) {
    } else {
        crate::maps::lemma_submap_removed(s1.completed, s0.completed, key);
        assert(s1.in_progress.contains(key));
    }
}

/// A reused scan is exactly what was stored for the key, and it was made on
/// a file with the same size and modification time, and the same NTFS index
/// when one was recorded.
pub proof fn law_cache_hit_matches_file(
    s0: ResultCacheView,
    s1: ResultCacheView,
    key: Seq<char>,
    mod_time: FileTime,
    file_size: u64,
    index: Option<u64>,
    r: ScanOutcome,
)
    requires
        acquire_effect(s0, s1, key, mod_time, file_size, index, r),
        r is CacheHit,
    ensures
        s0.completed.contains_key(key),
        item_matches(s0.completed[key], mod_time, file_size, index),
        r == ScanOutcome::CacheHit(s0.completed[key].details),
{
}

/// A finished scan is reused: once the scan of a key is recorded, asking
/// again for the same file (same size, modification time and NTFS index)
/// gives back the recorded findings, unless the cache has evicted the scan
/// in the meantime, in which case the caller takes the slot to scan again.
pub proof fn law_recorded_scan_is_reused(
    s0: ResultCacheView,
    s1: ResultCacheView,
    s2: ResultCacheView,
    key: Seq<char>,
    scan: CompletedScan,
    r: ScanOutcome,
)
    requires
        complete_effect(s0, s1, key, scan),
        acquire_effect(s1, s2, key, scan.mod_time, scan.file_size, scan.file_index, r),
    ensures
        r == ScanOutcome::CacheHit(scan.details) || (r matches ScanOutcome::Acquired(g) && g.key_view()
            == key && !s1.completed.contains_key(key)),
{
    if s1.completed.contains_key(key) {
        crate::maps::lemma_submap_contains(s1.completed, s0.completed.insert(key, item_of(scan)), key);
    }
}

/// Findings recorded for a file are read back for the same size and
/// modification time, unless the cache has evicted them since.
pub proof fn law_cached_result_is_retrieved(
    s0: ResultCacheView,
    s1: ResultCacheView,
    path: Seq<char>,
    time: FileTime,
    size: u64,
    details: DetectionDetails,
    r: Option<DetectionDetails>,
)
    requires
        s1.completed.submap_of(
            s0.completed.insert(
                path,
                CacheItemData { last_mod_time: time, file_size: size, file_index: None, details },
            ),
        ),
        r == if s1.completed.contains_key(path) && s1.completed[path].file_size == size
            && s1.completed[path].last_mod_time == time {
            Some(s1.completed[path].details)
        } else {
            None
        },
    ensures
        r == Some(details) || !s1.completed.contains_key(path),
{
    if s1.completed.contains_key(path) {
        crate::maps::lemma_submap_contains(
            s1.completed,
            s0.completed.insert(
                path,
                CacheItemData { last_mod_time: time, file_size: size, file_index: None, details },
            ),
            path,
        );
    }
}

} // verus!
