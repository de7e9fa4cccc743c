//! The bounded cache tiers that hold file and process contexts.
//!
//! Each tier is a `moka::sync::Cache`. What a tier holds is named by
//! `file_tier_contents` and `process_tier_contents`. The cache evicts entries
//! on its own schedule (during reads, writes and housekeeping), so every
//! operation states that what is left afterwards is part of what was there,
//! together with what the operation itself wrote. The capacity a tier was
//! built with is named by `file_tier_capacity` and `process_tier_capacity`.

use vstd::prelude::*;

use moka::policy::EvictionPolicy;
use moka::sync::{Cache, CacheBuilder};

use crate::file_context::{FileContext, FileContextView};
use crate::process_context::{GaPid, ProcessContext, ProcessContextView};

verus! {

#[verifier::external_type_specification]
#[verifier::external_body]
#[verifier::reject_recursive_types(K)]
#[verifier::reject_recursive_types(V)]
#[verifier::reject_recursive_types(S)]
pub struct ExMokaCache<K, V, S>(Cache<K, V, S>);

#[verifier::external_type_specification]
#[verifier::external_body]
pub struct ExEvictionPolicy(EvictionPolicy);

/// `EvictionPolicy::lru`: evict the least recently used entry.
#[verifier::external_body]
pub(crate) fn lru_policy() -> EvictionPolicy {
    EvictionPolicy::lru()
}

/// `EvictionPolicy::tiny_lfu`: admit and evict by estimated popularity.
#[verifier::external_body]
pub(crate) fn tiny_lfu_policy() -> EvictionPolicy {
    EvictionPolicy::tiny_lfu()
}

// ---- File context tiers ----

/// A tier of file contexts keyed by context ID.
pub type FileTier = Cache<u64, FileContext>;

/// The entries of a file context tier, each context by its view.
pub uninterp spec fn file_tier_contents(tier: Cache<u64, FileContext>) -> Map<u64, FileContextView>;

/// The capacity a file context tier was built with, as
/// `Cache::policy().max_capacity()` reports it.
pub uninterp spec fn file_tier_capacity(tier: Cache<u64, FileContext>) -> Option<u64>;

/// `CacheBuilder::new(capacity).eviction_policy(policy).build()`: an empty
/// tier holding at most `capacity` contexts.
#[verifier::external_body]
pub(crate) fn file_tier_new(capacity: u64, policy: EvictionPolicy) -> (r: FileTier)
    ensures
        file_tier_contents(r).dom() == Set::<u64>::empty(),
        file_tier_capacity(r) == Some(capacity),
{
    CacheBuilder::new(capacity).eviction_policy(policy).build()
}

/// `Cache::get`: the context stored under `id`, read before any eviction the
/// read itself may trigger.
#[verifier::external_body]
pub(crate) fn file_tier_get(tier: &mut Cache<u64, FileContext>, id: u64) -> (r: Option<FileContext>)
    ensures
        file_tier_contents(*final(tier)).submap_of(file_tier_contents(*old(tier))),
        file_tier_capacity(*final(tier)) == file_tier_capacity(*old(tier)),
        match r {
            Some(c) => file_tier_contents(*old(tier)).contains_key(id) && c@ == file_tier_contents(
                *old(tier),
            )[id],
            None => !file_tier_contents(*old(tier)).contains_key(id),
        },
{
    tier.get(&id)
}

/// `Cache::contains_key`: whether a context is stored under `id`; not a read,
/// so it changes nothing.
#[verifier::external_body]
pub(crate) fn file_tier_contains(tier: &Cache<u64, FileContext>, id: u64) -> (r: bool)
    ensures
        r == file_tier_contents(*tier).contains_key(id),
{
    tier.contains_key(&id)
}

/// `Cache::insert`: stores `ctx` under `id`, replacing any older value.
#[verifier::external_body]
pub(crate) fn file_tier_insert(tier: &mut Cache<u64, FileContext>, id: u64, ctx: FileContext)
    ensures
        file_tier_contents(*final(tier)).submap_of(
            file_tier_contents(*old(tier)).insert(id, ctx@),
        ),
        file_tier_capacity(*final(tier)) == file_tier_capacity(*old(tier)),
{
    tier.insert(id, ctx)
}

/// `Cache::invalidate`: discards the context stored under `id`.
#[verifier::external_body]
pub(crate) fn file_tier_invalidate(tier: &mut Cache<u64, FileContext>, id: u64)
    ensures
        file_tier_contents(*final(tier)).submap_of(file_tier_contents(*old(tier)).remove(id)),
        file_tier_capacity(*final(tier)) == file_tier_capacity(*old(tier)),
{
    tier.invalidate(&id)
}

/// `Cache::run_pending_tasks`: runs housekeeping, which may evict entries.
#[verifier::external_body]
pub(crate) fn file_tier_run_pending_tasks(tier: &mut Cache<u64, FileContext>)
    ensures
        file_tier_contents(*final(tier)).submap_of(file_tier_contents(*old(tier))),
        file_tier_capacity(*final(tier)) == file_tier_capacity(*old(tier)),
{
    tier.run_pending_tasks()
}

// ---- Process context tiers ----

/// A tier of process contexts keyed by process identity.
pub type ProcessTier = Cache<GaPid, ProcessContext>;

/// The entries of a process context tier, each context by its view.
pub uninterp spec fn process_tier_contents(tier: Cache<GaPid, ProcessContext>) -> Map<
    GaPid,
    ProcessContextView,
>;

/// The capacity a process context tier was built with, as
/// `Cache::policy().max_capacity()` reports it.
pub uninterp spec fn process_tier_capacity(tier: Cache<GaPid, ProcessContext>) -> Option<u64>;

/// `CacheBuilder::new(capacity).eviction_policy(policy).build()`: an empty
/// tier holding at most `capacity` contexts.
#[verifier::external_body]
pub(crate) fn process_tier_new(capacity: u64, policy: EvictionPolicy) -> (r: ProcessTier)
    ensures
        process_tier_contents(r).dom() == Set::<GaPid>::empty(),
        process_tier_capacity(r) == Some(capacity),
{
    CacheBuilder::new(capacity).eviction_policy(policy).build()
}

/// `Cache::get`: the context stored under `guid`, read before any eviction
/// the read itself may trigger.
#[verifier::external_body]
pub(crate) fn process_tier_get(tier: &mut Cache<GaPid, ProcessContext>, guid: GaPid) -> (r: Option<
    ProcessContext,
>)
    ensures
        process_tier_contents(*final(tier)).submap_of(process_tier_contents(*old(tier))),
        process_tier_capacity(*final(tier)) == process_tier_capacity(*old(tier)),
        match r {
            Some(c) => process_tier_contents(*old(tier)).contains_key(guid) && c@
                == process_tier_contents(*old(tier))[guid],
            None => !process_tier_contents(*old(tier)).contains_key(guid),
        },
{
    tier.get(&guid)
}

/// `Cache::contains_key`: whether a context is stored under `guid`; not a
/// read, so it changes nothing.
#[verifier::external_body]
pub(crate) fn process_tier_contains(tier: &Cache<GaPid, ProcessContext>, guid: GaPid) -> (r: bool)
    ensures
        r == process_tier_contents(*tier).contains_key(guid),
{
    tier.contains_key(&guid)
}

/// `Cache::insert`: stores `ctx` under `guid`, replacing any older value.
#[verifier::external_body]
pub(crate) fn process_tier_insert(tier: &mut Cache<GaPid, ProcessContext>, guid: GaPid, ctx: ProcessContext)
    ensures
        process_tier_contents(*final(tier)).submap_of(
            process_tier_contents(*old(tier)).insert(guid, ctx@),
        ),
        process_tier_capacity(*final(tier)) == process_tier_capacity(*old(tier)),
{
    tier.insert(guid, ctx)
}

/// `Cache::invalidate`: discards the context stored under `guid`.
#[verifier::external_body]
pub(crate) fn process_tier_invalidate(tier: &mut Cache<GaPid, ProcessContext>, guid: GaPid)
    ensures
        process_tier_contents(*final(tier)).submap_of(
            process_tier_contents(*old(tier)).remove(guid),
        ),
        process_tier_capacity(*final(tier)) == process_tier_capacity(*old(tier)),
{
    tier.invalidate(&guid)
}

} // verus!
