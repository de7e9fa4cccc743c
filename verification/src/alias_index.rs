//! The alias index of the file context cache: every path or file-index key
//! (an alias) resolves to at most one internal context ID, and the index
//! keeps the list of context IDs it knows, in the order they were first bound.

use vstd::prelude::*;

use crate::file_context::{FileContextKey, KeyView};

verus! {

/// The map `m` without the aliases that resolve to `id`.
pub open spec fn without_context(m: Map<KeyView, u64>, id: u64) -> Map<KeyView, u64> {
    Map::new(|k: KeyView| m.contains_key(k) && m[k] != id, |k: KeyView| m[k])
}

/// The predicate that holds of every context ID but `id`.
pub open spec fn other_than(id: u64) -> spec_fn(u64) -> bool {
    |c: u64| c != id
}

/// Whether some alias resolves to `id`.
pub open spec fn has_alias_for(m: Map<KeyView, u64>, id: u64) -> bool {
    exists|k: KeyView| m.contains_key(k) && m[k] == id
}

/// The entries of the index as (alias, context ID) pairs, in their order.
pub open spec fn entry_views(v: Seq<(FileContextKey, u64)>) -> Seq<(KeyView, u64)> {
    v.map_values(|e: (FileContextKey, u64)| (e.0@, e.1))
}

/// The first alias, in index order, of context `id`; with `index_only`, the
/// first file-index alias.
pub open spec fn first_alias_of(entries: Seq<(KeyView, u64)>, id: u64, index_only: bool) -> Option<
    KeyView,
>
    decreases entries.len(),
{
    if entries.len() == 0 {
        None
    } else if entries[0].1 == id && (!index_only || entries[0].0 is FileIndex) {
        Some(entries[0].0)
    } else {
        first_alias_of(entries.drop_first(), id, index_only)
    }
}

/// A key is among the aliases of `id` exactly when an entry binds it to `id`.
pub proof fn lemma_alias_list_members(entries: Seq<(KeyView, u64)>, id: u64, k: KeyView)
    ensures
        alias_list_of(entries, id).contains(k) <==> exists|i: int|
            0 <= i < entries.len() && #[trigger] entries[i] == (k, id),
    decreases entries.len(),
{
    if entries.len() > 0 {
        let rest = entries.drop_last();
        lemma_alias_list_members(rest, id, k);
        let l = alias_list_of(entries, id);
        let lr = alias_list_of(rest, id);
        if l.contains(k) {
            if lr.contains(k) {
                let i = choose|i: int| 0 <= i < rest.len() && #[trigger] rest[i] == (k, id);
                assert(entries[i] == (k, id));
            } else {
                assert(entries.last().1 == id);
                let j = choose|j: int| 0 <= j < l.len() && l[j] == k;
                assert(l == lr.push(entries.last().0));
                assert(j == lr.len());
                assert(entries[entries.len() - 1] == (k, id));
            }
        }
        if exists|i: int| 0 <= i < entries.len() && #[trigger] entries[i] == (k, id) {
            let i = choose|i: int| 0 <= i < entries.len() && #[trigger] entries[i] == (k, id);
            if i < entries.len() - 1 {
                assert(rest[i] == (k, id));
                let j = choose|j: int| 0 <= j < lr.len() && lr[j] == k;
                if entries.last().1 == id {
                    assert(l[j] == k);
                }
            } else {
                assert(l == lr.push(k));
                assert(l[lr.len() as int] == k);
            }
        }
    }
}

/// The aliases of context `id`, in index order.
pub open spec fn alias_list_of(entries: Seq<(KeyView, u64)>, id: u64) -> Seq<KeyView>
    decreases entries.len(),
{
    if entries.len() == 0 {
        seq![]
    } else {
        let rest = alias_list_of(entries.drop_last(), id);
        if entries.last().1 == id {
            rest.push(entries.last().0)
        } else {
            rest
        }
    }
}

/// Path and file-index aliases of file contexts.
pub struct AliasIndexes {
    by_alias: Vec<(FileContextKey, u64)>,
    contexts: Vec<u64>,
    map: Ghost<Map<KeyView, u64>>,
}

impl AliasIndexes {
    /// The alias index as a map from alias to context ID.
    pub closed spec fn alias_map(&self) -> Map<KeyView, u64> {
        self.map@
    }

    /// The context IDs the index knows, in the order they were first bound.
    pub closed spec fn context_ids(&self) -> Seq<u64> {
        self.contexts@
    }

    /// The (alias, context ID) entries in index order.
    pub closed spec fn entries(&self) -> Seq<(KeyView, u64)> {
        entry_views(self.by_alias@)
    }

    /// Well-formedness: the entries list each alias once and agree with the
    /// map, the context list has no repeats and holds every ID an alias
    /// resolves to.
    pub closed spec fn wf(&self) -> bool {
        let e = self.by_alias@;
        let m = self.map@;
        &&& forall|i: int|
            0 <= i < e.len() ==> m.contains_key(#[trigger] e[i].0@) && m[e[i].0@] == e[i].1
        &&& forall|k: KeyView| m.contains_key(k) ==> exists|i: int| 0 <= i < e.len() && #[trigger] e[i].0@ == k
        &&& forall|i: int, j: int| 0 <= i < j < e.len() ==> e[i].0@ != e[j].0@
        &&& forall|i: int, j: int|
            0 <= i < j < self.contexts@.len() ==> self.contexts@[i] != self.contexts@[j]
        &&& forall|k: KeyView| m.contains_key(k) ==> #[trigger] self.contexts@.contains(m[k])
    }

    /// The entries agree with the alias map.
    pub proof fn lemma_entries(&self)
        requires
            self.wf(),
        ensures
            forall|i: int|
                0 <= i < self.entries().len() ==> self.alias_map().contains_key(
                    #[trigger] self.entries()[i].0,
                ) && self.alias_map()[self.entries()[i].0] == self.entries()[i].1,
            forall|k: KeyView|
                self.alias_map().contains_key(k) ==> exists|i: int|
                    0 <= i < self.entries().len() && #[trigger] self.entries()[i].0 == k,
            forall|k: KeyView|
                self.alias_map().contains_key(k) ==> #[trigger] self.context_ids().contains(
                    self.alias_map()[k],
                ),
            forall|i: int, j: int|
                0 <= i < j < self.context_ids().len() ==> self.context_ids()[i]
                    != self.context_ids()[j],
    {
        assert forall|k: KeyView| self.alias_map().contains_key(k) implies exists|i: int|
            0 <= i < self.entries().len() && #[trigger] self.entries()[i].0 == k by {
            let i = choose|i: int| 0 <= i < self.by_alias@.len() && #[trigger] self.by_alias@[i].0@ == k;
            assert(self.entries()[i].0 == k);
        }
    }

    /// The aliases listed for `id` are exactly the keys that resolve to it.
    pub proof fn lemma_aliases_resolve(&self, id: u64, k: KeyView)
        requires
            self.wf(),
        ensures
            alias_list_of(self.entries(), id).contains(k) <==> (self.alias_map().contains_key(k)
                && self.alias_map()[k] == id),
    {
        self.lemma_entries();
        lemma_alias_list_members(self.entries(), id, k);
        if self.alias_map().contains_key(k) && self.alias_map()[k] == id {
            let i = choose|i: int| 0 <= i < self.entries().len() && #[trigger] self.entries()[i].0 == k;
            assert(self.entries()[i] == (k, id));
        }
    }

    /// An empty index.
    pub fn new() -> (r: AliasIndexes)
        ensures
            r.wf(),
            r.alias_map() == Map::<KeyView, u64>::empty(),
            r.context_ids() == Seq::<u64>::empty(),
    {
        AliasIndexes { by_alias: Vec::new(), contexts: Vec::new(), map: Ghost(Map::empty()) }
    }

    fn find_index(&self, key: &FileContextKey) -> (r: Option<usize>)
        requires
            self.wf(),
        ensures
            match r {
                Some(j) => j < self.by_alias@.len() && self.by_alias@[j as int].0@ == key@,
                None => !self.map@.contains_key(key@),
            },
    {
        let mut i: usize = 0;
        while i < self.by_alias.len()
            invariant
                self.wf(),
                0 <= i <= self.by_alias@.len(),
                forall|j: int| 0 <= j < i ==> self.by_alias@[j].0@ != key@,
            decreases self.by_alias@.len() - i,
        {
            if self.by_alias[i].0.same_key(key) {
                return Some(i);
            }
            i = i + 1;
        }
        None
    }

    /// The context ID that `key` resolves to, if any.
    pub fn lookup(&self, key: &FileContextKey) -> (r: Option<u64>)
        requires
            self.wf(),
        ensures
            r == self.alias_map().get(key@),
    {
        match self.find_index(key) {
            Some(j) => Some(self.by_alias[j].1),
            None => None,
        }
    }

    /// Whether `id` is in the context list.
    pub fn knows_context(&self, id: u64) -> (r: bool)
        ensures
            r == self.context_ids().contains(id),
    {
        let mut i: usize = 0;
        while i < self.contexts.len()
            invariant
                0 <= i <= self.contexts@.len(),
                forall|j: int| 0 <= j < i ==> self.contexts@[j] != id,
            decreases self.contexts@.len() - i,
        {
            if self.contexts[i] == id {
                assert(self.contexts@[i as int] == id);
                return true;
            }
            i = i + 1;
        }
        false
    }

    /// A copy of the context list.
    pub fn context_list(&self) -> (r: Vec<u64>)
        ensures
            r@ == self.context_ids(),
    {
        let mut r: Vec<u64> = Vec::new();
        let mut i: usize = 0;
        while i < self.contexts.len()
            invariant
                0 <= i <= self.contexts@.len(),
                r@ == self.contexts@.subrange(0, i as int),
            decreases self.contexts@.len() - i,
        {
            r.push(self.contexts[i]);
            assert(self.contexts@.subrange(0, i + 1) =~= self.contexts@.subrange(0, i as int).push(
                self.contexts@[i as int],
            ));
            i = i + 1;
        }
        assert(self.contexts@.subrange(0, self.contexts@.len() as int) =~= self.contexts@);
        r
    }

    /// Binds `alias` to context `id`, taking it away from any other context,
    /// and registers `id` as a known context.
    pub fn bind_alias(&mut self, alias: FileContextKey, id: u64)
        requires
            old(self).wf(),
        ensures
            final(self).wf(),
            final(self).alias_map() == old(self).alias_map().insert(alias@, id),
            final(self).context_ids() == if old(self).context_ids().contains(id) {
                old(self).context_ids()
            } else {
                old(self).context_ids().push(id)
            },
    {
        let ghost k = alias@;
        let ghost old_map = self.map@;
        let ghost old_ctx = self.contexts@;
        let ghost old_e = self.by_alias@;
        let found = self.find_index(&alias);
        let known = self.knows_context(id);
        if !known {
            self.contexts.push(id);
            assert(self.contexts@[old_ctx.len() as int] == id);
            assert forall|a: int, b: int|
                0 <= a < b < self.contexts@.len() implies self.contexts@[a] != self.contexts@[b] by {
                if b == old_ctx.len() {
                    assert(self.contexts@[a] == old_ctx[a]);
                }
            }
        }
        assert(self.contexts@.contains(id));
        assert forall|c: u64| old_ctx.contains(c) implies #[trigger] self.contexts@.contains(c) by {
            let j = choose|j: int| 0 <= j < old_ctx.len() && old_ctx[j] == c;
            assert(self.contexts@[j] == c);
        }
        match found {
            Some(j) => {
                self.by_alias.set(j, (alias, id));
                self.map = Ghost(old_map.insert(k, id));
                assert(forall|i: int|
                    0 <= i < self.by_alias@.len() && i != j ==> self.by_alias@[i] == old_e[i]);
                assert forall|kk: KeyView| self.map@.contains_key(kk) implies exists|i: int|
                    0 <= i < self.by_alias@.len() && #[trigger] self.by_alias@[i].0@ == kk by {
                    if kk == k {
                        assert(self.by_alias@[j as int].0@ == kk);
                    } else {
                        let i = choose|i: int| 0 <= i < old_e.len() && #[trigger] old_e[i].0@ == kk;
                        assert(self.by_alias@[i].0@ == kk);
                    }
                }
                assert forall|kk: KeyView| self.map@.contains_key(kk) implies #[trigger] self.contexts@.contains(
                    self.map@[kk],
                ) by {
                    if kk != k {
                        assert(old_ctx.contains(old_map[kk]));
                    }
                }
            },
            None => {
                self.by_alias.push((alias, id));
                self.map = Ghost(old_map.insert(k, id));
                assert forall|kk: KeyView| self.map@.contains_key(kk) implies exists|i: int|
                    0 <= i < self.by_alias@.len() && #[trigger] self.by_alias@[i].0@ == kk by {
                    if kk == k {
                        assert(self.by_alias@[old_e.len() as int].0@ == kk);
                    } else {
                        let i = choose|i: int| 0 <= i < old_e.len() && #[trigger] old_e[i].0@ == kk;
                        assert(self.by_alias@[i].0@ == kk);
                    }
                }
                assert forall|i: int| 0 <= i < old_e.len() implies old_e[i].0@ != k by {
                    assert(old_map.contains_key(old_e[i].0@));
                }
                assert forall|kk: KeyView| self.map@.contains_key(kk) implies #[trigger] self.contexts@.contains(
                    self.map@[kk],
                ) by {
                    if kk != k {
                        assert(old_ctx.contains(old_map[kk]));
                    }
                }
            },
        }
    }

    /// Removes `id` from the context list and every alias that resolves to it.
    pub fn remove_context_aliases(&mut self, id: u64)
        requires
            old(self).wf(),
        ensures
            final(self).wf(),
            final(self).alias_map() == without_context(old(self).alias_map(), id),
            final(self).context_ids() == old(self).context_ids().filter(other_than(id)),
    {
        let ghost old_map = self.map@;
        let ghost old_e = self.by_alias@;
        let ghost old_ctx = self.contexts@;
        let ghost new_map = without_context(old_map, id);
        let ghost pe = |e: (FileContextKey, u64)| e.1 != id;
        let mut kept: Vec<(FileContextKey, u64)> = Vec::new();
        let mut i: usize = 0;
        while i < self.by_alias.len()
            invariant
                self.wf(),
                self.by_alias@ == old_e,
                self.map@ == old_map,
                new_map == without_context(old_map, id),
                0 <= i <= old_e.len(),
                forall|t: int|
                    0 <= t < kept@.len() ==> new_map.contains_key(#[trigger] kept@[t].0@)
                        && new_map[kept@[t].0@] == kept@[t].1,
                forall|t: int|
                    #![trigger old_e[t]]
                    0 <= t < i && old_e[t].1 != id ==> exists|s: int|
                        0 <= s < kept@.len() && #[trigger] kept@[s].0@ == old_e[t].0@,
                forall|s: int|
                    0 <= s < kept@.len() ==> exists|t: int|
                        0 <= t < i && old_e[t].0@ == #[trigger] kept@[s].0@,
                forall|a: int, b: int| 0 <= a < b < kept@.len() ==> kept@[a].0@ != kept@[b].0@,
            decreases old_e.len() - i,
        {
            if self.by_alias[i].1 != id {
                let e = (self.by_alias[i].0.copy_key(), self.by_alias[i].1);
                let ghost before = kept@;
                kept.push(e);
                proof {
                    assert(old_map.contains_key(old_e[i as int].0@));
                    assert(old_map[old_e[i as int].0@] == old_e[i as int].1);
                    assert(new_map.contains_key(old_e[i as int].0@));
                    assert(kept@[before.len() as int].0@ == old_e[i as int].0@);
                    assert forall|t: int|
                        0 <= t < kept@.len() implies new_map.contains_key(#[trigger] kept@[t].0@)
                        && new_map[kept@[t].0@] == kept@[t].1 by {
                        if t < before.len() {
                            assert(kept@[t] == before[t]);
                        }
                    }
                    assert forall|a: int, b: int|
                        0 <= a < b < kept@.len() implies kept@[a].0@ != kept@[b].0@ by {
                        if b == kept@.len() - 1 {
                            let t = choose|t: int| 0 <= t < i && old_e[t].0@ == #[trigger] before[a].0@;
                            assert(kept@[a] == before[a]);
                        }
                    }
                    assert forall|t: int|
                        #![trigger old_e[t]]
                        0 <= t < i + 1 && old_e[t].1 != id implies exists|s: int|
                        0 <= s < kept@.len() && #[trigger] kept@[s].0@ == old_e[t].0@ by {
                        if t == i {
                            assert(kept@[before.len() as int].0@ == old_e[t].0@);
                        } else {
                            let s = choose|s: int| 0 <= s < before.len() && #[trigger] before[s].0@ == old_e[t].0@;
                            assert(kept@[s] == before[s]);
                        }
                    }
                    assert forall|s: int| 0 <= s < kept@.len() implies exists|t: int|
                        0 <= t < i + 1 && old_e[t].0@ == #[trigger] kept@[s].0@ by {
                        if s == before.len() {
                            assert(old_e[i as int].0@ == kept@[s].0@);
                        } else {
                            assert(kept@[s] == before[s]);
                        }
                    }
                }
            }
            i = i + 1;
        }
        assert(i == old_e.len());
        let ghost kept_v = kept@;
        self.by_alias = kept;
        self.map = Ghost(new_map);
        let mut ctx: Vec<u64> = Vec::new();
        let mut j: usize = 0;
        let ghost pc = other_than(id);
        while j < self.contexts.len()
            invariant
                self.contexts@ == old_ctx,
                pc == other_than(id),
                0 <= j <= old_ctx.len(),
                ctx@ == old_ctx.subrange(0, j as int).filter(pc),
            decreases old_ctx.len() - j,
        {
            let c = self.contexts[j];
            let ghost prev = ctx@;
            if c != id {
                ctx.push(c);
            }
            proof {
                reveal(Seq::filter);
                let sub = old_ctx.subrange(0, j + 1);
                assert(sub.drop_last() =~= old_ctx.subrange(0, j as int));
                assert(sub.last() == c);
                assert(pc(c) == (c != id));
                assert(ctx@ == sub.filter(pc));
            }
            j = j + 1;
        }
        assert(old_ctx.subrange(0, old_ctx.len() as int) =~= old_ctx);
        self.contexts = ctx;
        proof {
            broadcast use vstd::seq_lib::group_filter_ensures;
            let nc = self.contexts@;
            assert forall|a: int, b: int| 0 <= a < b < nc.len() implies nc[a] != nc[b] by {
                lemma_filter_distinct(old_ctx, pc, a, b);
            }
            assert forall|k: KeyView| new_map.contains_key(k) implies #[trigger] nc.contains(
                new_map[k],
            ) by {
                assert(old_ctx.contains(old_map[k]));
                let t = choose|t: int| 0 <= t < old_ctx.len() && old_ctx[t] == old_map[k];
                assert(pc(old_ctx[t]));
            }
            assert forall|kk: KeyView| self.map@.contains_key(kk) implies exists|s: int|
                0 <= s < self.by_alias@.len() && #[trigger] self.by_alias@[s].0@ == kk by {
                let t = choose|t: int| 0 <= t < old_e.len() && #[trigger] old_e[t].0@ == kk;
                assert(old_map[kk] == old_e[t].1);
                assert(old_e[t].1 != id);
                assert(0 <= t < i);
                let s = choose|s: int| 0 <= s < kept_v.len() && #[trigger] kept_v[s].0@ == old_e[t].0@;
                assert(self.by_alias@[s].0@ == kk);
            }
        }
    }

    /// Removes `alias` when it resolves to `id`; drops `id` from the context
    /// list once no alias resolves to it any more.
    pub fn remove_alias(&mut self, id: u64, alias: &FileContextKey)
        requires
            old(self).wf(),
        ensures
            final(self).wf(),
            old(self).alias_map().get(alias@) != Some(id) ==> final(self).alias_map() == old(
                self,
            ).alias_map() && final(self).context_ids() == old(self).context_ids(),
            old(self).alias_map().get(alias@) == Some(id) ==> {
                &&& final(self).alias_map() == old(self).alias_map().remove(alias@)
                &&& final(self).context_ids() == if has_alias_for(
                    old(self).alias_map().remove(alias@),
                    id,
                ) {
                    old(self).context_ids()
                } else {
                    old(self).context_ids().filter(other_than(id))
                }
            },
    {
        let ghost old_map = self.map@;
        let ghost old_e = self.by_alias@;
        let ghost old_ctx = self.contexts@;
        let j = match self.find_index(alias) {
            Some(j) => j,
            None => {
                return ;
            },
        };
        if self.by_alias[j].1 != id {
            return ;
        }
        let ghost k = alias@;
        let _removed = self.by_alias.remove(j);
        self.map = Ghost(old_map.remove(k));
        proof {
            let ne = self.by_alias@;
            assert forall|i: int| 0 <= i < ne.len() implies self.map@.contains_key(
                #[trigger] ne[i].0@,
            ) && self.map@[ne[i].0@] == ne[i].1 by {
                if i < j {
                    assert(ne[i] == old_e[i]);
                } else {
                    assert(ne[i] == old_e[i + 1]);
                }
            }
            assert forall|kk: KeyView| self.map@.contains_key(kk) implies exists|i: int|
                0 <= i < ne.len() && #[trigger] ne[i].0@ == kk by {
                let t = choose|t: int| 0 <= t < old_e.len() && #[trigger] old_e[t].0@ == kk;
                if t < j {
                    assert(ne[t] == old_e[t]);
                } else {
                    assert(t != j);
                    assert(ne[t - 1] == old_e[t]);
                }
            }
            assert forall|a: int, b: int| 0 <= a < b < ne.len() implies ne[a].0@ != ne[b].0@ by {
                let a2 = if a < j { a } else { a + 1 };
                let b2 = if b < j { b } else { b + 1 };
                assert(ne[a] == old_e[a2]);
                assert(ne[b] == old_e[b2]);
            }
            assert forall|kk: KeyView| self.map@.contains_key(kk) implies #[trigger] self.contexts@.contains(
                self.map@[kk],
            ) by {
                assert(old_map.contains_key(kk));
            }
        }
        let mut still_used = false;
        let mut i: usize = 0;
        while i < self.by_alias.len()
            invariant
                self.wf(),
                0 <= i <= self.by_alias@.len(),
                still_used == exists|t: int| 0 <= t < i && #[trigger] self.by_alias@[t].1 == id,
            decreases self.by_alias@.len() - i,
        {
            if self.by_alias[i].1 == id {
                still_used = true;
            }
            i = i + 1;
        }
        proof {
            if still_used {
                let t = choose|t: int| 0 <= t < self.by_alias@.len() && #[trigger] self.by_alias@[t].1 == id;
                assert(self.map@.contains_key(self.by_alias@[t].0@));
                assert(has_alias_for(old_map.remove(k), id));
            } else {
                assert forall|kk: KeyView| self.map@.contains_key(kk) implies self.map@[kk] != id by {
                    let t = choose|t: int| 0 <= t < self.by_alias@.len() && #[trigger] self.by_alias@[t].0@ == kk;
                }
                assert(!has_alias_for(old_map.remove(k), id));
            }
        }
        if !still_used {
            let mut ctx: Vec<u64> = Vec::new();
            let mut t: usize = 0;
            let ghost pc = other_than(id);
            while t < self.contexts.len()
                invariant
                    self.contexts@ == old_ctx,
                    self.wf(),
                    pc == other_than(id),
                    0 <= t <= old_ctx.len(),
                    ctx@ == old_ctx.subrange(0, t as int).filter(pc),
                decreases old_ctx.len() - t,
            {
                let c = self.contexts[t];
                if c != id {
                    ctx.push(c);
                }
                proof {
                    reveal(Seq::filter);
                    let sub = old_ctx.subrange(0, t + 1);
                    assert(sub.drop_last() =~= old_ctx.subrange(0, t as int));
                    assert(sub.last() == c);
                    assert(pc(c) == (c != id));
                    assert(ctx@ == sub.filter(pc));
                }
                t = t + 1;
            }
            assert(old_ctx.subrange(0, old_ctx.len() as int) =~= old_ctx);
            let ghost ba = self.by_alias@;
            let ghost mm = self.map@;
            assert(forall|kk: KeyView| mm.contains_key(kk) ==> exists|i: int| 0 <= i < ba.len() && #[trigger] ba[i].0@ == kk);
            self.contexts = ctx;
            assert(self.by_alias@ == ba && self.map@ == mm);
            proof {
                broadcast use vstd::seq_lib::group_filter_ensures;
                let nc = self.contexts@;
                assert forall|a: int, b: int| 0 <= a < b < nc.len() implies nc[a] != nc[b] by {
                    lemma_filter_distinct(old_ctx, pc, a, b);
                }
                assert forall|kk: KeyView| self.map@.contains_key(kk) implies #[trigger] nc.contains(
                    self.map@[kk],
                ) by {
                    let t = choose|t: int| 0 <= t < self.by_alias@.len() && #[trigger] self.by_alias@[t].0@ == kk;
                    assert(self.map@[kk] != id);
                    assert(old_ctx.contains(old_map[kk]));
                    let s = choose|s: int| 0 <= s < old_ctx.len() && old_ctx[s] == old_map[kk];
                    assert(pc(old_ctx[s]));
                }
            }
        }
    }

    /// Copies of the aliases of context `id`, in index order.
    pub fn aliases_of(&self, id: u64) -> (r: Vec<FileContextKey>)
        ensures
            r@.map_values(|k: FileContextKey| k@) == alias_list_of(self.entries(), id),
    {
        let ghost es = self.entries();
        let mut r: Vec<FileContextKey> = Vec::new();
        let mut i: usize = 0;
        while i < self.by_alias.len()
            invariant
                0 <= i <= self.by_alias@.len(),
                es == self.entries(),
                es.len() == self.by_alias@.len(),
                r@.map_values(|k: FileContextKey| k@) == alias_list_of(es.subrange(0, i as int), id),
            decreases self.by_alias@.len() - i,
        {
            let ghost before = r@.map_values(|k: FileContextKey| k@);
            assert(es.subrange(0, i + 1).drop_last() =~= es.subrange(0, i as int));
            assert(es.subrange(0, i + 1).last() == (self.by_alias@[i as int].0@, self.by_alias@[i as int].1));
            if self.by_alias[i].1 == id {
                r.push(self.by_alias[i].0.copy_key());
                assert(r@.map_values(|k: FileContextKey| k@) =~= before.push(self.by_alias@[i as int].0@));
            }
            i = i + 1;
        }
        assert(es.subrange(0, es.len() as int) =~= es);
        r
    }

    /// The first alias of `id` in index order; with `index_only`, the first
    /// file-index alias.
    pub fn first_alias(&self, id: u64, index_only: bool) -> (r: Option<FileContextKey>)
        ensures
            match r {
                Some(k) => first_alias_of(self.entries(), id, index_only) == Some(k@),
                None => first_alias_of(self.entries(), id, index_only) is None,
            },
    {
        let n = self.by_alias.len();
        let ghost es = self.entries();
        let mut i: usize = 0;
        assert(es.subrange(0, n as int) =~= es);
        while i < n
            invariant
                0 <= i <= n,
                n == self.by_alias@.len(),
                es == self.entries(),
                es.len() == n,
                first_alias_of(es, id, index_only) == first_alias_of(
                    es.subrange(i as int, n as int),
                    id,
                    index_only,
                ),
            decreases n - i,
        {
            let ghost rest = es.subrange(i as int, n as int);
            assert(rest[0] == es[i as int]);
            assert(es[i as int] == (self.by_alias@[i as int].0@, self.by_alias@[i as int].1));
            if self.by_alias[i].1 == id && (!index_only || self.by_alias[i].0.is_file_index()) {
                return Some(self.by_alias[i].0.copy_key());
            }
            assert(rest.drop_first() =~= es.subrange(i + 1, n as int));
            i = i + 1;
        }
        None
    }
}

proof fn lemma_filter_distinct(s: Seq<u64>, p: spec_fn(u64) -> bool, a: int, b: int)
    requires
        forall|i: int, j: int| 0 <= i < j < s.len() ==> s[i] != s[j],
        0 <= a < b < s.filter(p).len(),
    ensures
        s.filter(p)[a] != s.filter(p)[b],
    decreases s.len(),
{
    reveal(Seq::filter);
    broadcast use vstd::seq_lib::group_filter_ensures;
    if s.len() > 0 {
        let sub = s.drop_last().filter(p);
        assert forall|i: int, j: int|
            0 <= i < j < s.drop_last().len() implies s.drop_last()[i] != s.drop_last()[j] by {
            assert(s.drop_last()[i] == s[i]);
            assert(s.drop_last()[j] == s[j]);
        }
        if p(s.last()) {
            if b < sub.len() {
                lemma_filter_distinct(s.drop_last(), p, a, b);
            } else {
                assert(s.filter(p)[b] == s.last());
                assert(s.filter(p)[a] == sub[a]);
                if sub[a] == s.last() {
                    assert(sub.contains(sub[a]));
                    s.drop_last().lemma_filter_contains_rev(p, sub[a]);
                    assert(s.drop_last().contains(sub[a]));
                    let t = choose|t: int| 0 <= t < s.drop_last().len() && s.drop_last()[t] == sub[a];
                    assert(s[t] == s[s.len() - 1]);
                }
            }
        } else {
            lemma_filter_distinct(s.drop_last(), p, a, b);
        }
    }
}

} // verus!
