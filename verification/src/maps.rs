//! Facts about sub-maps used to follow cache tiers through a sequence of
//! operations, each of which may also evict entries.

use vstd::prelude::*;

verus! {

/// Being a sub-map is transitive.
pub proof fn lemma_submap_trans<K, V>(a: Map<K, V>, b: Map<K, V>, c: Map<K, V>)
    requires
        a.submap_of(b),
        b.submap_of(c),
    ensures
        a.submap_of(c),
{
    assert forall|k: K| #[trigger] a.contains_key(k) implies c.contains_key(k) && a[k] == c[k] by {
        assert(b.contains_key(k));
    }
}

/// Inserting or removing the same key on both sides keeps a sub-map a sub-map.
pub proof fn lemma_submap_update<K, V>(a: Map<K, V>, b: Map<K, V>, k: K, v: V)
    requires
        a.submap_of(b),
    ensures
        a.insert(k, v).submap_of(b.insert(k, v)),
        a.remove(k).submap_of(b.remove(k)),
        a.remove(k).submap_of(b),
{
}

/// A later write to the key of an earlier write replaces it.
pub proof fn lemma_submap_overwrite<K, V>(a: Map<K, V>, b: Map<K, V>, k: K, v: V, w: V)
    requires
        a.submap_of(b.insert(k, v)),
    ensures
        a.insert(k, w).submap_of(b.insert(k, w)),
        a.remove(k).submap_of(b.remove(k)),
{
    assert forall|x: K| #[trigger] a.remove(k).contains_key(x) implies b.remove(k).contains_key(x)
        && a.remove(k)[x] == b.remove(k)[x] by {
        assert(b.insert(k, v).contains_key(x));
    }
    assert forall|x: K| #[trigger] a.insert(k, w).contains_key(x) implies b.insert(
        k,
        w,
    ).contains_key(x) && a.insert(k, w)[x] == b.insert(k, w)[x] by {
        if x != k {
            assert(b.insert(k, v).contains_key(x));
        }
    }
}

/// A sub-map of a map without `k` does not hold `k`, and a sub-map of `b`
/// without `k` is a sub-map of `b`.
pub proof fn lemma_submap_removed<K, V>(a: Map<K, V>, b: Map<K, V>, k: K)
    requires
        a.submap_of(b.remove(k)),
    ensures
        !a.contains_key(k),
        a.submap_of(b),
{
    if a.contains_key(k) {
        assert(b.remove(k).contains_key(k));
    }
    assert forall|x: K| #[trigger] a.contains_key(x) implies b.contains_key(x) && a[x] == b[x] by {
        assert(b.remove(k).contains_key(x));
    }
}

/// A sub-map of a map without `k` is a sub-map of that map with any value at `k`.
pub proof fn lemma_submap_without_into_insert<K, V>(a: Map<K, V>, b: Map<K, V>, k: K, v: V)
    requires
        a.submap_of(b),
        !a.contains_key(k),
    ensures
        a.submap_of(b.insert(k, v)),
        a.submap_of(b.remove(k)),
{
}

/// A key of a sub-map is a key of the larger map, with the same value.
pub proof fn lemma_submap_contains<K, V>(a: Map<K, V>, b: Map<K, V>, x: K)
    requires
        a.submap_of(b),
        a.contains_key(x),
    ensures
        b.contains_key(x),
        a[x] == b[x],
{
    assert(a.dom().contains(x) && b.dom().contains(x));
}

/// A prefix one element longer contains exactly that element more.
pub proof fn lemma_prefix_contains<T>(s: Seq<T>, i: int)
    requires
        0 <= i < s.len(),
    ensures
        forall|x: T|
            #[trigger] s.subrange(0, i + 1).contains(x) <==> (s.subrange(0, i).contains(x) || x
                == s[i]),
{
    assert forall|x: T| #[trigger] s.subrange(0, i + 1).contains(x) <==> (s.subrange(
        0,
        i,
    ).contains(x) || x == s[i]) by {
        if s.subrange(0, i + 1).contains(x) {
            let j = choose|j: int| 0 <= j < i + 1 && #[trigger] s.subrange(0, i + 1)[j] == x;
            if j < i {
                assert(s.subrange(0, i)[j] == x);
            }
        }
        if s.subrange(0, i).contains(x) {
            let j = choose|j: int| 0 <= j < i && #[trigger] s.subrange(0, i)[j] == x;
            assert(s.subrange(0, i + 1)[j] == x);
        }
        if x == s[i] {
            assert(s.subrange(0, i + 1)[i] == x);
        }
    }
}

/// Removing an element of a sequence without duplicates leaves one without
/// duplicates that holds every element but the removed one.
pub proof fn lemma_distinct_remove<T>(s: Seq<T>, i: int)
    requires
        s.no_duplicates(),
        0 <= i < s.len(),
    ensures
        s.remove(i).no_duplicates(),
        s.remove(i).to_set() == s.to_set().remove(s[i]),
{
    let t = s.remove(i);
    assert forall|a: int, b: int| 0 <= a < b < t.len() implies t[a] != t[b] by {
        let a2 = if a < i {
            a
        } else {
            a + 1
        };
        let b2 = if b < i {
            b
        } else {
            b + 1
        };
        assert(t[a] == s[a2]);
        assert(t[b] == s[b2]);
    }
    assert forall|x: T| t.to_set().contains(x) <==> s.to_set().remove(s[i]).contains(x) by {
        if t.contains(x) {
            let j = choose|j: int| 0 <= j < t.len() && #[trigger] t[j] == x;
            let j2 = if j < i {
                j
            } else {
                j + 1
            };
            assert(s[j2] == x);
            assert(s.contains(x));
        }
        if s.contains(x) && x != s[i] {
            let j = choose|j: int| 0 <= j < s.len() && #[trigger] s[j] == x;
            let j2 = if j < i {
                j
            } else {
                j - 1
            };
            assert(t[j2] == x);
            assert(t.contains(x));
        }
    }
    assert(t.to_set() =~= s.to_set().remove(s[i]));
}

/// Appending an element a sequence without duplicates lacks keeps it
/// without duplicates and adds the element to its set.
pub proof fn lemma_distinct_push<T>(s: Seq<T>, x: T)
    requires
        s.no_duplicates(),
        !s.to_set().contains(x),
    ensures
        s.push(x).no_duplicates(),
        s.push(x).to_set() == s.to_set().insert(x),
{
    let t = s.push(x);
    assert forall|a: int, b: int| 0 <= a < b < t.len() implies t[a] != t[b] by {
        if b == t.len() - 1 {
            assert(t[a] == s[a]);
            assert(s.contains(s[a]));
        } else {
            assert(t[a] == s[a] && t[b] == s[b]);
        }
    }
    assert forall|y: T| t.to_set().contains(y) <==> s.to_set().insert(x).contains(y) by {
        if t.contains(y) {
            let j = choose|j: int| 0 <= j < t.len() && #[trigger] t[j] == y;
            if j < s.len() {
                assert(s[j] == y);
                assert(s.contains(y));
            }
        }
        if s.contains(y) {
            let j = choose|j: int| 0 <= j < s.len() && #[trigger] s[j] == y;
            assert(t[j] == y);
            assert(t.contains(y));
        }
        if y == x {
            assert(t[s.len() as int] == y);
            assert(t.contains(y));
        }
    }
    assert(t.to_set() =~= s.to_set().insert(x));
}

} // verus!
