//! Searching and copying lists of strings.

use vstd::prelude::*;
use crate::text::{views, str_eq};

verus! {

/// Position of the first element of `s` equal to `x`.
#[verifier::opaque]
pub open spec fn first_pos<A>(s: Seq<A>, x: A) -> Option<int> {
    if exists|i: int| 0 <= i < s.len() && s[i] == x {
        Some(choose|i: int| 0 <= i < s.len() && s[i] == x && forall|j: int| 0 <= j < i ==> s[j] != x)
    } else {
        None
    }
}

/// `first_pos` names the first occurrence.
pub proof fn lemma_first_pos<A>(s: Seq<A>, x: A, k: int)
    requires
        0 <= k < s.len(),
        s[k] == x,
        forall|j: int| 0 <= j < k ==> s[j] != x,
    ensures
        first_pos(s, x) == Some(k),
{
    reveal(first_pos);
    let m = choose|i: int| 0 <= i < s.len() && s[i] == x && forall|j: int| 0 <= j < i ==> s[j] != x;
    assert(0 <= m < s.len() && s[m] == x && forall|j: int| 0 <= j < m ==> s[j] != x);
    if m < k {
        assert(s[m] != x);
    } else if m > k {
        assert(s[k] != x);
    }
}

/// Position of the first string in `v` equal to `x`.
pub fn position_of(v: &[String], x: &str) -> (r: Option<usize>)
    ensures
        r matches Some(i) ==> i < v@.len() && first_pos(views(v@), x@) == Some(i as int)
            && views(v@)[i as int] == x@,
        r is None ==> first_pos(views(v@), x@) is None,
{
    let mut i: usize = 0;
    while i < v.len()
        invariant
            i <= v@.len(),
            forall|j: int| 0 <= j < i ==> views(v@)[j] != x@,
        decreases v@.len() - i,
    {
        if str_eq(v[i].as_str(), x) {
            assert(views(v@)[i as int] == v@[i as int]@);
            proof {
                lemma_first_pos(views(v@), x@, i as int);
            }
            return Some(i);
        }
        i = i + 1;
    }
    reveal(first_pos);
    None
}

/// When `x` occurs in `s`, `first_pos` is a position holding it with no
/// earlier occurrence.
pub proof fn lemma_first_pos_found<A>(s: Seq<A>, x: A)
    requires
        s.contains(x),
    ensures
        first_pos(s, x) matches Some(i) && 0 <= i < s.len() && s[i] == x && forall|j: int|
            0 <= j < i ==> s[j] != x,
{
    let w = choose|k: int| 0 <= k < s.len() && s[k] == x;
    lemma_first_pos_from(s, x, w);
}

/// `first_pos` finds an occurrence no later than `w`.
proof fn lemma_first_pos_from<A>(s: Seq<A>, x: A, w: int)
    requires
        0 <= w < s.len(),
        s[w] == x,
    ensures
        first_pos(s, x) matches Some(i) && 0 <= i < s.len() && s[i] == x && forall|j: int|
            0 <= j < i ==> s[j] != x,
    decreases w,
{
    if exists|j: int| 0 <= j < w && s[j] == x {
        let j = choose|j: int| 0 <= j < w && s[j] == x;
        lemma_first_pos_from(s, x, j);
    } else {
        lemma_first_pos(s, x, w);
    }
}

/// `first_pos` is `None` exactly when `x` does not occur.
pub proof fn lemma_first_pos_none<A>(s: Seq<A>, x: A)
    ensures
        first_pos(s, x) is None <==> !s.contains(x),
{
    reveal(first_pos);
}

/// Whether some string in `v` equals `x`.
pub fn contains_str(v: &[String], x: &str) -> (r: bool)
    ensures
        r == views(v@).contains(x@),
{
    match position_of(v, x) {
        Some(i) => {
            assert(views(v@)[i as int] == x@);
            true
        },
        None => {
            proof {
                lemma_first_pos_none(views(v@), x@);
            }
            false
        },
    }
}

/// A copy of `v[from..to]`.
pub fn clone_range(v: &[String], from: usize, to: usize) -> (r: Vec<String>)
    requires
        from <= to <= v@.len(),
    ensures
        r@ == v@.subrange(from as int, to as int),
{
    let mut r: Vec<String> = Vec::new();
    let mut i = from;
    while i < to
        invariant
            from <= i <= to <= v@.len(),
            r@ == v@.subrange(from as int, i as int),
        decreases to - i,
    {
        r.push(v[i].clone());
        assert(v@.subrange(from as int, i + 1) =~= v@.subrange(from as int, i as int).push(v@[i as int]));
        i = i + 1;
    }
    r
}


/// The smallest `i` in `0..n` with `p(i)`.
pub open spec fn first_index(n: int, p: spec_fn(int) -> bool) -> Option<int>
    decreases n,
{
    if n <= 0 {
        None
    } else {
        match first_index(n - 1, p) {
            Some(i) => Some(i),
            None => if p(n - 1) {
                Some(n - 1)
            } else {
                None
            },
        }
    }
}

/// The largest `i` in `0..n` with `p(i)`.
pub open spec fn last_index(n: int, p: spec_fn(int) -> bool) -> Option<int>
    decreases n,
{
    if n <= 0 {
        None
    } else if p(n - 1) {
        Some(n - 1)
    } else {
        last_index(n - 1, p)
    }
}

/// `first_index` finds the least index satisfying `p`, and none below it.
pub proof fn lemma_first_index(n: int, p: spec_fn(int) -> bool)
    ensures
        first_index(n, p) matches Some(i) ==> 0 <= i < n && p(i) && forall|j: int|
            0 <= j < i ==> !#[trigger] p(j),
        first_index(n, p) is None ==> forall|j: int| 0 <= j < n ==> !#[trigger] p(j),
    decreases n,
{
    if n > 0 {
        lemma_first_index(n - 1, p);
    }
}

/// `last_index` finds the greatest index satisfying `p`, and none above it.
pub proof fn lemma_last_index(n: int, p: spec_fn(int) -> bool)
    ensures
        last_index(n, p) matches Some(i) ==> 0 <= i < n && p(i) && forall|j: int|
            i < j < n ==> !#[trigger] p(j),
        last_index(n, p) is None ==> forall|j: int| 0 <= j < n ==> !#[trigger] p(j),
    decreases n,
{
    if n > 0 {
        lemma_last_index(n - 1, p);
    }
}

/// The positions at which each key of `keys` occurs first, in order.
pub open spec fn first_occurrences<K>(keys: Seq<K>) -> Seq<int>
    decreases keys.len(),
{
    if keys.len() == 0 {
        Seq::empty()
    } else {
        let r = first_occurrences(keys.drop_last());
        if keys.drop_last().contains(keys.last()) {
            r
        } else {
            r.push(keys.len() - 1)
        }
    }
}

/// The first occurrences are increasing positions, none preceded by an
/// equal key.
pub proof fn lemma_first_occurrences_first<K>(keys: Seq<K>)
    ensures
        forall|k: int|
            0 <= k < first_occurrences(keys).len() ==> 0 <= #[trigger] first_occurrences(keys)[k]
                < keys.len(),
        forall|k1: int, k2: int|
            0 <= k1 < k2 < first_occurrences(keys).len() ==> first_occurrences(keys)[k1]
                < first_occurrences(keys)[k2],
        forall|k: int, j: int|
            #![trigger keys[j], first_occurrences(keys)[k]]
            0 <= k < first_occurrences(keys).len() && 0 <= j < first_occurrences(keys)[k]
                ==> keys[j] != keys[first_occurrences(keys)[k]],
    decreases keys.len(),
{
    if keys.len() > 0 {
        let d = keys.drop_last();
        lemma_first_occurrences_first(d);
        let r = first_occurrences(d);
        assert forall|k: int, j: int|
            #![trigger keys[j], first_occurrences(keys)[k]]
            0 <= k < first_occurrences(keys).len() && 0 <= j < first_occurrences(keys)[k]
                implies keys[j] != keys[first_occurrences(keys)[k]] by {
            if k < r.len() {
                assert(first_occurrences(keys)[k] == r[k]);
                assert(d[j] == keys[j] && d[r[k]] == keys[r[k]]);
            } else {
                assert(d[j] == keys[j]);
            }
        }
    }
}

/// Keys at different first occurrences differ.
pub proof fn lemma_first_occurrences_distinct<K>(keys: Seq<K>)
    ensures
        forall|k1: int, k2: int|
            0 <= k1 < first_occurrences(keys).len() && 0 <= k2 < first_occurrences(keys).len()
                && k1 != k2 ==> keys[#[trigger] first_occurrences(keys)[k1]] != keys[
                #[trigger] first_occurrences(keys)[k2]],
{
    lemma_first_occurrences_first(keys);
    let f = first_occurrences(keys);
    assert forall|k1: int, k2: int|
        0 <= k1 < f.len() && 0 <= k2 < f.len() && k1 != k2 implies keys[#[trigger] f[k1]]
            != keys[#[trigger] f[k2]] by {
        if k1 < k2 {
            assert(f[k1] < f[k2]);
            assert(keys[f[k1]] != keys[f[k2]]);
        } else {
            assert(f[k2] < f[k1]);
            assert(keys[f[k2]] != keys[f[k1]]);
        }
    }
}

/// `x` is the key at one of the positions `f`.
pub open spec fn key_at_one_of<K>(keys: Seq<K>, f: Seq<int>, x: K) -> bool {
    exists|k: int| 0 <= k < f.len() && keys[#[trigger] f[k]] == x
}

/// The key at position `j` is found at one of the first occurrences.
proof fn lemma_first_occurrence_of<K>(keys: Seq<K>, j: int)
    requires
        0 <= j < keys.len(),
    ensures
        key_at_one_of(keys, first_occurrences(keys), keys[j]),
    decreases keys.len(),
{
    let d = keys.drop_last();
    lemma_first_occurrences_first(d);
    let r = first_occurrences(d);
    let f = first_occurrences(keys);
    assert(f.len() >= r.len() && forall|k: int| 0 <= k < r.len() ==> f[k] == r[k]);
    if j < d.len() {
        lemma_first_occurrence_of(d, j);
        let k = choose|k: int| 0 <= k < r.len() && d[#[trigger] r[k]] == d[j];
        assert(f[k] == r[k]);
        assert(d[r[k]] == keys[r[k]]);
    } else if d.contains(keys.last()) {
        let i = choose|i: int| 0 <= i < d.len() && d[i] == keys.last();
        lemma_first_occurrence_of(d, i);
        let k = choose|k: int| 0 <= k < r.len() && d[#[trigger] r[k]] == d[i];
        assert(f[k] == r[k]);
        assert(d[r[k]] == keys[r[k]]);
    } else {
        assert(f[r.len() as int] == keys.len() - 1);
    }
}

/// Every key of `keys` is found at one of its first occurrences.
pub proof fn lemma_first_occurrences_cover<K>(keys: Seq<K>)
    ensures
        forall|j: int|
            0 <= j < keys.len() ==> key_at_one_of(keys, first_occurrences(keys), #[trigger] keys[j]),
{
    assert forall|j: int| 0 <= j < keys.len() implies key_at_one_of(
        keys,
        first_occurrences(keys),
        #[trigger] keys[j],
    ) by {
        lemma_first_occurrence_of(keys, j);
    }
}

/// An index satisfying `p` with none before it is `first_index`; with no
/// index satisfying `p`, `first_index` is none.
pub proof fn lemma_first_index_unique(n: int, p: spec_fn(int) -> bool, i: Option<int>)
    requires
        i matches Some(k) ==> 0 <= k < n && p(k) && forall|j: int| 0 <= j < k ==> !#[trigger] p(j),
        i is None ==> forall|j: int| 0 <= j < n ==> !#[trigger] p(j),
    ensures
        first_index(n, p) == i,
    decreases n,
{
    lemma_first_index(n, p);
    if n > 0 {
        match i {
            Some(k) => {
                if k < n - 1 {
                    lemma_first_index_unique(n - 1, p, i);
                } else {
                    lemma_first_index_unique(n - 1, p, None);
                }
            },
            None => {
                lemma_first_index_unique(n - 1, p, None);
            },
        }
    }
}

/// An index satisfying `p` with none after it is `last_index`; with no
/// index satisfying `p`, `last_index` is none.
pub proof fn lemma_last_index_unique(n: int, p: spec_fn(int) -> bool, i: Option<int>)
    requires
        i matches Some(k) ==> 0 <= k < n && p(k) && forall|j: int| k < j < n ==> !#[trigger] p(j),
        i is None ==> forall|j: int| 0 <= j < n ==> !#[trigger] p(j),
    ensures
        last_index(n, p) == i,
    decreases n,
{
    if n > 0 {
        match i {
            Some(k) => {
                if k < n - 1 {
                    lemma_last_index_unique(n - 1, p, i);
                }
            },
            None => {
                lemma_last_index_unique(n - 1, p, None);
            },
        }
    }
}

/// Once found below `m`, the first index stays the same for larger bounds.
pub proof fn lemma_first_index_extends(n: int, m: int, p: spec_fn(int) -> bool)
    requires
        m <= n,
        first_index(m, p) is Some,
    ensures
        first_index(n, p) == first_index(m, p),
    decreases n - m,
{
    if n > m {
        lemma_first_index_extends(n - 1, m, p);
    }
}

/// `first_index` only looks at indices below its bound.
pub proof fn lemma_first_index_agree(n: int, p: spec_fn(int) -> bool, q: spec_fn(int) -> bool)
    requires
        forall|i: int| 0 <= i < n ==> #[trigger] p(i) == q(i),
    ensures
        first_index(n, p) == first_index(n, q),
    decreases n,
{
    if n > 0 {
        lemma_first_index_agree(n - 1, p, q);
    }
}

/// `last_index` only looks at indices below its bound.
pub proof fn lemma_last_index_agree(n: int, p: spec_fn(int) -> bool, q: spec_fn(int) -> bool)
    requires
        forall|i: int| 0 <= i < n ==> #[trigger] p(i) == q(i),
    ensures
        last_index(n, p) == last_index(n, q),
    decreases n,
{
    if n > 0 {
        lemma_last_index_agree(n - 1, p, q);
    }
}

} // verus!
