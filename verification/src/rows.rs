//! Sequences as keyed tables: the first place of a key, how often it
//! occurs, and a sequence without its repetitions.

use vstd::prelude::*;

verus! {

/// Index of the first element of `keys` equal to `k`, or `keys.len()` when
/// no element is.
pub open spec fn first_index<K>(keys: Seq<K>, k: K) -> int
    decreases keys.len(),
{
    if keys.len() == 0 {
        0
    } else {
        let p = first_index(keys.drop_last(), k);
        if p < keys.len() - 1 {
            p
        } else if keys.last() == k {
            keys.len() - 1
        } else {
            keys.len() as int
        }
    }
}

/// No two positions of `keys` hold the same key.
pub open spec fn distinct<K>(keys: Seq<K>) -> bool {
    forall|i: int, j: int| 0 <= i < j < keys.len() ==> keys[i] != keys[j]
}

/// `first_index` stays within `0 ..= len`, points at the key when it is
/// below `len`, and nothing before it holds the key.
pub proof fn lemma_first_index<K>(keys: Seq<K>, k: K)
    ensures
        0 <= first_index(keys, k) <= keys.len(),
        first_index(keys, k) < keys.len() ==> keys[first_index(keys, k)] == k,
        forall|j: int| 0 <= j < first_index(keys, k) ==> keys[j] != k,
    decreases keys.len(),
{
    if keys.len() > 0 {
        let init = keys.drop_last();
        lemma_first_index(init, k);
        assert(forall|j: int| 0 <= j < init.len() ==> init[j] == keys[j]);
    }
}

/// An index that holds the key, with no earlier index holding it, is the
/// first index.
pub proof fn lemma_first_index_is<K>(keys: Seq<K>, k: K, i: int)
    requires
        0 <= i < keys.len(),
        keys[i] == k,
        forall|j: int| 0 <= j < i ==> keys[j] != k,
    ensures
        first_index(keys, k) == i,
{
    lemma_first_index(keys, k);
}

/// A key that occurs nowhere has first index `len`.
pub proof fn lemma_first_index_absent<K>(keys: Seq<K>, k: K)
    requires
        forall|j: int| 0 <= j < keys.len() ==> keys[j] != k,
    ensures
        first_index(keys, k) == keys.len(),
{
    lemma_first_index(keys, k);
}

/// Number of positions of `keys` that hold `k`.
pub open spec fn occurrences<K>(keys: Seq<K>, k: K) -> nat
    decreases keys.len(),
{
    if keys.len() == 0 {
        0
    } else {
        occurrences(keys.drop_last(), k) + if keys.last() == k {
            1nat
        } else {
            0nat
        }
    }
}

/// Among distinct keys, a key is counted once if it occurs and never
/// otherwise.
pub proof fn lemma_occurrences_distinct<K>(keys: Seq<K>, k: K)
    requires
        distinct(keys),
    ensures
        occurrences(keys, k) == if first_index(keys, k) < keys.len() {
            1nat
        } else {
            0nat
        },
    decreases keys.len(),
{
    lemma_first_index(keys, k);
    if keys.len() > 0 {
        let init = keys.drop_last();
        assert(forall|j: int| 0 <= j < init.len() ==> init[j] == keys[j]);
        lemma_first_index(init, k);
        lemma_occurrences_distinct(init, k);
    }
}

/// The elements of `s` in order, each at its first occurrence only.
pub open spec fn first_occurrences<T>(s: Seq<T>) -> Seq<T>
    decreases s.len(),
{
    if s.len() == 0 {
        s
    } else {
        let init = first_occurrences(s.drop_last());
        if init.contains(s.last()) {
            init
        } else {
            init.push(s.last())
        }
    }
}

/// `first_occurrences` holds every element of its input once, and nothing
/// else.
pub proof fn lemma_first_occurrences<T>(s: Seq<T>)
    ensures
        first_occurrences(s).len() <= s.len(),
        distinct(first_occurrences(s)),
        forall|x: T| #[trigger] first_occurrences(s).contains(x) <==> s.contains(x),
    decreases s.len(),
{
    if s.len() > 0 {
        let init = s.drop_last();
        let last = s.last();
        let out = first_occurrences(init);
        let all = first_occurrences(s);
        lemma_first_occurrences(init);
        assert(all == if out.contains(last) {
            out
        } else {
            out.push(last)
        });
        assert forall|x: T| #[trigger] all.contains(x) <==> s.contains(x) by {
            assert(out.contains(x) <==> init.contains(x));
            if s.contains(x) {
                let i = choose|i: int| 0 <= i < s.len() && s[i] == x;
                if i < init.len() {
                    assert(init[i] == x);
                    assert(init.contains(x));
                    let j = choose|j: int| 0 <= j < out.len() && out[j] == x;
                    assert(all[j] == x);
                } else {
                    assert(x == last);
                    if out.contains(x) {
                        let j = choose|j: int| 0 <= j < out.len() && out[j] == x;
                        assert(all[j] == x);
                    } else {
                        assert(all[out.len() as int] == x);
                    }
                }
                assert(all.contains(x));
            }
            if all.contains(x) {
                let j = choose|j: int| 0 <= j < all.len() && all[j] == x;
                if j < out.len() {
                    assert(out[j] == x);
                    assert(out.contains(x));
                    let i = choose|i: int| 0 <= i < init.len() && init[i] == x;
                    assert(s[i] == x);
                } else {
                    assert(s[s.len() - 1] == x);
                }
                assert(s.contains(x));
            }
        }
        if !out.contains(last) {
            assert forall|a: int, b: int| 0 <= a < b < all.len() implies all[a] != all[b] by {
                if b == out.len() {
                    assert(out[a] == all[a]);
                    if out[a] == last {
                        assert(out.contains(last));
                    }
                } else {
                    assert(out[a] != out[b]);
                }
            }
        }
    }
}

} // verus!
