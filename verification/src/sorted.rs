//! The order of texts, and lists that are kept in that order without
//! repetitions.

use vstd::prelude::*;
use vstd::utf8::{encode_utf8, encode_utf8_decode_utf8};
use crate::text::strs;

verus! {

/// One byte string stands before another: at the first place where they
/// differ it has the smaller byte, or it ends there and the other does
/// not.
pub open spec fn bytes_lt(a: Seq<u8>, b: Seq<u8>) -> bool
    decreases a.len(),
{
    if b.len() == 0 {
        false
    } else if a.len() == 0 {
        true
    } else if a[0] != b[0] {
        a[0] < b[0]
    } else {
        bytes_lt(a.skip(1), b.skip(1))
    }
}

/// One text stands before another: its UTF-8 bytes do.
pub open spec fn text_lt(a: Seq<char>, b: Seq<char>) -> bool {
    bytes_lt(encode_utf8(a), encode_utf8(b))
}

/// Every text stands before the texts after it.
pub open spec fn ascending(v: Seq<Seq<char>>) -> bool {
    forall|i: int, j: int| 0 <= i < j < v.len() ==> text_lt(v[i], v[j])
}

/// Of two byte strings either one stands before the other, or they are
/// the same; never more than one of the three.
pub proof fn lemma_bytes_order(a: Seq<u8>, b: Seq<u8>)
    ensures
        bytes_lt(a, b) || a == b || bytes_lt(b, a),
        !(bytes_lt(a, b) && bytes_lt(b, a)),
        !(bytes_lt(a, b) && a == b),
    decreases a.len(),
{
    if a.len() > 0 && b.len() > 0 && a[0] == b[0] {
        lemma_bytes_order(a.skip(1), b.skip(1));
        if a.skip(1) == b.skip(1) {
            assert(a =~= seq![a[0]] + a.skip(1));
            assert(b =~= seq![b[0]] + b.skip(1));
        }
    } else if a.len() == 0 && b.len() == 0 {
        assert(a =~= b);
    }
}

/// What stands before something that stands before a third stands before
/// the third.
pub proof fn lemma_bytes_lt_transitive(a: Seq<u8>, b: Seq<u8>, c: Seq<u8>)
    requires
        bytes_lt(a, b),
        bytes_lt(b, c),
    ensures
        bytes_lt(a, c),
    decreases a.len(),
{
    if a.len() > 0 && a[0] == b[0] && b[0] == c[0] {
        lemma_bytes_lt_transitive(a.skip(1), b.skip(1), c.skip(1));
    }
}

/// Two byte strings that agree on their first `n` bytes stand in the order
/// of what follows.
pub proof fn lemma_bytes_lt_after_prefix(a: Seq<u8>, b: Seq<u8>, n: int)
    requires
        0 <= n <= a.len(),
        n <= b.len(),
        a.take(n) == b.take(n),
    ensures
        bytes_lt(a, b) == bytes_lt(a.skip(n), b.skip(n)),
        a == b <==> a.skip(n) == b.skip(n),
    decreases n,
{
    if n > 0 {
        assert(a[0] == a.take(n)[0]);
        assert(b[0] == b.take(n)[0]);
        assert(a.skip(1).take(n - 1) =~= a.take(n).skip(1));
        assert(b.skip(1).take(n - 1) =~= b.take(n).skip(1));
        lemma_bytes_lt_after_prefix(a.skip(1), b.skip(1), n - 1);
        assert(a.skip(1).skip(n - 1) =~= a.skip(n));
        assert(b.skip(1).skip(n - 1) =~= b.skip(n));
        if a.skip(n) == b.skip(n) {
            assert(a =~= a.take(n) + a.skip(n));
            assert(b =~= b.take(n) + b.skip(n));
        }
    } else {
        assert(a.skip(0) =~= a);
        assert(b.skip(0) =~= b);
    }
}

/// Texts are the same exactly when their UTF-8 bytes are.
pub proof fn lemma_same_bytes_same_text(a: Seq<char>, b: Seq<char>)
    ensures
        a == b <==> encode_utf8(a) == encode_utf8(b),
{
    encode_utf8_decode_utf8(a);
    encode_utf8_decode_utf8(b);
}

/// How two texts stand to each other.
#[derive(Clone, Copy, Debug, PartialEq, Eq, Structural)]
pub enum Standing {
    /// The first stands before the second.
    Before,
    /// They are the same text.
    Same,
    /// The first stands after the second.
    After,
}

/// How one text stands to another.
pub open spec fn spec_standing(a: Seq<char>, b: Seq<char>) -> Standing {
    if text_lt(a, b) {
        Standing::Before
    } else if a == b {
        Standing::Same
    } else {
        Standing::After
    }
}

/// Finds how one text stands to another, by their bytes.
pub fn standing(a: &str, b: &str) -> (r: Standing)
    ensures
        r == spec_standing(a@, b@),
        r == Standing::After <==> text_lt(b@, a@),
{
    let x = a.as_bytes();
    let y = b.as_bytes();
    proof {
        lemma_same_bytes_same_text(a@, b@);
        lemma_bytes_order(x@, y@);
    }
    let mut i: usize = 0;
    assert(x@.take(0) =~= y@.take(0));
    while i < x.len() && i < y.len()
        invariant
            i <= x.len(),
            i <= y.len(),
            x@ == encode_utf8(a@),
            y@ == encode_utf8(b@),
            x@.take(i as int) == y@.take(i as int),
        decreases x.len() - i,
    {
        if x[i] != y[i] {
            proof {
                lemma_same_bytes_same_text(a@, b@);
                lemma_bytes_order(x@, y@);
                lemma_bytes_lt_after_prefix(x@, y@, i as int);
                lemma_bytes_lt_after_prefix(y@, x@, i as int);
                assert(x@.skip(i as int)[0] == x@[i as int]);
                assert(y@.skip(i as int)[0] == y@[i as int]);
                assert(x@.skip(i as int) != y@.skip(i as int));
            }
            if x[i] < y[i] {
                return Standing::Before;
            } else {
                return Standing::After;
            }
        }
        assert(x@.take(i + 1) =~= x@.take(i as int).push(x@[i as int]));
        assert(y@.take(i + 1) =~= y@.take(i as int).push(y@[i as int]));
        i += 1;
    }
    proof {
        lemma_bytes_lt_after_prefix(x@, y@, i as int);
        lemma_bytes_lt_after_prefix(y@, x@, i as int);
        if i == x.len() && i == y.len() {
            assert(x@.skip(i as int) =~= y@.skip(i as int));
        }
    }
    if x.len() < y.len() {
        Standing::Before
    } else if x.len() > y.len() {
        assert(x@.skip(i as int) != y@.skip(i as int));
        Standing::After
    } else {
        Standing::Same
    }
}

/// `list` holds the texts of `found`, each once, in ascending order.
pub open spec fn sorted_unique_of(list: Seq<Seq<char>>, found: Seq<Seq<char>>) -> bool {
    &&& ascending(list)
    &&& forall|t: Seq<char>| list.contains(t) <==> found.contains(t)
}

/// The texts, each once, in ascending order.
pub fn sorted_unique<'a>(found: &Vec<&'a str>) -> (r: Vec<&'a str>)
    ensures
        sorted_unique_of(strs(r@), strs(found@)),
{
    let mut out: Vec<&'a str> = Vec::new();
    let mut i: usize = 0;
    assert(strs(found@).take(0) =~= Seq::empty());
    while i < found.len()
        invariant
            i <= found.len(),
            sorted_unique_of(strs(out@), strs(found@).take(i as int)),
        decreases found.len() - i,
    {
        let x: &'a str = found[i];
        let ghost before = strs(out@);
        let ghost seen = strs(found@).take(i as int);
        // The first place whose text does not stand before `x`.
        let mut p: usize = 0;
        let mut same = false;
        let mut searching = true;
        while searching && p < out.len()
            invariant
                p <= out.len(),
                before == strs(out@),
                forall|j: int| 0 <= j < p ==> text_lt(before[j], x@),
                !searching ==> p < out.len() && !text_lt(before[p as int], x@),
                !searching ==> same == (before[p as int] == x@),
                searching ==> !same,
            decreases out.len() - p + if searching { 1int } else { 0int },
        {
            match standing(out[p], x) {
                Standing::Before => {
                    p += 1;
                },
                Standing::Same => {
                    same = true;
                    searching = false;
                },
                Standing::After => {
                    searching = false;
                },
            }
        }
        proof {
            assert(seen.push(x@) =~= strs(found@).take(i + 1));
            assert(strs(found@)[i as int] == x@);
        }
        if !same {
            out.insert(p, x);
            proof {
                let after = strs(out@);
                assert(after =~= before.insert(p as int, x@));
                assert forall|a: int, b: int| 0 <= a < b < after.len() implies text_lt(
                    after[a],
                    after[b],
                ) by {
                    let a0 = if a < p { a } else { a - 1 };
                    let b0 = if b < p { b } else { b - 1 };
                    if a == p {
                        // x stands before everything from its place on
                        assert(after[b] == before[b - 1]);
                        if b - 1 > p {
                            assert(text_lt(before[p as int], before[b - 1]));
                        }
                        lemma_bytes_order(encode_utf8(before[p as int]), encode_utf8(x@));
                        lemma_same_bytes_same_text(before[p as int], x@);
                        if b - 1 > p {
                            lemma_bytes_lt_transitive(
                                encode_utf8(x@),
                                encode_utf8(before[p as int]),
                                encode_utf8(before[b - 1]),
                            );
                        }
                    } else if b == p {
                        assert(after[a] == before[a]);
                    } else {
                        assert(after[a] == before[a0]);
                        assert(after[b] == before[b0]);
                        assert(text_lt(before[a0], before[b0]));
                    }
                }
                assert forall|t: Seq<char>| after.contains(t) <==> seen.push(x@).contains(
                    t,
                ) by {
                    if after.contains(t) {
                        let k = choose|k: int| 0 <= k < after.len() && after[k] == t;
                        if k == p {
                            assert(seen.push(x@)[seen.len() as int] == t);
                        } else {
                            let k0 = if k < p { k } else { k - 1 };
                            assert(before[k0] == t);
                            assert(before.contains(t));
                            let m = choose|m: int| 0 <= m < seen.len() && seen[m] == t;
                            assert(seen.push(x@)[m] == t);
                        }
                    }
                    if seen.push(x@).contains(t) {
                        let m = choose|m: int| 0 <= m < seen.push(x@).len() && seen.push(x@)[m]
                            == t;
                        if m == seen.len() {
                            assert(after[p as int] == t);
                        } else {
                            assert(seen[m] == t);
                            assert(seen.contains(t));
                            let k = choose|k: int| 0 <= k < before.len() && before[k] == t;
                            let k1 = if k < p { k } else { k + 1 };
                            assert(after[k1] == t);
                        }
                    }
                }
            }
        } else {
            proof {
                assert forall|t: Seq<char>| before.contains(t) <==> seen.push(x@).contains(
                    t,
                ) by {
                    if before.contains(t) {
                        let m = choose|m: int| 0 <= m < seen.len() && seen[m] == t;
                        assert(seen.push(x@)[m] == t);
                    }
                    if seen.push(x@).contains(t) {
                        let m = choose|m: int| 0 <= m < seen.push(x@).len() && seen.push(x@)[m]
                            == t;
                        if m == seen.len() {
                            assert(before[p as int] == t);
                        } else {
                            assert(seen[m] == t);
                            assert(seen.contains(t));
                        }
                    }
                }
            }
        }
        i += 1;
    }
    assert(strs(found@).take(found.len() as int) =~= strs(found@));
    out
}

} // verus!
