//! Orderings the views need: names in string order, events newest first.

use vstd::prelude::*;

verus! {

broadcast use vstd::seq_lib::group_to_multiset_ensures;

/// `a` sorts strictly before `b` in `String` order: lexicographic by code point,
/// which is the byte order of their UTF-8 encodings.
pub open spec fn seq_less(a: Seq<char>, b: Seq<char>) -> bool
    decreases a.len(),
{
    if a.len() == 0 {
        b.len() > 0
    } else if b.len() == 0 {
        false
    } else if a[0] != b[0] {
        (a[0] as int) < (b[0] as int)
    } else {
        seq_less(a.drop_first(), b.drop_first())
    }
}

pub open spec fn seq_le(a: Seq<char>, b: Seq<char>) -> bool {
    a == b || seq_less(a, b)
}

/// Every string is at most each string after it.
pub open spec fn sorted_strings(s: Seq<Seq<char>>) -> bool {
    forall|i: int, j: int| 0 <= i < j < s.len() ==> seq_le(#[trigger] s[i], #[trigger] s[j])
}

pub proof fn lemma_less_total(a: Seq<char>, b: Seq<char>)
    ensures
        seq_less(a, b) || a == b || seq_less(b, a),
        !(seq_less(a, b) && seq_less(b, a)),
        !seq_less(a, a),
    decreases a.len(),
{
    if a.len() > 0 && b.len() > 0 && a[0] != b[0] {
        assert((a[0] as int) != (b[0] as int));
    }
    if a.len() > 0 && b.len() > 0 && a[0] == b[0] {
        lemma_less_total(a.drop_first(), b.drop_first());
        if a.drop_first() == b.drop_first() {
            assert(a =~= seq![a[0]] + a.drop_first());
            assert(b =~= seq![b[0]] + b.drop_first());
        }
    }
    if a.len() == 0 && b.len() == 0 {
        assert(a =~= b);
    }
    if a.len() > 0 {
        lemma_less_total(a.drop_first(), a.drop_first());
    }
}

pub proof fn lemma_less_trans(a: Seq<char>, b: Seq<char>, c: Seq<char>)
    requires
        seq_less(a, b),
        seq_less(b, c),
    ensures
        seq_less(a, c),
    decreases a.len(),
{
    if a.len() > 0 && b.len() > 0 && c.len() > 0 && a[0] == b[0] && b[0] == c[0] {
        lemma_less_trans(a.drop_first(), b.drop_first(), c.drop_first());
    }
}

/// Whether `a` sorts strictly before `b`.
pub fn str_less(a: &str, b: &str) -> (r: bool)
    ensures
        r == seq_less(a@, b@),
{
    let x = crate::text::to_chars(a);
    let y = crate::text::to_chars(b);
    let mut i: usize = 0;
    assert(a@.subrange(0, a@.len() as int) =~= a@);
    assert(b@.subrange(0, b@.len() as int) =~= b@);
    while i < x.len() && i < y.len() && x[i] == y[i]
        invariant
            x@ == a@,
            y@ == b@,
            i <= x@.len(),
            i <= y@.len(),
            seq_less(a@, b@) == seq_less(a@.subrange(i as int, a@.len() as int), b@.subrange(
                i as int,
                b@.len() as int,
            )),
        decreases x@.len() - i,
    {
        proof {
            let sa = a@.subrange(i as int, a@.len() as int);
            let sb = b@.subrange(i as int, b@.len() as int);
            assert(sa.drop_first() =~= a@.subrange(i + 1, a@.len() as int));
            assert(sb.drop_first() =~= b@.subrange(i + 1, b@.len() as int));
        }
        i = i + 1;
    }
    proof {
        let sa = a@.subrange(i as int, a@.len() as int);
        let sb = b@.subrange(i as int, b@.len() as int);
        if i < x@.len() && i < y@.len() {
            assert(sa[0] == x@[i as int]);
            assert(sb[0] == y@[i as int]);
        }
    }
    if i == x.len() {
        i < y.len()
    } else if i == y.len() {
        false
    } else {
        x[i] < y[i]
    }
}

/// `v` in `String` order, as `Vec::sort` leaves it.
pub fn sort_strings(v: Vec<String>) -> (r: Vec<String>)
    ensures
        sorted_strings(r.deep_view()),
        r.deep_view().to_multiset() == v.deep_view().to_multiset(),
{
    let mut out: Vec<String> = Vec::new();
    let mut i: usize = 0;
    while i < v.len()
        invariant
            i <= v@.len(),
            sorted_strings(out.deep_view()),
            out.deep_view().to_multiset() == v.deep_view().subrange(0, i as int).to_multiset(),
        decreases v@.len() - i,
    {
        let x = v[i].clone();
        let mut p: usize = 0;
        while p < out.len() && !str_less(x.as_str(), out[p].as_str())
            invariant
                p <= out@.len(),
                forall|k: int| 0 <= k < p ==> !seq_less(x@, #[trigger] out@[k]@),
            decreases out@.len() - p,
        {
            p = p + 1;
        }
        let ghost before = out.deep_view();
        out.insert(p, x);
        proof {
            let after = out.deep_view();
            assert(after =~= before.insert(p as int, x@));
            assert(v.deep_view().subrange(0, i + 1) =~= v.deep_view().subrange(0, i as int).push(
                x@,
            ));
            assert forall|a: int, b: int| 0 <= a < b < after.len() implies seq_le(
                #[trigger] after[a],
                #[trigger] after[b],
            ) by {
                if a < p && b == p {
                    lemma_less_total(x@, before[a]);
                } else if a == p && b > p {
                    assert(seq_less(x@, before[p as int]));
                    if b - 1 > p {
                        assert(seq_le(before[p as int], before[b - 1]));
                        if seq_less(before[p as int], before[b - 1]) {
                            lemma_less_trans(x@, before[p as int], before[b - 1]);
                        }
                    }
                } else if a < p && b > p {
                    assert(seq_le(before[a], before[b - 1]));
                } else if b < p {
                    assert(seq_le(before[a], before[b]));
                } else {
                    assert(seq_le(before[a - 1], before[b - 1]));
                }
            }
        }
        i = i + 1;
    }
    assert(v.deep_view().subrange(0, i as int) =~= v.deep_view());
    out
}

// ---------------------------------------------------------------- newest first

/// `order` lists each index below `n` exactly once.
pub open spec fn is_index_permutation(order: Seq<usize>, n: nat) -> bool {
    &&& order.len() == n
    &&& forall|k: int| 0 <= k < order.len() ==> (#[trigger] order[k]) < n
    &&& forall|a: int, b: int|
        0 <= a < b < order.len() ==> #[trigger] order[a] != #[trigger] order[b]
}

/// Reading `keys` along `order` gives the keys from largest to smallest, and
/// equal keys keep their original order: the order a stable sort by
/// descending key gives.
pub open spec fn is_stable_descending(order: Seq<usize>, keys: Seq<i64>) -> bool {
    forall|a: int, b: int|
        0 <= a < b < order.len() ==> {
            &&& keys[#[trigger] order[a] as int] >= keys[#[trigger] order[b] as int]
            &&& (keys[order[a] as int] == keys[order[b] as int] ==> order[a] < order[b])
        }
}

/// The order in which a stable sort by descending key lists the indices of `keys`.
pub fn stable_order_descending(keys: &Vec<i64>) -> (order: Vec<usize>)
    ensures
        is_index_permutation(order@, keys@.len()),
        is_stable_descending(order@, keys@),
{
    let mut order: Vec<usize> = Vec::new();
    let mut i: usize = 0;
    while i < keys.len()
        invariant
            i <= keys@.len(),
            is_index_permutation(order@, i as nat),
            is_stable_descending(order@, keys@),
        decreases keys@.len() - i,
    {
        let k = keys[i];
        let mut p: usize = 0;
        while p < order.len() && !(keys[order[p]] < k)
            invariant
                p <= order@.len(),
                is_index_permutation(order@, i as nat),
                i < keys@.len(),
                k == keys@[i as int],
                forall|q: int| 0 <= q < p ==> keys@[#[trigger] order@[q] as int] >= k,
            decreases order@.len() - p,
        {
            p = p + 1;
        }
        let ghost before = order@;
        order.insert(p, i);
        proof {
            let after = order@;
            assert(after =~= before.insert(p as int, i));
            assert forall|q: int| 0 <= q < after.len() implies (#[trigger] after[q]) < i + 1 by {
                if q < p {
                    assert(after[q] == before[q]);
                } else if q > p {
                    assert(after[q] == before[q - 1]);
                }
            }
            assert forall|a: int, b: int|
                0 <= a < b < after.len() implies #[trigger] after[a] != #[trigger] after[b] by {
                if a < p && b == p {
                    assert(before[a] < i);
                } else if a == p && b > p {
                    assert(before[b - 1] < i);
                } else if a < p && b > p {
                    assert(before[a] != before[b - 1]);
                } else if b < p {
                    assert(before[a] != before[b]);
                } else if a > p {
                    assert(before[a - 1] != before[b - 1]);
                }
            }
            assert forall|a: int, b: int| 0 <= a < b < after.len() implies {
                &&& keys@[#[trigger] after[a] as int] >= keys@[#[trigger] after[b] as int]
                &&& (keys@[after[a] as int] == keys@[after[b] as int] ==> after[a] < after[b])
            } by {
                if a < p && b == p {
                    assert(keys@[before[a] as int] >= k);
                    assert(before[a] < i);
                } else if a == p && b > p {
                    assert(keys@[before[p as int] as int] < k);
                    if b - 1 > p {
                        assert(keys@[before[p as int] as int] >= keys@[before[b - 1] as int]);
                    }
                } else if a < p && b > p {
                    assert(keys@[before[a] as int] >= keys@[before[b - 1] as int]);
                } else if b < p {
                    assert(keys@[before[a] as int] >= keys@[before[b] as int]);
                } else if a > p {
                    assert(keys@[before[a - 1] as int] >= keys@[before[b - 1] as int]);
                }
            }
        }
        i = i + 1;
    }
    order
}

} // verus!
