//! Top-k selection: a stable descending sort by score and its prefix.
//!
//! The leaderboards of the monitor (busiest cores, processes by CPU, processes
//! by memory) are all instances of one operation: given scored items, return
//! the `k` highest by score, descending, ties broken by original order. The
//! sequence functions here say exactly what that means, the executable
//! functions are proved to produce it, and the proof functions state the laws
//! a caller may rely on: length, sortedness, permutation and stability.

use vstd::prelude::*;
use vstd::seq_lib::lemma_multiset_commutative;
use vstd::seq_lib::to_multiset_insert;

verus! {

/// A scored item: the identity of an element of the caller's collection
/// (typically its index there) together with its integer score.
#[derive(Clone, Copy, Debug, PartialEq, Eq, Structural)]
pub struct Scored {
    pub key: u64,
    pub score: u64,
}

/// Descending order: every earlier score is at least every later one.
pub open spec fn sorted_desc(s: Seq<Scored>) -> bool {
    forall|i: int, j: int| 0 <= i <= j < s.len() ==> s[i].score >= s[j].score
}

/// Where a stable descending insertion places `x`: after every element whose
/// score is strictly greater, and before every element already present whose
/// score is equal or smaller.
pub open spec fn insert_desc(s: Seq<Scored>, x: Scored) -> Seq<Scored>
    decreases s.len(),
{
    if s.len() == 0 {
        seq![x]
    } else if s[0].score > x.score {
        seq![s[0]] + insert_desc(s.drop_first(), x)
    } else {
        seq![x] + s
    }
}

/// Stable descending sort by score: each element is inserted into the sorted
/// rest, the first element of the input last, so that of two equal scores the
/// one earlier in the input stays earlier in the result.
pub open spec fn sort_desc(s: Seq<Scored>) -> Seq<Scored>
    decreases s.len(),
{
    if s.len() == 0 {
        Seq::<Scored>::empty()
    } else {
        insert_desc(sort_desc(s.drop_first()), s[0])
    }
}

/// The top `min(k, len)` items: the prefix of the stable descending sort.
pub open spec fn top_k_spec(s: Seq<Scored>, k: int) -> Seq<Scored> {
    sort_desc(s).take(if k <= s.len() { k } else { s.len() as int })
}

proof fn lemma_insert_desc_len(s: Seq<Scored>, x: Scored)
    ensures
        insert_desc(s, x).len() == s.len() + 1,
    decreases s.len(),
{
    if s.len() > 0 && s[0].score > x.score {
        lemma_insert_desc_len(s.drop_first(), x);
    }
}

/// The length of the stable sort equals the length of its input.
pub proof fn lemma_sort_desc_len(s: Seq<Scored>)
    ensures
        sort_desc(s).len() == s.len(),
    decreases s.len(),
{
    if s.len() > 0 {
        lemma_sort_desc_len(s.drop_first());
        lemma_insert_desc_len(sort_desc(s.drop_first()), s[0]);
    }
}

proof fn lemma_insert_desc_sorted(s: Seq<Scored>, x: Scored)
    requires
        sorted_desc(s),
    ensures
        sorted_desc(insert_desc(s, x)),
        insert_desc(s, x)[0] == x || (s.len() > 0 && insert_desc(s, x)[0] == s[0]),
    decreases s.len(),
{
    lemma_insert_desc_len(s, x);
    if s.len() == 0 {
    } else if s[0].score > x.score {
        let rest = s.drop_first();
        lemma_insert_desc_sorted(rest, x);
        let t = insert_desc(rest, x);
        let r = seq![s[0]] + t;
        assert(t[0].score <= s[0].score);
        assert forall|i: int, j: int| 0 <= i <= j < r.len() implies r[i].score >= r[j].score by {
            if i == 0 {
                if j > 0 {
                    assert(r[j] == t[j - 1]);
                    assert(t[0].score >= t[j - 1].score);
                }
            } else {
                assert(r[i] == t[i - 1] && r[j] == t[j - 1]);
            }
        }
    } else {
        let r = seq![x] + s;
        assert forall|i: int, j: int| 0 <= i <= j < r.len() implies r[i].score >= r[j].score by {
            if i == 0 {
                if j > 0 {
                    assert(r[j] == s[j - 1]);
                    assert(s[0].score >= s[j - 1].score);
                }
            } else {
                assert(r[i] == s[i - 1] && r[j] == s[j - 1]);
            }
        }
    }
}

/// The stable sort is sorted descending by score.
pub proof fn lemma_sort_desc_sorted(s: Seq<Scored>)
    ensures
        sorted_desc(sort_desc(s)),
    decreases s.len(),
{
    if s.len() > 0 {
        lemma_sort_desc_sorted(s.drop_first());
        lemma_insert_desc_sorted(sort_desc(s.drop_first()), s[0]);
    }
}

proof fn lemma_insert_desc_multiset(s: Seq<Scored>, x: Scored)
    ensures
        insert_desc(s, x).to_multiset() == s.to_multiset().insert(x),
    decreases s.len(),
{
    broadcast use vstd::multiset::group_multiset_axioms;

    if s.len() == 0 {
        assert(s =~= Seq::<Scored>::empty());
        assert(insert_desc(s, x) =~= s.insert(0, x));
        to_multiset_insert(s, 0, x);
    } else if s[0].score > x.score {
        let rest = s.drop_first();
        let t = insert_desc(rest, x);
        lemma_insert_desc_multiset(rest, x);
        lemma_multiset_commutative(seq![s[0]], t);
        lemma_multiset_commutative(seq![s[0]], rest);
        assert(s =~= seq![s[0]] + rest);
        assert(seq![s[0]].to_multiset().add(rest.to_multiset().insert(x)) =~= (seq![s[0]]
            + rest).to_multiset().insert(x));
    } else {
        assert(insert_desc(s, x) =~= s.insert(0, x));
        to_multiset_insert(s, 0, x);
    }
}

/// The stable sort is a permutation of its input: both hold the same
/// multiset of items.
pub proof fn lemma_sort_desc_permutes(s: Seq<Scored>)
    ensures
        sort_desc(s).to_multiset() == s.to_multiset(),
    decreases s.len(),
{
    if s.len() == 0 {
        assert(s =~= Seq::<Scored>::empty());
    } else {
        let rest = s.drop_first();
        lemma_sort_desc_permutes(rest);
        lemma_insert_desc_multiset(sort_desc(rest), s[0]);
        assert(s =~= rest.insert(0, s[0]));
        to_multiset_insert(rest, 0, s[0]);
    }
}

proof fn lemma_insert_desc_filter(s: Seq<Scored>, x: Scored, v: u64)
    ensures
        x.score == v ==> insert_desc(s, x).filter(|y: Scored| y.score == v) == seq![x] + s.filter(
            |y: Scored| y.score == v,
        ),
        x.score != v ==> insert_desc(s, x).filter(|y: Scored| y.score == v) == s.filter(
            |y: Scored| y.score == v,
        ),
    decreases s.len(),
{
    let p = |y: Scored| y.score == v;
    if s.len() == 0 {
        s.lemma_filter_prepend(x, p);
        assert(seq![x] + s =~= seq![x]);
        if x.score == v {
            assert(seq![x].filter(p) =~= seq![x] + s.filter(p));
        } else {
            assert(seq![x].filter(p) =~= s.filter(p));
        }
    } else if s[0].score > x.score {
        let rest = s.drop_first();
        let t = insert_desc(rest, x);
        lemma_insert_desc_filter(rest, x, v);
        rest.lemma_filter_prepend(s[0], p);
        t.lemma_filter_prepend(s[0], p);
        assert(s =~= seq![s[0]] + rest);
        assert(insert_desc(s, x) =~= seq![s[0]] + t);
        if x.score == v {
            assert(s[0].score != v);
            assert((seq![s[0]] + t).filter(p) == t.filter(p));
            assert((seq![s[0]] + rest).filter(p) == rest.filter(p));
        }
    } else {
        s.lemma_filter_prepend(x, p);
        if x.score != v {
            assert(Seq::<Scored>::empty() + s.filter(p) =~= s.filter(p));
        }
    }
}

/// Stability of the sort: for any score value, the items holding that score
/// appear in the sorted result exactly as they appear in the input.
pub proof fn lemma_sort_desc_stable(s: Seq<Scored>, v: u64)
    ensures
        sort_desc(s).filter(|y: Scored| y.score == v) == s.filter(|y: Scored| y.score == v),
    decreases s.len(),
{
    let p = |y: Scored| y.score == v;
    if s.len() == 0 {
        assert(sort_desc(s) == s);
    } else {
        let rest = s.drop_first();
        lemma_sort_desc_stable(rest, v);
        lemma_insert_desc_filter(sort_desc(rest), s[0], v);
        rest.lemma_filter_prepend(s[0], p);
        assert(s =~= seq![s[0]] + rest);
        if s[0].score != v {
            assert(Seq::<Scored>::empty() + rest.filter(p) =~= rest.filter(p));
        }
    }
}

/// The laws of top-k selection: the result length is `min(k, len)`; the
/// result is sorted descending; the selected items and the items left
/// behind together are exactly the input (so with `k` at or above the
/// length the result is a full permutation of it); and every selected
/// score is at least every score left behind.
pub proof fn lemma_top_k_selection(s: Seq<Scored>, k: int)
    requires
        0 <= k,
    ensures
        top_k_spec(s, k).len() == if k <= s.len() {
            k
        } else {
            s.len() as int
        },
        sorted_desc(top_k_spec(s, k)),
        top_k_spec(s, k).to_multiset().add(
            sort_desc(s).skip(top_k_spec(s, k).len() as int).to_multiset(),
        ) == s.to_multiset(),
        k >= s.len() ==> top_k_spec(s, k).to_multiset() == s.to_multiset(),
        forall|i: int, j: int|
            0 <= i < top_k_spec(s, k).len() && k <= j < s.len() ==> top_k_spec(s, k)[i].score
                >= sort_desc(s)[j].score,
{
    lemma_sort_desc_len(s);
    lemma_sort_desc_sorted(s);
    lemma_sort_desc_permutes(s);
    let m = if k <= s.len() {
        k
    } else {
        s.len() as int
    };
    assert(top_k_spec(s, k) == sort_desc(s).take(m));
    assert(sort_desc(s).take(m) + sort_desc(s).skip(m) =~= sort_desc(s));
    lemma_multiset_commutative(sort_desc(s).take(m), sort_desc(s).skip(m));
    if k >= s.len() {
        assert(sort_desc(s).take(m) =~= sort_desc(s));
    }
    assert forall|i: int, j: int|
        0 <= i < top_k_spec(s, k).len() && k <= j < s.len() implies top_k_spec(s, k)[i].score
        >= sort_desc(s)[j].score by {
        assert(top_k_spec(s, k)[i] == sort_desc(s)[i]);
    }
}

/// Every selected item is an item of the input.
pub proof fn lemma_top_k_membership(s: Seq<Scored>, k: int, j: int)
    requires
        0 <= k,
        0 <= j < top_k_spec(s, k).len(),
    ensures
        s.contains(top_k_spec(s, k)[j]),
{
    broadcast use vstd::seq_lib::to_multiset_contains;

    lemma_sort_desc_len(s);
    lemma_sort_desc_permutes(s);
    let x = top_k_spec(s, k)[j];
    assert(top_k_spec(s, k)[j] == sort_desc(s)[j]);
    assert(sort_desc(s).contains(x));
    assert(sort_desc(s).to_multiset().count(x) > 0);
    assert(s.to_multiset().count(x) > 0);
}

fn insert_sorted(v: &mut Vec<Scored>, x: Scored)
    ensures
        final(v)@ == insert_desc(old(v)@, x),
{
    let mut j: usize = 0;
    while j < v.len() && v[j].score > x.score
        invariant
            j <= v@.len(),
            v@ == old(v)@,
            forall|i: int| 0 <= i < j ==> v@[i].score > x.score,
        decreases v@.len() - j,
    {
        j = j + 1;
    }
    proof {
        lemma_insert_desc_at(v@, x, j as int);
    }
    v.insert(j, x);
    proof {
        assert(v@ =~= insert_desc(old(v)@, x));
    }
}

proof fn lemma_insert_desc_at(s: Seq<Scored>, x: Scored, j: int)
    requires
        0 <= j <= s.len(),
        forall|i: int| 0 <= i < j ==> s[i].score > x.score,
        j < s.len() ==> s[j].score <= x.score,
    ensures
        insert_desc(s, x) == s.take(j) + seq![x] + s.skip(j),
    decreases j,
{
    if j == 0 {
        if s.len() == 0 {
            assert(insert_desc(s, x) =~= s.take(0) + seq![x] + s.skip(0));
        } else {
            assert(insert_desc(s, x) == seq![x] + s);
            assert(seq![x] + s =~= s.take(0) + seq![x] + s.skip(0));
        }
    } else {
        let rest = s.drop_first();
        lemma_insert_desc_at(rest, x, j - 1);
        assert(s[0].score > x.score);
        assert(insert_desc(s, x) == seq![s[0]] + (rest.take(j - 1) + seq![x] + rest.skip(j - 1)));
        assert(seq![s[0]] + (rest.take(j - 1) + seq![x] + rest.skip(j - 1)) =~= s.take(j) + seq![x]
            + s.skip(j));
    }
}

/// Sort the given items by score, descending and stable; the caller's
/// vector is read, never changed.
pub fn sort_by_score(items: &Vec<Scored>) -> (r: Vec<Scored>)
    ensures
        r@ == sort_desc(items@),
{
    let mut r: Vec<Scored> = Vec::new();
    let mut i: usize = items.len();
    proof {
        assert(items@.skip(items@.len() as int) =~= Seq::<Scored>::empty());
    }
    while i > 0
        invariant
            i <= items@.len(),
            r@ == sort_desc(items@.skip(i as int)),
        decreases i,
    {
        i = i - 1;
        insert_sorted(&mut r, items[i]);
        proof {
            assert(items@.skip(i as int).drop_first() =~= items@.skip(i as int + 1));
            assert(items@.skip(i as int)[0] == items@[i as int]);
        }
    }
    proof {
        assert(items@.skip(0) =~= items@);
    }
    r
}

/// Select the `min(k, len)` highest-scored items, descending, ties keeping
/// their original order. `k == 0` and an empty input both give an empty
/// result; the caller's vector is read, never changed.
pub fn top_k(items: &Vec<Scored>, k: usize) -> (r: Vec<Scored>)
    ensures
        r@ == top_k_spec(items@, k as int),
{
    let mut r = sort_by_score(items);
    proof {
        lemma_sort_desc_len(items@);
    }
    r.truncate(k);
    proof {
        assert(r@ =~= top_k_spec(items@, k as int));
    }
    r
}

} // verus!
