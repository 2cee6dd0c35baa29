//! Searching and filtering of vectors by a predicate, stated over sequences.
use vstd::prelude::*;

verus! {

/// The elements of `s` that satisfy `keep`, in order.
pub open spec fn keep_where<T>(s: Seq<T>, keep: spec_fn(T) -> bool) -> Seq<T>
    decreases s.len(),
{
    if s.len() == 0 {
        Seq::empty()
    } else {
        let rest = keep_where(s.drop_last(), keep);
        if keep(s.last()) { rest.push(s.last()) } else { rest }
    }
}

/// Filtering never lengthens a sequence, and keeps it whole exactly when
/// every element passes.
pub proof fn lemma_keep_where_len<T>(s: Seq<T>, keep: spec_fn(T) -> bool)
    ensures
        keep_where(s, keep).len() <= s.len(),
        keep_where(s, keep).len() == s.len() <==> (forall|i: int| 0 <= i < s.len() ==> keep(#[trigger] s[i])),
        (forall|i: int| 0 <= i < s.len() ==> keep(#[trigger] s[i])) ==> keep_where(s, keep) == s,
    decreases s.len(),
{
    if s.len() > 0 {
        lemma_keep_where_len(s.drop_last(), keep);
        if forall|i: int| 0 <= i < s.len() ==> keep(#[trigger] s[i]) {
            assert forall|i: int| 0 <= i < s.drop_last().len() implies keep(#[trigger] s.drop_last()[i]) by {
                assert(s.drop_last()[i] == s[i]);
            }
            assert(keep_where(s, keep) =~= s);
        }
        if keep_where(s, keep).len() == s.len() {
            assert forall|i: int| 0 <= i < s.len() implies keep(#[trigger] s[i]) by {
                if i < s.len() - 1 {
                    assert(s.drop_last()[i] == s[i]);
                }
            }
        }
    } else {
        assert(keep_where(s, keep) =~= s);
    }
}

/// Every element that survives filtering passes the filter and came from
/// the sequence.
pub proof fn lemma_keep_where_members<T>(s: Seq<T>, keep: spec_fn(T) -> bool)
    ensures
        forall|i: int| 0 <= i < keep_where(s, keep).len() ==> keep(#[trigger] keep_where(s, keep)[i])
            && s.contains(keep_where(s, keep)[i]),
    decreases s.len(),
{
    if s.len() > 0 {
        lemma_keep_where_members(s.drop_last(), keep);
        let rest = keep_where(s.drop_last(), keep);
        assert forall|i: int| 0 <= i < keep_where(s, keep).len() implies keep(#[trigger] keep_where(s, keep)[i])
            && s.contains(keep_where(s, keep)[i]) by {
            if i < rest.len() {
                let j = choose|j: int| 0 <= j < s.drop_last().len() && s.drop_last()[j] == rest[i];
                assert(s[j] == rest[i]);
            } else {
                assert(s[s.len() - 1] == s.last());
            }
        }
    }
}

/// Filtering commutes with mapping.
pub proof fn lemma_keep_where_map<T, V>(s: Seq<T>, f: spec_fn(T) -> V, keep: spec_fn(V) -> bool)
    ensures
        keep_where(s.map_values(f), keep) == keep_where(s, |x: T| keep(f(x))).map_values(f),
    decreases s.len(),
{
    if s.len() > 0 {
        lemma_keep_where_map(s.drop_last(), f, keep);
        assert(s.map_values(f).drop_last() =~= s.drop_last().map_values(f));
        let rest = keep_where(s.drop_last(), |x: T| keep(f(x)));
        assert(rest.push(s.last()).map_values(f) =~= rest.map_values(f).push(f(s.last())));
    } else {
        assert(keep_where(s.map_values(f), keep) =~= keep_where(s, |x: T| keep(f(x))).map_values(f));
    }
}

/// Remove, in place, every element for which `keep` says false.
pub fn retain_where<T, F: Fn(&T) -> bool>(v: &mut Vec<T>, keep: F, Ghost(pred): Ghost<spec_fn(T) -> bool>)
    requires
        forall|t: &T| #[trigger] keep.requires((t,)),
        forall|t: &T, b: bool| keep.ensures((t,), b) ==> b == pred(*t),
    ensures
        final(v)@ == keep_where(old(v)@, pred),
{
    let ghost orig = v@;
    let mut i: usize = 0;
    let ghost mut j: int = 0;
    while i < v.len()
        invariant
            0 <= j <= orig.len(),
            forall|t: &T| #[trigger] keep.requires((t,)),
            forall|t: &T, b: bool| keep.ensures((t,), b) ==> b == pred(*t),
            v@ == keep_where(orig.take(j), pred) + orig.skip(j),
            i == keep_where(orig.take(j), pred).len(),
        decreases orig.len() - j,
    {
        assert(v@[i as int] == orig[j]);
        assert(orig.take(j + 1).drop_last() =~= orig.take(j));
        assert(orig.take(j + 1).last() == orig[j]);
        let k = keep(&v[i]);
        let ghost before = v@;
        if k {
            i = i + 1;
            proof {
                j = j + 1;
                assert(v@ =~= keep_where(orig.take(j), pred) + orig.skip(j));
            }
        } else {
            v.remove(i);
            proof {
                j = j + 1;
                assert(v@ =~= keep_where(orig.take(j), pred) + orig.skip(j));
            }
        }
    }
    proof {
        if j < orig.len() {
            assert(orig.skip(j).len() > 0);
        }
        assert(orig.take(j) =~= orig);
        assert(v@ =~= keep_where(orig, pred));
    }
}

/// Index of the first element that satisfies `test`, if any.
pub fn position_where<T, F: Fn(&T) -> bool>(v: &Vec<T>, test: F, Ghost(pred): Ghost<spec_fn(T) -> bool>) -> (r: Option<usize>)
    requires
        forall|t: &T| #[trigger] test.requires((t,)),
        forall|t: &T, b: bool| test.ensures((t,), b) ==> b == pred(*t),
    ensures
        match r {
            Some(i) => i < v@.len() && pred(v@[i as int]) && forall|j: int| 0 <= j < i ==> !pred(#[trigger] v@[j]),
            None => forall|j: int| 0 <= j < v@.len() ==> !pred(#[trigger] v@[j]),
        },
{
    let mut i: usize = 0;
    while i < v.len()
        invariant
            i <= v@.len(),
            forall|t: &T| #[trigger] test.requires((t,)),
            forall|t: &T, b: bool| test.ensures((t,), b) ==> b == pred(*t),
            forall|j: int| 0 <= j < i ==> !pred(#[trigger] v@[j]),
        decreases v@.len() - i,
    {
        if test(&v[i]) {
            return Some(i);
        }
        i = i + 1;
    }
    None
}

/// The index of the first element satisfying `pred`, if any.
pub open spec fn first_where<T>(s: Seq<T>, pred: spec_fn(T) -> bool) -> Option<int>
    decreases s.len(),
{
    if s.len() == 0 {
        None
    } else if pred(s[0]) {
        Some(0)
    } else {
        match first_where(s.drop_first(), pred) {
            Some(i) => Some(i + 1),
            None => None,
        }
    }
}

/// `first_where` gives the least index whose element satisfies the predicate.
pub proof fn lemma_first_where<T>(s: Seq<T>, pred: spec_fn(T) -> bool)
    ensures
        match first_where(s, pred) {
            Some(i) => 0 <= i < s.len() && pred(s[i]) && forall|j: int| 0 <= j < i ==> !pred(#[trigger] s[j]),
            None => forall|j: int| 0 <= j < s.len() ==> !pred(#[trigger] s[j]),
        },
    decreases s.len(),
{
    if s.len() > 0 && !pred(s[0]) {
        lemma_first_where(s.drop_first(), pred);
        assert forall|j: int| 0 < j < s.len() implies s[j] == s.drop_first()[j - 1] by {}
        match first_where(s.drop_first(), pred) {
            Some(i) => {
                assert forall|j: int| 0 <= j < i + 1 implies !pred(#[trigger] s[j]) by {
                    if j > 0 {
                        assert(s[j] == s.drop_first()[j - 1]);
                    }
                }
            },
            None => {
                assert forall|j: int| 0 <= j < s.len() implies !pred(#[trigger] s[j]) by {
                    if j > 0 {
                        assert(s[j] == s.drop_first()[j - 1]);
                    }
                }
            },
        }
    }
}

/// An index that satisfies the predicate and has no satisfying index before
/// it is the first one.
pub proof fn lemma_first_where_unique<T>(s: Seq<T>, pred: spec_fn(T) -> bool, i: int)
    requires
        0 <= i < s.len(),
        pred(s[i]),
        forall|j: int| 0 <= j < i ==> !pred(#[trigger] s[j]),
    ensures
        first_where(s, pred) == Some(i),
{
    lemma_first_where(s, pred);
    match first_where(s, pred) {
        Some(k) => {
            if k < i {
                assert(!pred(s[k]));
            } else if k > i {
                assert(!pred(s[i]));
            }
        },
        None => {
            assert(!pred(s[i]));
        },
    }
}

/// The indices `0..n`, in order.
pub open spec fn index_seq(n: nat) -> Seq<usize> {
    Seq::new(n, |i: int| i as usize)
}

/// Indices of the elements that satisfy `test`, in order.
pub fn indices_where<T, F: Fn(&T) -> bool>(v: &Vec<T>, test: F, Ghost(pred): Ghost<spec_fn(T) -> bool>) -> (r: Vec<usize>)
    requires
        forall|t: &T| #[trigger] test.requires((t,)),
        forall|t: &T, b: bool| test.ensures((t,), b) ==> b == pred(*t),
    ensures
        r@ == keep_where(index_seq(v@.len()), |i: usize| pred(v@[i as int])),
{
    let ghost idx = index_seq(v@.len());
    let ghost keep = |i: usize| pred(v@[i as int]);
    let mut r: Vec<usize> = Vec::new();
    let mut i: usize = 0;
    assert(idx.take(0) =~= Seq::<usize>::empty());
    while i < v.len()
        invariant
            i <= v@.len(),
            idx == index_seq(v@.len()),
            keep == (|i: usize| pred(v@[i as int])),
            forall|t: &T| #[trigger] test.requires((t,)),
            forall|t: &T, b: bool| test.ensures((t,), b) ==> b == pred(*t),
            r@ == keep_where(idx.take(i as int), keep),
        decreases v@.len() - i,
    {
        assert(idx.take(i + 1).drop_last() =~= idx.take(i as int));
        assert(idx.take(i + 1).last() == i);
        if test(&v[i]) {
            r.push(i);
        }
        i = i + 1;
    }
    assert(idx.take(i as int) =~= idx);
    r
}

} // verus!
