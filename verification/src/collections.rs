//! Removing several entries of a vector by `swap_remove`, and sorting indices.
use vstd::prelude::*;

verus! {

/// `s` after `Vec::swap_remove(i)`: the last entry takes the place of entry `i`.
pub open spec fn swap_removed<T>(s: Seq<T>, i: int) -> Seq<T> {
    s.update(i, s.last()).drop_last()
}

/// `s` after `swap_remove` of every index of `idx`, the last index first.
pub open spec fn removed_all<T>(s: Seq<T>, idx: Seq<usize>) -> Seq<T>
    decreases idx.len(),
{
    if idx.len() == 0 {
        s
    } else {
        removed_all(swap_removed(s, idx.last() as int), idx.drop_last())
    }
}

/// Every removal of `removed_all` finds its index in range, for a sequence of length `len`.
pub open spec fn removable(len: int, idx: Seq<usize>) -> bool
    decreases idx.len(),
{
    if idx.len() == 0 {
        true
    } else {
        idx.last() < len && removable(len - 1, idx.drop_last())
    }
}

/// Removes the entries at `idx` by `swap_remove`, walking `idx` from its end.
pub fn remove_indices<T>(v: &mut Vec<T>, idx: &Vec<usize>)
    requires
        removable(old(v)@.len() as int, idx@),
    ensures
        final(v)@ == removed_all(old(v)@, idx@),
{
    let mut k = idx.len();
    assert(idx@.take(k as int) =~= idx@);
    while k > 0
        invariant
            k <= idx@.len(),
            removable(v@.len() as int, idx@.take(k as int)),
            removed_all(v@, idx@.take(k as int)) == removed_all(old(v)@, idx@),
        decreases k,
    {
        let ghost pre = v@;
        let i = idx[k - 1];
        assert(idx@.take(k as int).drop_last() =~= idx@.take(k - 1));
        assert(idx@.take(k as int).last() == i);
        v.swap_remove(i);
        assert(v@ =~= swap_removed(pre, i as int));
        k = k - 1;
    }
    assert(idx@.take(0) =~= Seq::<usize>::empty());
}

/// Whether `removed_all` finds every index of `idx` in range, for a vector of length `len`.
pub fn is_removable(len: usize, idx: &Vec<usize>) -> (r: bool)
    ensures
        r == removable(len as int, idx@),
{
    let mut k = idx.len();
    let mut cur = len;
    assert(idx@.take(k as int) =~= idx@);
    while k > 0
        invariant
            k <= idx@.len(),
            cur as int == len - (idx@.len() - k),
            removable(len as int, idx@) == removable(cur as int, idx@.take(k as int)),
        decreases k,
    {
        let i = idx[k - 1];
        assert(idx@.take(k as int).drop_last() =~= idx@.take(k - 1));
        if i >= cur {
            return false;
        }
        cur = cur - 1;
        k = k - 1;
    }
    assert(idx@.take(0) =~= Seq::<usize>::empty());
    true
}

/// `x` put into the non-decreasing sequence `s` in front of the first larger entry.
pub open spec fn insert_sorted(s: Seq<usize>, x: usize) -> Seq<usize>
    decreases s.len(),
{
    if s.len() == 0 {
        seq![x]
    } else if x <= s[0] {
        seq![x] + s
    } else {
        seq![s[0]] + insert_sorted(s.drop_first(), x)
    }
}

/// `s` in non-decreasing order (insertion sort).
pub open spec fn sorted_spec(s: Seq<usize>) -> Seq<usize>
    decreases s.len(),
{
    if s.len() == 0 {
        s
    } else {
        insert_sorted(sorted_spec(s.drop_last()), s.last())
    }
}

/// Inserting in front of the first entry that is not smaller is splicing there.
proof fn lemma_insert_sorted_at(s: Seq<usize>, x: usize, p: int)
    requires
        0 <= p <= s.len(),
        forall|i: int| 0 <= i < p ==> s[i] < x,
        p < s.len() ==> x <= s[p],
    ensures
        insert_sorted(s, x) == s.take(p) + seq![x] + s.skip(p),
    decreases s.len(),
{
    if s.len() == 0 {
        assert(s.take(p) + seq![x] + s.skip(p) =~= seq![x]);
    } else if x <= s[0] {
        assert(p == 0);
        assert(s.take(p) + seq![x] + s.skip(p) =~= seq![x] + s);
    } else {
        let t = s.drop_first();
        assert forall|i: int| 0 <= i < p - 1 implies t[i] < x by {
            assert(t[i] == s[i + 1]);
        }
        lemma_insert_sorted_at(t, x, p - 1);
        assert(seq![s[0]] + (t.take(p - 1) + seq![x] + t.skip(p - 1)) =~= s.take(p) + seq![x]
            + s.skip(p));
    }
}

/// Sorts `v` in non-decreasing order.
pub fn sort_indices(v: &Vec<usize>) -> (r: Vec<usize>)
    ensures
        r@ == sorted_spec(v@),
{
    let mut r: Vec<usize> = Vec::new();
    let mut k: usize = 0;
    while k < v.len()
        invariant
            k <= v@.len(),
            r@ == sorted_spec(v@.take(k as int)),
        decreases v@.len() - k,
    {
        let x = v[k];
        let mut p: usize = 0;
        while p < r.len() && r[p] < x
            invariant
                p <= r@.len(),
                forall|i: int| 0 <= i < p ==> r@[i] < x,
            decreases r@.len() - p,
        {
            p = p + 1;
        }
        proof {
            lemma_insert_sorted_at(r@, x, p as int);
            assert(v@.take(k + 1).drop_last() =~= v@.take(k as int));
            assert(v@.take(k + 1).last() == x);
        }
        r.insert(p, x);
        assert(r@ =~= sorted_spec(v@.take(k + 1)));
        k = k + 1;
    }
    assert(v@.take(k as int) =~= v@);
    r
}

} // verus!
