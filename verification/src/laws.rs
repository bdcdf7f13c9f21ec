//! Laws relating sequences of container operations.

use vstd::prelude::*;

verus! {

/// The contents after pushing every value of `vals`, in order, onto a
/// container holding `s`.
pub open spec fn pushed_all<T>(s: Seq<T>, vals: Seq<T>) -> Seq<T>
    decreases vals.len(),
{
    if vals.len() == 0 {
        s
    } else {
        pushed_all(s.push(vals[0]), vals.drop_first())
    }
}

/// A sequence of pushes appends its values in push order.
pub proof fn lemma_pushes_append<T>(s: Seq<T>, vals: Seq<T>)
    ensures
        pushed_all(s, vals) == s + vals,
    decreases vals.len(),
{
    if vals.len() == 0 {
        assert(pushed_all(s, vals) =~= s + vals);
    } else {
        lemma_pushes_append(s.push(vals[0]), vals.drop_first());
        assert(s.push(vals[0]) + vals.drop_first() =~= s + vals);
    }
}

/// After `n` pushes into a freshly constructed container the length is `n`,
/// and the element at each index is the value pushed at that rank.
pub proof fn lemma_pushes_into_fresh<T>(vals: Seq<T>)
    ensures
        pushed_all(Seq::<T>::empty(), vals).len() == vals.len(),
        forall|i: int|
            0 <= i < vals.len() ==> pushed_all(Seq::<T>::empty(), vals)[i] == vals[i],
{
    lemma_pushes_append(Seq::<T>::empty(), vals);
    assert(Seq::<T>::empty() + vals =~= vals);
}

/// Push then pop is identity: the pop returns the value just pushed and
/// the contents, hence the length, return to their pre-push state.
pub proof fn lemma_push_then_pop<T>(s: Seq<T>, value: T)
    ensures
        s.push(value).len() == s.len() + 1,
        s.push(value).last() == value,
        s.push(value).drop_last() == s,
{
    assert(s.push(value).drop_last() =~= s);
}

} // verus!
