//! Laws of the stack, stated and proved over the `Seq` view that the
//! contracts of `push` and `pop` use.

use vstd::prelude::*;

verus! {

/// The view of a stack with view `s` after pushing the values of `vals`
/// one at a time, first element first.
pub open spec fn after_pushes<T>(s: Seq<T>, vals: Seq<T>) -> Seq<T>
    decreases vals.len(),
{
    if vals.len() == 0 {
        s
    } else {
        after_pushes(s.push(vals.first()), vals.drop_first())
    }
}

/// The values returned by popping a stack with view `s` until it is
/// empty, in the order they come out.
pub open spec fn pops_of<T>(s: Seq<T>) -> Seq<T>
    decreases s.len(),
{
    if s.len() == 0 {
        Seq::empty()
    } else {
        seq![s.last()] + pops_of(s.drop_last())
    }
}

/// LIFO order: a pop immediately after a push returns the value just
/// pushed and restores the stack to its previous contents, whatever
/// they were.
pub proof fn lemma_push_pop<T>(s: Seq<T>, v: T)
    ensures
        s.push(v).len() > 0,
        s.push(v).last() == v,
        s.push(v).drop_last() == s,
{
    assert(s.push(v).drop_last() =~= s);
}

/// Round trip: pushing a value onto an empty stack and then popping
/// returns that value and leaves the stack empty, so a subsequent pop
/// returns the empty indicator.
pub proof fn lemma_round_trip<T>(v: T)
    ensures
        Seq::<T>::empty().push(v).last() == v,
        Seq::<T>::empty().push(v).drop_last() == Seq::<T>::empty(),
        Seq::<T>::empty().push(v).drop_last().len() == 0,
{
    lemma_push_pop(Seq::<T>::empty(), v);
}

proof fn lemma_after_pushes_appends<T>(s: Seq<T>, vals: Seq<T>)
    ensures
        after_pushes(s, vals) == s + vals,
    decreases vals.len(),
{
    if vals.len() == 0 {
        assert(s + vals =~= s);
    } else {
        lemma_after_pushes_appends(s.push(vals.first()), vals.drop_first());
        assert(s.push(vals.first()) + vals.drop_first() =~= s + vals);
    }
}

proof fn lemma_pops_of_reverse<T>(s: Seq<T>)
    ensures
        pops_of(s) == s.reverse(),
    decreases s.len(),
{
    if s.len() == 0 {
        assert(pops_of(s) =~= s.reverse());
    } else {
        lemma_pops_of_reverse(s.drop_last());
        assert(seq![s.last()] + s.drop_last().reverse() =~= s.reverse());
    }
}

/// Conservation: pushing any sequence of values onto an empty stack
/// yields exactly those values as the stack's contents; popping until
/// empty returns them most recent first; and the multiset of the popped
/// values equals the multiset of the pushed values — nothing is lost,
/// duplicated, or invented, and the stack ends empty.
pub proof fn lemma_conservation<T>(vals: Seq<T>)
    ensures
        after_pushes(Seq::<T>::empty(), vals) == vals,
        pops_of(vals) == vals.reverse(),
        pops_of(vals).len() == vals.len(),
        pops_of(vals).to_multiset() == vals.to_multiset(),
{
    lemma_after_pushes_appends(Seq::<T>::empty(), vals);
    assert(Seq::<T>::empty() + vals =~= vals);
    lemma_pops_of_reverse(vals);
    vals.lemma_reverse_to_multiset();
}

} // verus!
