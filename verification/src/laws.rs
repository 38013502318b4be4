//! What holds of whole runs of stack operations, proved over the sequences
//! in which the contracts of [`Stack`](crate::stack::Stack) are stated.

use crate::model::{
    initial, pop_n, popped, push_all, pushes, rest, run, taken, top, without_peeks, Op,
};
use vstd::prelude::*;

verus! {

/// Pushing the values of `vs` in order appends them to the contents.
pub proof fn push_all_appends<T>(s: Seq<T>, vs: Seq<T>)
    ensures
        push_all(s, vs) == s + vs,
    decreases vs.len(),
{
    if vs.len() == 0 {
        assert(s + vs =~= s);
    } else {
        push_all_appends(s.push(vs.first()), vs.drop_first());
        assert(s.push(vs.first()) + vs.drop_first() =~= s + vs);
    }
}

/// `n` pops return `n` results.
pub proof fn popped_len<T>(s: Seq<T>, n: nat)
    ensures
        popped(s, n).len() == n,
    decreases n,
{
    if n > 0 {
        popped_len(rest(s), (n - 1) as nat);
    }
}

/// Last in, first out: after the values of `vs` were pushed in order, onto
/// any stack, as many pops return them in the opposite order, the last one
/// pushed first, and leave the stack as it was before the pushes.
pub proof fn lifo_order<T>(s: Seq<T>, vs: Seq<T>)
    ensures
        popped(push_all(s, vs), vs.len()).len() == vs.len(),
        forall|i: int|
            0 <= i < vs.len() ==> popped(push_all(s, vs), vs.len())[i] == Some(
                vs[vs.len() - 1 - i],
            ),
        pop_n(push_all(s, vs), vs.len()) == s,
    decreases vs.len(),
{
    push_all_appends(s, vs);
    popped_len(s + vs, vs.len());
    if vs.len() == 0 {
        assert(s + vs =~= s);
    } else {
        let below = vs.drop_last();
        lifo_order(s, below);
        push_all_appends(s, below);
        assert(rest(s + vs) =~= s + below);
        assert((s + vs).last() == vs.last());
        assert forall|i: int| 0 <= i < vs.len() implies popped(s + vs, vs.len())[i] == Some(
            vs[vs.len() - 1 - i],
        ) by {
            if i > 0 {
                assert(popped(s + vs, vs.len())[i] == popped(s + below, below.len())[i - 1]);
            }
        }
    }
}

/// The length after any run of operations is the length before it, plus the
/// number of pushes, minus the number of pops that took a value off.
pub proof fn length_after_run<T>(s: Seq<T>, ops: Seq<Op<T>>)
    ensures
        run(s, ops).len() == s.len() + pushes(ops) - taken(s, ops),
    decreases ops.len(),
{
    if ops.len() > 0 {
        length_after_run(s, ops.drop_last());
    }
}

/// Pops of an empty stack, however many, all return `None` and leave it
/// empty.
pub proof fn pop_of_empty<T>(n: nat)
    ensures
        popped(Seq::<T>::empty(), n).len() == n,
        forall|i: int| 0 <= i < n ==> popped(Seq::<T>::empty(), n)[i] is None,
        pop_n(Seq::<T>::empty(), n) == Seq::<T>::empty(),
    decreases n,
{
    popped_len(Seq::<T>::empty(), n);
    if n > 0 {
        pop_of_empty::<T>((n - 1) as nat);
        assert forall|i: int| 0 <= i < n implies popped(Seq::<T>::empty(), n)[i] is None by {
            if i > 0 {
                assert(popped(Seq::<T>::empty(), n)[i] == popped(
                    Seq::<T>::empty(),
                    (n - 1) as nat,
                )[i - 1]);
            }
        }
    }
}

/// Peeks change nothing: a run of operations leaves the same contents with
/// its peeks as without them, so the same length and the same answer to
/// the next pop.
pub proof fn peeks_change_nothing<T>(s: Seq<T>, ops: Seq<Op<T>>)
    ensures
        run(s, ops) == run(s, without_peeks(ops)),
        run(s, ops).len() == run(s, without_peeks(ops)).len(),
        top(run(s, ops)) == top(run(s, without_peeks(ops))),
    decreases ops.len(),
{
    if ops.len() > 0 {
        let before = ops.drop_last();
        peeks_change_nothing(s, before);
        if !(ops.last() is Peek) {
            assert(without_peeks(before).push(ops.last()).drop_last() =~= without_peeks(before));
        }
    }
}

/// A stack constructed with a value holds that value alone, which the first
/// pop returns, leaving the stack empty; one constructed without is empty.
pub proof fn construction<T>(x: T)
    ensures
        initial(Some(x)).len() == 1,
        top(initial(Some(x))) == Some(x),
        rest(initial(Some(x))) == Seq::<T>::empty(),
        initial(None::<T>).len() == 0,
{
    assert(rest(initial(Some(x))) =~= Seq::<T>::empty());
}

} // verus!
