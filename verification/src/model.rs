//! The stack as a mathematical sequence: the bottom element at index 0, the
//! most recently pushed one last.

use vstd::prelude::*;

verus! {

/// The contents of a freshly constructed stack.
pub open spec fn initial<T>(value: Option<T>) -> Seq<T> {
    match value {
        Some(v) => seq![v],
        None => Seq::empty(),
    }
}

/// The element a pop or a peek reports: the last one pushed that is still
/// stored, or nothing when the stack is empty.
pub open spec fn top<T>(s: Seq<T>) -> Option<T> {
    if s.len() == 0 {
        None
    } else {
        Some(s.last())
    }
}

/// The contents after one pop. An empty stack stays empty.
pub open spec fn rest<T>(s: Seq<T>) -> Seq<T> {
    if s.len() == 0 {
        s
    } else {
        s.drop_last()
    }
}

/// The contents after pushing the values of `vs` one by one, `vs[0]` first.
pub open spec fn push_all<T>(s: Seq<T>, vs: Seq<T>) -> Seq<T>
    decreases vs.len(),
{
    if vs.len() == 0 {
        s
    } else {
        push_all(s.push(vs.first()), vs.drop_first())
    }
}

/// The contents after `n` pops in a row.
pub open spec fn pop_n<T>(s: Seq<T>, n: nat) -> Seq<T>
    decreases n,
{
    if n == 0 {
        s
    } else {
        pop_n(rest(s), (n - 1) as nat)
    }
}

/// What `n` pops in a row return, the result of the first pop at index 0.
pub open spec fn popped<T>(s: Seq<T>, n: nat) -> Seq<Option<T>>
    decreases n,
{
    if n == 0 {
        Seq::empty()
    } else {
        seq![top(s)] + popped(rest(s), (n - 1) as nat)
    }
}

/// One operation on a stack: a push of a value, a pop, or a peek.
pub enum Op<T> {
    Push(T),
    Pop,
    Peek,
}

/// The contents after one operation: a push appends its value, a pop
/// leaves the rest, a peek leaves everything.
pub open spec fn step<T>(s: Seq<T>, op: Op<T>) -> Seq<T> {
    match op {
        Op::Push(v) => s.push(v),
        Op::Pop => rest(s),
        Op::Peek => s,
    }
}

/// The contents after the operations of `ops`, `ops[0]` first.
pub open spec fn run<T>(s: Seq<T>, ops: Seq<Op<T>>) -> Seq<T>
    decreases ops.len(),
{
    if ops.len() == 0 {
        s
    } else {
        step(run(s, ops.drop_last()), ops.last())
    }
}

/// How many of `ops` are pushes.
pub open spec fn pushes<T>(ops: Seq<Op<T>>) -> nat
    decreases ops.len(),
{
    if ops.len() == 0 {
        0
    } else {
        pushes(ops.drop_last()) + if ops.last() is Push { 1nat } else { 0nat }
    }
}

/// How many of `ops`, run from contents `s`, are pops that find the stack
/// non-empty and so take a value off.
pub open spec fn taken<T>(s: Seq<T>, ops: Seq<Op<T>>) -> nat
    decreases ops.len(),
{
    if ops.len() == 0 {
        0
    } else {
        let before = run(s, ops.drop_last());
        taken(s, ops.drop_last()) + if ops.last() is Pop && before.len() > 0 { 1nat } else { 0nat }
    }
}

/// `ops` with its peeks left out, the others in their order.
pub open spec fn without_peeks<T>(ops: Seq<Op<T>>) -> Seq<Op<T>>
    decreases ops.len(),
{
    if ops.len() == 0 {
        ops
    } else if ops.last() is Peek {
        without_peeks(ops.drop_last())
    } else {
        without_peeks(ops.drop_last()).push(ops.last())
    }
}

} // verus!
