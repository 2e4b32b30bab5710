//! Algebraic laws of the stack, stated and proved over its view.
//!
//! The spec functions here model single operations exactly as the
//! contracts of [`Stack::push`](crate::Stack::push) and
//! [`Stack::pop`](crate::Stack::pop) describe them on the view, and
//! then iterate them, so that a law about a whole run of operations is
//! a statement about these models.

use vstd::prelude::*;

verus! {

/// One operation on a stack: a push of a value, or a pop.
pub enum StackOp<T> {
    Push(T),
    Pop,
}

/// The contents after pushing every element of `vs`, in order, onto a
/// stack holding `s`: one step per element, each step exactly what the
/// contract of `push` says of the view.
pub open spec fn after_pushes<T>(s: Seq<T>, vs: Seq<T>) -> Seq<T>
    decreases vs.len(),
{
    if vs.len() == 0 {
        s
    } else {
        after_pushes(s.push(vs[0]), vs.drop_first())
    }
}

/// What one `pop` returns on contents `s`, as its contract says: the
/// top when there is one, absence otherwise.
pub open spec fn pop_returns<T>(s: Seq<T>) -> Option<T> {
    if s.len() == 0 {
        None
    } else {
        Some(s.last())
    }
}

/// The contents one `pop` leaves behind, as its contract says: all but
/// the top when there is one, the empty contents unchanged otherwise.
pub open spec fn pop_leaves<T>(s: Seq<T>) -> Seq<T> {
    if s.len() == 0 {
        s
    } else {
        s.drop_last()
    }
}

/// The contents after `k` consecutive pops on a stack holding `s`.
pub open spec fn after_pops<T>(s: Seq<T>, k: int) -> Seq<T>
    decreases k,
{
    if k <= 0 {
        s
    } else {
        pop_leaves(after_pops(s, k - 1))
    }
}

/// The contents after one operation.
pub open spec fn apply_op<T>(s: Seq<T>, op: StackOp<T>) -> Seq<T> {
    match op {
        StackOp::Push(v) => s.push(v),
        StackOp::Pop => pop_leaves(s),
    }
}

/// The contents after a whole sequence of operations, applied in order.
pub open spec fn apply_ops<T>(s: Seq<T>, ops: Seq<StackOp<T>>) -> Seq<T>
    decreases ops.len(),
{
    if ops.len() == 0 {
        s
    } else {
        apply_ops(apply_op(s, ops[0]), ops.drop_first())
    }
}

/// How many of the operations are pushes. Every push succeeds.
pub open spec fn count_pushes<T>(ops: Seq<StackOp<T>>) -> int
    decreases ops.len(),
{
    if ops.len() == 0 {
        0
    } else {
        (match ops[0] {
            StackOp::Push(_) => 1int,
            StackOp::Pop => 0int,
        }) + count_pushes(ops.drop_first())
    }
}

/// How many of the operations are pops that return a present value
/// when the run starts from contents `s`: a pop counts exactly when
/// the stack is non-empty at the moment it happens.
pub open spec fn count_present_pops<T>(s: Seq<T>, ops: Seq<StackOp<T>>) -> int
    decreases ops.len(),
{
    if ops.len() == 0 {
        0
    } else {
        (match ops[0] {
            StackOp::Push(_) => 0int,
            StackOp::Pop => if s.len() > 0 {
                1int
            } else {
                0int
            },
        }) + count_present_pops(apply_op(s, ops[0]), ops.drop_first())
    }
}

/// Pushing the values `vs`, in order, appends them: the stack then
/// holds its old contents with `vs` on top, `vs`'s last element
/// topmost.
pub proof fn lemma_after_pushes_appends<T>(s: Seq<T>, vs: Seq<T>)
    ensures
        after_pushes(s, vs) == s + vs,
    decreases vs.len(),
{
    if vs.len() == 0 {
        assert(s + vs =~= s);
    } else {
        lemma_after_pushes_appends(s.push(vs[0]), vs.drop_first());
        assert(s.push(vs[0]) + vs.drop_first() =~= s + vs);
    }
}

/// `k` pops from contents of length at least `k` remove the top `k`
/// elements and keep the rest, in order.
pub proof fn lemma_after_pops_takes<T>(s: Seq<T>, k: int)
    requires
        0 <= k <= s.len(),
    ensures
        after_pops(s, k) == s.take(s.len() - k),
    decreases k,
{
    if k <= 0 {
        assert(s.take(s.len() as int) =~= s);
    } else {
        lemma_after_pops_takes(s, k - 1);
        assert(s.take(s.len() - (k - 1)).drop_last() =~= s.take(s.len() - k));
    }
}

/// LIFO order: push the values `vs`, in that order, onto a stack
/// holding `s`, with no interleaved pops; then successive pops return
/// the pushed values in exact reverse order. After `i` of those pops
/// (for any `0 <= i < vs.len()`), the next pop returns
/// `vs[vs.len() - 1 - i]`, and what remains is `s` with the not yet
/// popped prefix of `vs` still on top.
pub proof fn lemma_lifo_order<T>(s: Seq<T>, vs: Seq<T>, i: int)
    requires
        0 <= i < vs.len(),
    ensures
        pop_returns(after_pops(after_pushes(s, vs), i)) == Some(vs[vs.len() - 1 - i]),
        after_pops(after_pushes(s, vs), i + 1) == s + vs.take(vs.len() - 1 - i),
{
    lemma_after_pushes_appends(s, vs);
    let w = s + vs;
    lemma_after_pops_takes(w, i);
    lemma_after_pops_takes(w, i + 1);
    assert(w.take(w.len() - i).last() == vs[vs.len() - 1 - i]);
    assert(w.take(w.len() - (i + 1)) =~= s + vs.take(vs.len() - 1 - i));
}

/// Length invariant: after any sequence of operations, the length of
/// the contents equals the starting length, plus the number of pushes
/// (all of which succeed), minus the number of pops that returned a
/// present value; pops on an empty stack change nothing.
pub proof fn lemma_length_invariant<T>(s: Seq<T>, ops: Seq<StackOp<T>>)
    ensures
        apply_ops(s, ops).len() == s.len() + count_pushes(ops) - count_present_pops(s, ops),
    decreases ops.len(),
{
    if ops.len() > 0 {
        lemma_length_invariant(apply_op(s, ops[0]), ops.drop_first());
    }
}

} // verus!
