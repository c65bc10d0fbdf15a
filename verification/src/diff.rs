//! Structural diff operations over an ordered container, and their meaning
//! over mathematical sequences.
//!
//! Diffs describe how an ordered container changed since the last
//! observation.  They are applied strictly in arrival order; an operation
//! whose index is out of range for the current contents is a local invariant
//! violation: it is refused (the container is left as it was) and reported,
//! never allowed to corrupt the container or abort the consumer.

use vstd::prelude::*;

verus! {

/// One structural diff operation over an ordered container of `E`.
#[derive(PartialEq, Eq, Debug)]
pub enum DiffOp<E> {
    /// Insert `value` at `index`, shifting later elements to the right.
    InsertAt { index: usize, value: E },
    /// Remove the element at `index`, shifting later elements to the left.
    RemoveAt { index: usize },
    /// Replace the element at `index` with `value`.
    ReplaceAt { index: usize, value: E },
    /// Append `value` at the back.
    PushBack { value: E },
    /// Insert `value` at the front.
    PushFront { value: E },
    /// Remove the last element.
    PopBack,
    /// Remove the first element.
    PopFront,
    /// Drop every element past the first `length`.
    Truncate { length: usize },
    /// Remove every element.
    Clear,
    /// Append all of `values` at the back, in order.
    Append { values: Vec<E> },
    /// Replace the whole contents with `values`.
    ResetTo { values: Vec<E> },
}

/// Whether `op` is within range for contents `s`, and may therefore be
/// committed.
pub open spec fn op_valid<E>(s: Seq<E>, op: DiffOp<E>) -> bool {
    match op {
        DiffOp::InsertAt { index, .. } => index <= s.len(),
        DiffOp::RemoveAt { index } => index < s.len(),
        DiffOp::ReplaceAt { index, .. } => index < s.len(),
        DiffOp::PushBack { .. } => true,
        DiffOp::PushFront { .. } => true,
        DiffOp::PopBack => s.len() > 0,
        DiffOp::PopFront => s.len() > 0,
        DiffOp::Truncate { .. } => true,
        DiffOp::Clear => true,
        DiffOp::Append { .. } => true,
        DiffOp::ResetTo { .. } => true,
    }
}

/// The contents after `op`: the structural change when `op` is in range, and
/// the contents unchanged when it is refused.
pub open spec fn apply_op<E>(s: Seq<E>, op: DiffOp<E>) -> Seq<E> {
    if !op_valid(s, op) {
        s
    } else {
        match op {
            DiffOp::InsertAt { index, value } => s.insert(index as int, value),
            DiffOp::RemoveAt { index } => s.remove(index as int),
            DiffOp::ReplaceAt { index, value } => s.update(index as int, value),
            DiffOp::PushBack { value } => s.push(value),
            DiffOp::PushFront { value } => s.insert(0, value),
            DiffOp::PopBack => s.drop_last(),
            DiffOp::PopFront => s.skip(1),
            DiffOp::Truncate { length } => if length >= s.len() {
                s
            } else {
                s.take(length as int)
            },
            DiffOp::Clear => Seq::empty(),
            DiffOp::Append { values } => s + values@,
            DiffOp::ResetTo { values } => values@,
        }
    }
}

/// The contents after a whole batch, applied strictly in order, refused
/// operations leaving the contents unchanged.
pub open spec fn apply_ops<E>(s: Seq<E>, ops: Seq<DiffOp<E>>) -> Seq<E>
    decreases ops.len(),
{
    if ops.len() == 0 {
        s
    } else {
        apply_ops(apply_op(s, ops.first()), ops.skip(1))
    }
}

/// How many operations of the batch are refused when it is applied in order
/// to contents `s`.
pub open spec fn rejected_ops<E>(s: Seq<E>, ops: Seq<DiffOp<E>>) -> nat
    decreases ops.len(),
{
    if ops.len() == 0 {
        0
    } else {
        (if op_valid(s, ops.first()) {
            0nat
        } else {
            1nat
        }) + rejected_ops(apply_op(s, ops.first()), ops.skip(1))
    }
}

/// Diff ordering: applying batch `b1` and then batch `b2` to the same stream
/// gives exactly the state of applying their concatenation in arrival order —
/// batches compose sequentially and are never interleaved or reordered.
pub proof fn lemma_diff_ordering<E>(s: Seq<E>, b1: Seq<DiffOp<E>>, b2: Seq<DiffOp<E>>)
    ensures
        apply_ops(s, b1 + b2) == apply_ops(apply_ops(s, b1), b2),
    decreases b1.len(),
{
    if b1.len() == 0 {
        assert(b1 + b2 =~= b2);
    } else {
        assert((b1 + b2).first() == b1.first());
        assert((b1 + b2).skip(1) =~= b1.skip(1) + b2);
        lemma_diff_ordering(apply_op(s, b1.first()), b1.skip(1), b2);
    }
}

} // verus!
