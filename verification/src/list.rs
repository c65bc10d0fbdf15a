//! The shared, ordered conversation list: an index-addressed sequence of
//! `ConversationEntry`, mutated only by applying structural diff operations
//! strictly in arrival order.
//!
//! An out-of-range operation is refused and counted, never committed: a
//! single late or malformed diff must not corrupt the container or take the
//! consumer down.  Readers take O(1) snapshots that later mutations do not
//! touch.

use vstd::prelude::*;
use crate::diff::{apply_op, apply_ops, op_valid, rejected_ops, DiffOp};
use crate::model::ConversationEntry;
use crate::shared_vector::{
    entry_seq, entry_vec_clear, entry_vec_get, entry_vec_insert, entry_vec_len, entry_vec_new,
    entry_vec_push_back, entry_vec_remove, entry_vec_set, entry_vec_snapshot, entry_vec_truncate,
    EntryVector,
};

verus! {

/// The ordered conversation list; insertion order is meaningful (it is the
/// ranking delivered by the external service).
pub struct ConversationList {
    entries: EntryVector,
}

impl View for ConversationList {
    type V = Seq<ConversationEntry>;

    closed spec fn view(&self) -> Seq<ConversationEntry> {
        entry_seq(self.entries)
    }
}

impl ConversationList {
    /// The empty list, as it is at startup.
    pub fn new() -> (r: ConversationList)
        ensures
            r@ == Seq::<ConversationEntry>::empty(),
    {
        ConversationList { entries: entry_vec_new() }
    }

    /// Number of slots currently in the list.
    pub fn len(&self) -> (n: usize)
        ensures
            n == self@.len(),
    {
        entry_vec_len(&self.entries)
    }

    /// The entry at `index`, or `None` when the index is out of bounds; a
    /// reader never observes an out-of-bounds element.
    pub fn get(&self, index: usize) -> (r: Option<ConversationEntry>)
        ensures
            index < self@.len() ==> r == Some(self@[index as int]),
            index >= self@.len() ==> r is None,
    {
        entry_vec_get(&self.entries, index)
    }

    /// A consistent point-in-time copy of the list, sufficient for rendering
    /// or indexing; later mutations of the list do not show through it.
    pub fn snapshot(&self) -> (r: ConversationList)
        ensures
            r@ == self@,
    {
        ConversationList { entries: entry_vec_snapshot(&self.entries) }
    }

    /// Apply one structural diff operation.  An operation whose index is out
    /// of range for the current length is refused: the list is unchanged and
    /// `false` is returned for the caller to report.
    pub fn apply(&mut self, op: DiffOp<ConversationEntry>) -> (applied: bool)
        ensures
            applied == op_valid(old(self)@, op),
            final(self)@ == apply_op(old(self)@, op),
    {
        let len = entry_vec_len(&self.entries);
        match op {
            DiffOp::InsertAt { index, value } => {
                if index <= len {
                    entry_vec_insert(&mut self.entries, index, value);
                    true
                } else {
                    false
                }
            },
            DiffOp::RemoveAt { index } => {
                if index < len {
                    entry_vec_remove(&mut self.entries, index);
                    true
                } else {
                    false
                }
            },
            DiffOp::ReplaceAt { index, value } => {
                if index < len {
                    entry_vec_set(&mut self.entries, index, value);
                    true
                } else {
                    false
                }
            },
            DiffOp::PushBack { value } => {
                entry_vec_push_back(&mut self.entries, value);
                true
            },
            DiffOp::PushFront { value } => {
                entry_vec_insert(&mut self.entries, 0, value);
                true
            },
            DiffOp::PopBack => {
                if len > 0 {
                    entry_vec_remove(&mut self.entries, len - 1);
                    proof {
                        assert(old(self)@.remove(len - 1) =~= old(self)@.drop_last());
                    }
                    true
                } else {
                    false
                }
            },
            DiffOp::PopFront => {
                if len > 0 {
                    entry_vec_remove(&mut self.entries, 0);
                    proof {
                        assert(old(self)@.remove(0) =~= old(self)@.skip(1));
                    }
                    true
                } else {
                    false
                }
            },
            DiffOp::Truncate { length } => {
                entry_vec_truncate(&mut self.entries, length);
                true
            },
            DiffOp::Clear => {
                entry_vec_clear(&mut self.entries);
                true
            },
            DiffOp::Append { values } => {
                let mut values = values;
                let ghost target = old(self)@ + values@;
                while values.len() > 0
                    invariant
                        entry_seq(self.entries) + values@ =~= target,
                    decreases values.len(),
                {
                    let ghost pre = entry_seq(self.entries);
                    let ghost vals_pre = values@;
                    let value = values.remove(0);
                    entry_vec_push_back(&mut self.entries, value);
                    proof {
                        assert(vals_pre.remove(0) =~= vals_pre.skip(1));
                        assert(pre.push(vals_pre[0]) + vals_pre.skip(1) =~= pre + vals_pre);
                    }
                }
                proof {
                    assert(entry_seq(self.entries) + values@ =~= entry_seq(self.entries));
                }
                true
            },
            DiffOp::ResetTo { values } => {
                let mut values = values;
                entry_vec_clear(&mut self.entries);
                let ghost target = values@;
                while values.len() > 0
                    invariant
                        entry_seq(self.entries) + values@ =~= target,
                    decreases values.len(),
                {
                    let ghost pre = entry_seq(self.entries);
                    let ghost vals_pre = values@;
                    let value = values.remove(0);
                    entry_vec_push_back(&mut self.entries, value);
                    proof {
                        assert(vals_pre.remove(0) =~= vals_pre.skip(1));
                        assert(pre.push(vals_pre[0]) + vals_pre.skip(1) =~= pre + vals_pre);
                    }
                }
                proof {
                    assert(entry_seq(self.entries) + values@ =~= entry_seq(self.entries));
                }
                true
            },
        }
    }

    /// Apply a whole diff batch strictly in order, committing every in-range
    /// operation and refusing the rest; returns how many were refused.  A
    /// reader holding a snapshot taken before the call never observes a
    /// partially-applied batch.
    pub fn apply_batch(&mut self, ops: Vec<DiffOp<ConversationEntry>>) -> (rejected: usize)
        ensures
            final(self)@ == apply_ops(old(self)@, ops@),
            rejected == rejected_ops(old(self)@, ops@),
    {
        let mut ops = ops;
        let mut rejected: usize = 0;
        let ghost s0 = self@;
        let ghost ops0 = ops@;
        let total = ops.len();
        while ops.len() > 0
            invariant
                apply_ops(s0, ops0) == apply_ops(self@, ops@),
                rejected_ops(s0, ops0) == rejected + rejected_ops(self@, ops@),
                rejected <= ops0.len() - ops@.len(),
                ops0.len() == total,
            decreases ops.len(),
        {
            let ghost ops_pre = ops@;
            let op = ops.remove(0);
            proof {
                assert(ops_pre.remove(0) =~= ops_pre.skip(1));
            }
            let applied = self.apply(op);
            if !applied {
                rejected = rejected + 1;
            }
        }
        rejected
    }
}

} // verus!
