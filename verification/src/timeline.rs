//! A conversation's timeline: the ordered sequence of displayable items,
//! fed by exactly one consumer that applies that conversation's diff stream
//! strictly in order, and read by the render loop as a list of text lines.

use vstd::prelude::*;
use vstd::string::StringExecFns;
use crate::diff::{apply_op, apply_ops, op_valid, rejected_ops, DiffOp};
use crate::model::{string_views, ContentKind, TimelineItem, VirtualItem};
use crate::shared_vector::{
    item_seq, item_vec_clear, item_vec_get, item_vec_insert, item_vec_len, item_vec_new,
    item_vec_push_back, item_vec_remove, item_vec_set, item_vec_snapshot, item_vec_truncate,
    ItemVector,
};

verus! {

/// The decimal digit character for `d`.
pub open spec fn spec_digit(d: nat) -> char {
    if d == 0 {
        '0'
    } else if d == 1 {
        '1'
    } else if d == 2 {
        '2'
    } else if d == 3 {
        '3'
    } else if d == 4 {
        '4'
    } else if d == 5 {
        '5'
    } else if d == 6 {
        '6'
    } else if d == 7 {
        '7'
    } else if d == 8 {
        '8'
    } else {
        '9'
    }
}

/// The decimal notation of `n`, most significant digit first, no leading
/// zeros (a single `0` for zero).
pub open spec fn spec_decimal(n: nat) -> Seq<char>
    decreases n,
{
    if n < 10 {
        seq![spec_digit(n)]
    } else {
        spec_decimal(n / 10).push(spec_digit(n % 10))
    }
}

/// The text line a timeline item contributes to the rendered view, or `None`
/// for items the view does not display (non-text messages and ignored event
/// content).
pub open spec fn spec_line(item: TimelineItem) -> Option<Seq<char>> {
    match item {
        TimelineItem::Event { sender, content } => match content {
            ContentKind::Message(obody) => match obody {
                Some(body) => Some(sender@ + ": "@ + body@),
                None => None,
            },
            ContentKind::RedactedMessage => Some(sender@ + ": -- redacted --"@),
            ContentKind::UndecryptableMessage => Some(sender@ + ": (UTD)"@),
            ContentKind::Other => None,
        },
        TimelineItem::Virtual(v) => match v {
            VirtualItem::DayDivider(ts) => Some("Date: "@ + spec_decimal(ts as nat)),
            VirtualItem::ReadMarker => Some("Read marker"@),
        },
    }
}

/// The rendered lines of a whole item sequence, in order, skipping items
/// that contribute none.
pub open spec fn spec_lines(items: Seq<TimelineItem>) -> Seq<Seq<char>>
    decreases items.len(),
{
    if items.len() == 0 {
        Seq::empty()
    } else {
        match spec_line(items.first()) {
            Some(l) => seq![l] + spec_lines(items.skip(1)),
            None => spec_lines(items.skip(1)),
        }
    }
}

/// The single-character decimal digit as text.
fn digit_str(d: u64) -> (r: &'static str)
    requires
        d < 10,
    ensures
        r@ =~= seq![spec_digit(d as nat)],
{
    proof {
        reveal_strlit("0");
        reveal_strlit("1");
        reveal_strlit("2");
        reveal_strlit("3");
        reveal_strlit("4");
        reveal_strlit("5");
        reveal_strlit("6");
        reveal_strlit("7");
        reveal_strlit("8");
        reveal_strlit("9");
    }
    if d == 0 {
        "0"
    } else if d == 1 {
        "1"
    } else if d == 2 {
        "2"
    } else if d == 3 {
        "3"
    } else if d == 4 {
        "4"
    } else if d == 5 {
        "5"
    } else if d == 6 {
        "6"
    } else if d == 7 {
        "7"
    } else if d == 8 {
        "8"
    } else {
        "9"
    }
}

/// The decimal notation of `n`.
pub fn decimal_string(n: u64) -> (r: String)
    ensures
        r@ == spec_decimal(n as nat),
    decreases n,
{
    if n < 10 {
        digit_str(n).to_owned()
    } else {
        let mut s = decimal_string(n / 10);
        s.append(digit_str(n % 10));
        proof {
            assert(spec_decimal((n / 10) as nat).push(spec_digit((n % 10) as nat)) =~= spec_decimal(
                (n / 10) as nat,
            ) + seq![spec_digit((n % 10) as nat)]);
        }
        s
    }
}

/// The text line `item` contributes to the rendered view, if any.
pub fn line_of(item: &TimelineItem) -> (r: Option<String>)
    ensures
        (r is Some) == (spec_line(*item) is Some),
        r matches Some(l) ==> spec_line(*item) == Some(l@),
{
    match item {
        TimelineItem::Event { sender, content } => match content {
            ContentKind::Message(Some(body)) => Some(sender.clone().concat(": ").concat(
                body.as_str(),
            )),
            ContentKind::Message(None) => None,
            ContentKind::RedactedMessage => Some(sender.clone().concat(": -- redacted --")),
            ContentKind::UndecryptableMessage => Some(sender.clone().concat(": (UTD)")),
            ContentKind::Other => None,
        },
        TimelineItem::Virtual(VirtualItem::DayDivider(ts)) => {
            let date = decimal_string(*ts);
            Some("Date: ".to_owned().concat(date.as_str()))
        },
        TimelineItem::Virtual(VirtualItem::ReadMarker) => Some("Read marker".to_owned()),
    }
}

/// One conversation's ordered timeline items.
pub struct Timeline {
    items: ItemVector,
}

impl View for Timeline {
    type V = Seq<TimelineItem>;

    closed spec fn view(&self) -> Seq<TimelineItem> {
        item_seq(self.items)
    }
}

impl Timeline {
    /// A timeline holding the given initial item snapshot, as handed out by
    /// the external timeline service on subscription.
    pub fn from_initial(items: Vec<TimelineItem>) -> (r: Timeline)
        ensures
            r@ == items@,
    {
        let mut t = Timeline { items: item_vec_new() };
        let mut items = items;
        let ghost target = items@;
        while items.len() > 0
            invariant
                item_seq(t.items) + items@ =~= target,
            decreases items.len(),
        {
            let ghost pre = item_seq(t.items);
            let ghost vals_pre = items@;
            let value = items.remove(0);
            item_vec_push_back(&mut t.items, value);
            proof {
                assert(vals_pre.remove(0) =~= vals_pre.skip(1));
                assert(pre.push(vals_pre[0]) + vals_pre.skip(1) =~= pre + vals_pre);
            }
        }
        proof {
            assert(item_seq(t.items) + items@ =~= item_seq(t.items));
        }
        t
    }

    /// Number of items currently in the timeline.
    pub fn len(&self) -> (n: usize)
        ensures
            n == self@.len(),
    {
        item_vec_len(&self.items)
    }

    /// The item at `index`, or `None` when the index is out of bounds.
    pub fn get(&self, index: usize) -> (r: Option<TimelineItem>)
        ensures
            index < self@.len() ==> r == Some(self@[index as int]),
            index >= self@.len() ==> r is None,
    {
        item_vec_get(&self.items, index)
    }

    /// A consistent point-in-time copy of the timeline; later mutations of
    /// the timeline do not show through it.
    pub fn snapshot(&self) -> (r: Timeline)
        ensures
            r@ == self@,
    {
        Timeline { items: item_vec_snapshot(&self.items) }
    }

    /// Apply one structural diff operation.  An operation whose index is out
    /// of range for the current length is refused: the timeline is unchanged
    /// and `false` is returned for the caller to report.
    pub fn apply(&mut self, op: DiffOp<TimelineItem>) -> (applied: bool)
        ensures
            applied == op_valid(old(self)@, op),
            final(self)@ == apply_op(old(self)@, op),
    {
        let len = item_vec_len(&self.items);
        match op {
            DiffOp::InsertAt { index, value } => {
                if index <= len {
                    item_vec_insert(&mut self.items, index, value);
                    true
                } else {
                    false
                }
            },
            DiffOp::RemoveAt { index } => {
                if index < len {
                    item_vec_remove(&mut self.items, index);
                    true
                } else {
                    false
                }
            },
            DiffOp::ReplaceAt { index, value } => {
                if index < len {
                    item_vec_set(&mut self.items, index, value);
                    true
                } else {
                    false
                }
            },
            DiffOp::PushBack { value } => {
                item_vec_push_back(&mut self.items, value);
                true
            },
            DiffOp::PushFront { value } => {
                item_vec_insert(&mut self.items, 0, value);
                true
            },
            DiffOp::PopBack => {
                if len > 0 {
                    item_vec_remove(&mut self.items, len - 1);
                    proof {
                        assert(old(self)@.remove(len - 1) =~= old(self)@.drop_last());
                    }
                    true
                } else {
                    false
                }
            },
            DiffOp::PopFront => {
                if len > 0 {
                    item_vec_remove(&mut self.items, 0);
                    proof {
                        assert(old(self)@.remove(0) =~= old(self)@.skip(1));
                    }
                    true
                } else {
                    false
                }
            },
            DiffOp::Truncate { length } => {
                item_vec_truncate(&mut self.items, length);
                true
            },
            DiffOp::Clear => {
                item_vec_clear(&mut self.items);
                true
            },
            DiffOp::Append { values } => {
                let mut values = values;
                let ghost target = old(self)@ + values@;
                while values.len() > 0
                    invariant
                        item_seq(self.items) + values@ =~= target,
                    decreases values.len(),
                {
                    let ghost pre = item_seq(self.items);
                    let ghost vals_pre = values@;
                    let value = values.remove(0);
                    item_vec_push_back(&mut self.items, value);
                    proof {
                        assert(vals_pre.remove(0) =~= vals_pre.skip(1));
                        assert(pre.push(vals_pre[0]) + vals_pre.skip(1) =~= pre + vals_pre);
                    }
                }
                proof {
                    assert(item_seq(self.items) + values@ =~= item_seq(self.items));
                }
                true
            },
            DiffOp::ResetTo { values } => {
                let mut values = values;
                item_vec_clear(&mut self.items);
                let ghost target = values@;
                while values.len() > 0
                    invariant
                        item_seq(self.items) + values@ =~= target,
                    decreases values.len(),
                {
                    let ghost pre = item_seq(self.items);
                    let ghost vals_pre = values@;
                    let value = values.remove(0);
                    item_vec_push_back(&mut self.items, value);
                    proof {
                        assert(vals_pre.remove(0) =~= vals_pre.skip(1));
                        assert(pre.push(vals_pre[0]) + vals_pre.skip(1) =~= pre + vals_pre);
                    }
                }
                proof {
                    assert(item_seq(self.items) + values@ =~= item_seq(self.items));
                }
                true
            },
        }
    }

    /// Apply a whole diff batch strictly in order, committing every in-range
    /// operation and refusing the rest; returns how many were refused.
    pub fn apply_batch(&mut self, ops: Vec<DiffOp<TimelineItem>>) -> (rejected: usize)
        ensures
            final(self)@ == apply_ops(old(self)@, ops@),
            rejected == rejected_ops(old(self)@, ops@),
    {
        let mut ops = ops;
        let mut rejected: usize = 0;
        let ghost s0 = self@;
        let ghost ops0 = ops@;
        let total = ops.len();
        while ops.len() > 0
            invariant
                apply_ops(s0, ops0) == apply_ops(self@, ops@),
                rejected_ops(s0, ops0) == rejected + rejected_ops(self@, ops@),
                rejected <= ops0.len() - ops@.len(),
                ops0.len() == total,
            decreases ops.len(),
        {
            let ghost ops_pre = ops@;
            let op = ops.remove(0);
            proof {
                assert(ops_pre.remove(0) =~= ops_pre.skip(1));
            }
            let applied = self.apply(op);
            if !applied {
                rejected = rejected + 1;
            }
        }
        rejected
    }

    /// The text lines of the current items, in order: what the detail view
    /// shows for this conversation.
    pub fn visible_lines(&self) -> (r: Vec<String>)
        ensures
            string_views(r@) == spec_lines(self@),
    {
        let mut out: Vec<String> = Vec::new();
        let n = item_vec_len(&self.items);
        let mut i: usize = 0;
        proof {
            assert(self@.skip(0) =~= self@);
            assert(string_views(out@) =~= Seq::<Seq<char>>::empty());
        }
        while i < n
            invariant
                i <= n,
                n == self@.len(),
                spec_lines(self@) =~= string_views(out@) + spec_lines(self@.skip(i as int)),
            decreases n - i,
        {
            let ghost out_pre = out@;
            let ghost rest = self@.skip(i as int);
            match item_vec_get(&self.items, i) {
                Some(item) => {
                    proof {
                        assert(rest.first() == self@[i as int]);
                        assert(rest.skip(1) =~= self@.skip(i as int + 1));
                    }
                    match line_of(&item) {
                        Some(line) => {
                            out.push(line);
                            proof {
                                assert(string_views(out@) =~= string_views(out_pre).push(
                                    out@[out@.len() - 1]@,
                                ));
                                assert(string_views(out_pre) + (seq![out@[out@.len() - 1]@]
                                    + spec_lines(rest.skip(1))) =~= string_views(out@)
                                    + spec_lines(rest.skip(1)));
                            }
                        },
                        None => {
                        },
                    }
                },
                None => {
                    proof {
                        assert(false);
                    }
                },
            }
            i = i + 1;
        }
        proof {
            assert(self@.skip(n as int) =~= Seq::<TimelineItem>::empty());
            assert(string_views(out@) + Seq::<Seq<char>>::empty() =~= string_views(out@));
        }
        out
    }
}

} // verus!
