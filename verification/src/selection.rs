//! Selection and subscription control: the highlighted index moves over the
//! current list length with wraparound, and every effective index change
//! re-targets the single external subscription — the previous one is released
//! before the new one is acquired, and at most one is ever held.

use vstd::prelude::*;
use vstd::arithmetic::div_mod::{
    lemma_add_mod_noop, lemma_add_mod_noop_right, lemma_mod_add_multiples_vanish, lemma_mod_self_0,
    lemma_small_mod,
};
use crate::list::ConversationList;
use crate::model::ConversationEntry;
use crate::projection::ProjectionMap;

verus! {

/// The index the highlight lands on when moving forward over `len` slots:
/// the next index, wrapping to the front past the end; the front when
/// nothing was selected; none when the list is empty.
pub open spec fn spec_next_index(sel: Option<usize>, len: usize) -> Option<usize> {
    if len == 0 {
        None
    } else {
        match sel {
            None => Some(0usize),
            Some(i) => if i >= len - 1 {
                Some(0usize)
            } else {
                Some((i + 1) as usize)
            },
        }
    }
}

/// The index the highlight lands on when moving backward over `len` slots:
/// the previous index, wrapping to the back past the front; the front when
/// nothing was selected; none when the list is empty.
pub open spec fn spec_prev_index(sel: Option<usize>, len: usize) -> Option<usize> {
    if len == 0 {
        None
    } else {
        match sel {
            None => Some(0usize),
            Some(i) => if i == 0 {
                Some((len - 1) as usize)
            } else {
                Some((i - 1) as usize)
            },
        }
    }
}

/// The identifier the slot at `sel` resolves to, if any.
pub open spec fn spec_selected_identifier(
    entries: Seq<ConversationEntry>,
    sel: Option<usize>,
) -> Option<Seq<char>> {
    match sel {
        None => None,
        Some(i) => if i < entries.len() {
            entries[i as int].spec_identifier()
        } else {
            None
        },
    }
}

/// The identifier the slot at `sel` resolves to, provided it has been
/// provisioned with a handle (`known`): the conversation a subscription at
/// that selection must be held for, if any.
pub open spec fn spec_resolved(
    entries: Seq<ConversationEntry>,
    known: Seq<Seq<char>>,
    sel: Option<usize>,
) -> Option<Seq<char>> {
    match spec_selected_identifier(entries, sel) {
        Some(id) => if known.contains(id) {
            Some(id)
        } else {
            None
        },
        None => None,
    }
}

/// The characters of an optional identifier.
pub open spec fn opt_view(o: Option<String>) -> Option<Seq<char>> {
    match o {
        Some(s) => Some(s@),
        None => None,
    }
}

/// One selection move and its subscription effect: on an empty list the
/// selection clears and the subscription is untouched; on a move to the same
/// index nothing happens; on an effective move the subscription re-targets
/// to whatever the new slot resolves to.
pub open spec fn spec_move(
    sel: Option<usize>,
    sub: Option<Seq<char>>,
    forward: bool,
    entries: Seq<ConversationEntry>,
    known: Seq<Seq<char>>,
) -> (Option<usize>, Option<Seq<char>>) {
    if entries.len() == 0 {
        (None, sub)
    } else {
        let len = entries.len() as usize;
        let target = if forward {
            spec_next_index(sel, len)
        } else {
            spec_prev_index(sel, len)
        };
        if sel == target {
            (sel, sub)
        } else {
            (target, spec_resolved(entries, known, target))
        }
    }
}

/// A sequence of selection moves (`true` forward, `false` backward), applied
/// in order over a fixed list and projection map.
pub open spec fn spec_run(
    sel: Option<usize>,
    sub: Option<Seq<char>>,
    moves: Seq<bool>,
    entries: Seq<ConversationEntry>,
    known: Seq<Seq<char>>,
) -> (Option<usize>, Option<Seq<char>>)
    decreases moves.len(),
{
    if moves.len() == 0 {
        (sel, sub)
    } else {
        let (s1, b1) = spec_move(sel, sub, moves.first(), entries, known);
        spec_run(s1, b1, moves.skip(1), entries, known)
    }
}

/// An external subscription call the caller must perform, in the order
/// handed out: every release comes before any acquire.
#[derive(PartialEq, Eq, Debug)]
pub enum SubscriptionAction {
    /// Drop the subscription held for this conversation.
    Release(String),
    /// Take a subscription for this conversation.
    Acquire(String),
}

/// The highlighted index into the conversation list and the single external
/// subscription held for it.
pub struct SelectionState {
    /// Currently highlighted slot, if any.
    pub selected: Option<usize>,
    /// Conversation the one external subscription is held for, if any.
    pub subscribed: Option<String>,
}

impl SelectionState {
    /// Initial state: nothing selected, nothing subscribed.
    pub fn new() -> (r: SelectionState)
        ensures
            r.selected is None,
            r.subscribed is None,
    {
        SelectionState { selected: None, subscribed: None }
    }

    /// Move the highlight to the next slot, wrapping past the end.  Returns
    /// the new index only on a meaningful change, so that callers avoid
    /// redundant subscription churn; an empty list clears the selection and
    /// reports no change.
    pub fn focus_next(&mut self, len: usize) -> (changed: Option<usize>)
        ensures
            final(self).subscribed == old(self).subscribed,
            final(self).selected == spec_next_index(old(self).selected, len),
            changed == (if len > 0 && final(self).selected != old(self).selected {
                final(self).selected
            } else {
                Option::<usize>::None
            }),
    {
        if len == 0 {
            self.selected = None;
            return None;
        }
        let new = match self.selected {
            None => 0,
            Some(i) => if i >= len - 1 {
                0
            } else {
                i + 1
            },
        };
        if self.selected != Some(new) {
            self.selected = Some(new);
            Some(new)
        } else {
            None
        }
    }

    /// Move the highlight to the previous slot, wrapping past the front.
    /// Returns the new index only on a meaningful change; an empty list
    /// clears the selection and reports no change.
    pub fn focus_previous(&mut self, len: usize) -> (changed: Option<usize>)
        ensures
            final(self).subscribed == old(self).subscribed,
            final(self).selected == spec_prev_index(old(self).selected, len),
            changed == (if len > 0 && final(self).selected != old(self).selected {
                final(self).selected
            } else {
                Option::<usize>::None
            }),
    {
        if len == 0 {
            self.selected = None;
            return None;
        }
        let new = match self.selected {
            None => 0,
            Some(i) => if i == 0 {
                len - 1
            } else {
                i - 1
            },
        };
        if self.selected != Some(new) {
            self.selected = Some(new);
            Some(new)
        } else {
            None
        }
    }

    /// Re-target the subscription: always release the one held, and acquire
    /// one for `target` when there is one — in that order.
    pub fn retarget(&mut self, target: Option<String>) -> (actions: Vec<SubscriptionAction>)
        ensures
            final(self).selected == old(self).selected,
            final(self).subscribed == target,
            actions@ =~= (match old(self).subscribed {
                Some(p) => seq![SubscriptionAction::Release(p)],
                None => Seq::<SubscriptionAction>::empty(),
            }) + (match target {
                Some(t) => seq![SubscriptionAction::Acquire(t)],
                None => Seq::<SubscriptionAction>::empty(),
            }),
    {
        let mut actions: Vec<SubscriptionAction> = Vec::new();
        let prev = self.subscribed.take();
        match prev {
            Some(p) => actions.push(SubscriptionAction::Release(p)),
            None => (),
        }
        match target {
            Some(t) => {
                actions.push(SubscriptionAction::Acquire(t.clone()));
                self.subscribed = Some(t);
            },
            None => {
                self.subscribed = None;
            },
        }
        actions
    }

    /// The identifier of the currently selected slot, if the slot resolves
    /// to one — whether or not it has been provisioned.
    pub fn selected_identifier(&self, list: &ConversationList) -> (r: Option<String>)
        ensures
            opt_view(r) == spec_selected_identifier(list@, self.selected),
    {
        match self.selected {
            None => None,
            Some(i) => match list.get(i) {
                Some(entry) => entry.identifier(),
                None => None,
            },
        }
    }

    /// The identifier of the currently selected slot, provided it has been
    /// provisioned in the projection map: the conversation that commands
    /// such as mark-as-read act on.
    pub fn selected_resolved(&self, list: &ConversationList, map: &ProjectionMap) -> (r: Option<
        String,
    >)
        ensures
            opt_view(r) == spec_resolved(list@, map@, self.selected),
    {
        match self.selected {
            None => None,
            Some(i) => match list.get(i) {
                Some(entry) => match entry.identifier() {
                    Some(id) => {
                        if map.contains(&id) {
                            Some(id)
                        } else {
                            None
                        }
                    },
                    None => None,
                },
                None => None,
            },
        }
    }

    /// Move the highlight forward and, on a meaningful change, re-target the
    /// subscription to whatever the new slot resolves to; the actions hand
    /// the caller the release before the acquire.
    pub fn select_next(&mut self, list: &ConversationList, map: &ProjectionMap) -> (actions: Vec<
        SubscriptionAction,
    >)
        ensures
            (final(self).selected, opt_view(final(self).subscribed)) == spec_move(
                old(self).selected,
                opt_view(old(self).subscribed),
                true,
                list@,
                map@,
            ),
            final(self).selected == old(self).selected ==> (actions@
                =~= Seq::<SubscriptionAction>::empty()
                && final(self).subscribed == old(self).subscribed),
            list@.len() == 0 ==> (actions@ =~= Seq::<SubscriptionAction>::empty()
                && final(self).subscribed == old(self).subscribed),
            list@.len() > 0 && final(self).selected != old(self).selected ==> actions@ =~= (
            match old(self).subscribed {
                Some(p) => seq![SubscriptionAction::Release(p)],
                None => Seq::<SubscriptionAction>::empty(),
            }) + (match final(self).subscribed {
                Some(t) => seq![SubscriptionAction::Acquire(t)],
                None => Seq::<SubscriptionAction>::empty(),
            }),
    {
        let len = list.len();
        match self.focus_next(len) {
            Some(_) => {
                let target = self.selected_resolved(list, map);
                self.retarget(target)
            },
            None => Vec::new(),
        }
    }

    /// Move the highlight backward and, on a meaningful change, re-target
    /// the subscription to whatever the new slot resolves to; the actions
    /// hand the caller the release before the acquire.
    pub fn select_previous(&mut self, list: &ConversationList, map: &ProjectionMap) -> (actions:
        Vec<SubscriptionAction>)
        ensures
            (final(self).selected, opt_view(final(self).subscribed)) == spec_move(
                old(self).selected,
                opt_view(old(self).subscribed),
                false,
                list@,
                map@,
            ),
            final(self).selected == old(self).selected ==> (actions@
                =~= Seq::<SubscriptionAction>::empty()
                && final(self).subscribed == old(self).subscribed),
            list@.len() == 0 ==> (actions@ =~= Seq::<SubscriptionAction>::empty()
                && final(self).subscribed == old(self).subscribed),
            list@.len() > 0 && final(self).selected != old(self).selected ==> actions@ =~= (
            match old(self).subscribed {
                Some(p) => seq![SubscriptionAction::Release(p)],
                None => Seq::<SubscriptionAction>::empty(),
            }) + (match final(self).subscribed {
                Some(t) => seq![SubscriptionAction::Acquire(t)],
                None => Seq::<SubscriptionAction>::empty(),
            }),
    {
        let len = list.len();
        match self.focus_previous(len) {
            Some(_) => {
                let target = self.selected_resolved(list, map);
                self.retarget(target)
            },
            None => Vec::new(),
        }
    }
}

/// Repeat a forward move `k` times.
pub open spec fn spec_iter_next(sel: Option<usize>, len: usize, k: nat) -> Option<usize>
    decreases k,
{
    if k == 0 {
        sel
    } else {
        spec_iter_next(spec_next_index(sel, len), len, (k - 1) as nat)
    }
}

/// After `k` forward moves from index `i` over `len` slots, the highlight is
/// at `(i + k) % len`.
proof fn lemma_iter_next_shift(i: usize, len: usize, k: nat)
    requires
        len >= 1,
        i < len,
    ensures
        spec_iter_next(Some(i), len, k) == Some((((i + k) % (len as int)) as usize)),
    decreases k,
{
    if k == 0 {
        lemma_small_mod(i as nat, len as nat);
    } else {
        let m = len as int;
        let j: usize = if i >= len - 1 {
            0
        } else {
            (i + 1) as usize
        };
        assert(spec_next_index(Some(i), len) == Some(j));
        if i >= len - 1 {
            lemma_mod_self_0(m);
            assert(j == (i + 1) % m);
        } else {
            lemma_small_mod((i + 1) as nat, len as nat);
            assert(j == (i + 1) % m);
        }
        lemma_iter_next_shift(j, len, (k - 1) as nat);
        lemma_add_mod_noop_right(j as int, (k - 1) as int, m);
        assert((j + (k - 1)) % m == (j + ((k - 1) % m)) % m);
        lemma_add_mod_noop(i + 1, (k - 1) as int, m);
        lemma_small_mod((((i + 1) % m) as nat), len as nat);
        assert((j + (k - 1)) % m == (i + k) % m) by {
            assert(((i + 1) % m + (k - 1) % m) % m == (i + 1 + (k - 1)) % m);
            assert((j + ((k - 1) % m)) % m == ((i + 1) % m + (k - 1) % m) % m) by {
                lemma_add_mod_noop((i + 1) % m, (k - 1) % m, m);
                lemma_add_mod_noop(j as int, (k - 1) % m, m);
            }
        }
    }
}

/// Selection wraparound: over a list of length `len >= 1`, repeating the
/// forward move `len` times returns the highlight to where it started; and
/// on an empty list a move in either direction leaves the selection at none
/// and the subscription untouched.
pub proof fn lemma_selection_wraparound(
    i: usize,
    len: usize,
    sel: Option<usize>,
    sub: Option<Seq<char>>,
    forward: bool,
    known: Seq<Seq<char>>,
)
    requires
        len >= 1,
        i < len,
    ensures
        spec_iter_next(Some(i), len, len as nat) == Some(i),
        spec_move(sel, sub, forward, Seq::<ConversationEntry>::empty(), known) == (
        Option::<usize>::None,
        sub,
        ),
{
    lemma_iter_next_shift(i, len, len as nat);
    let m = len as int;
    lemma_mod_add_multiples_vanish(i as int, m);
    lemma_small_mod(i as nat, len as nat);
}

/// Subscription exclusivity: at most one external subscription is held (the
/// state has room for only one), and after any sequence of selection moves
/// over a fixed list and projection map, the subscription still corresponds
/// exactly to the currently selected slot's resolved conversation — or none.
pub proof fn lemma_subscription_exclusivity(
    sel: Option<usize>,
    sub: Option<Seq<char>>,
    moves: Seq<bool>,
    entries: Seq<ConversationEntry>,
    known: Seq<Seq<char>>,
)
    requires
        sub == spec_resolved(entries, known, sel),
    ensures
        ({
            let (s2, b2) = spec_run(sel, sub, moves, entries, known);
            b2 == spec_resolved(entries, known, s2)
        }),
    decreases moves.len(),
{
    if moves.len() == 0 {
    } else {
        let (s1, b1) = spec_move(sel, sub, moves.first(), entries, known);
        if entries.len() == 0 {
            assert(b1 == spec_resolved(entries, known, s1));
        }
        lemma_subscription_exclusivity(s1, b1, moves.skip(1), entries, known);
    }
}

} // verus!
