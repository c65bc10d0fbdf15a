//! The conversation projection map: which conversation identifiers have been
//! provisioned with an external handle and a timeline consumer.
//!
//! An identifier is provisioned at most once over the program's lifetime:
//! a discovery round returns only identifiers that are resolvable from the
//! current list and not yet provisioned, each at most once, and committing a
//! round keeps the provisioning history free of duplicates.  An identifier
//! whose provisioning failed is simply not committed, so it is discovered
//! again the next time it appears in a diff round.

use vstd::prelude::*;
use crate::list::ConversationList;
use crate::model::{string_views, ConversationEntry};

verus! {

/// No identifier appears twice.
pub open spec fn distinct_ids(ids: Seq<Seq<char>>) -> bool {
    forall|i: int, j: int| 0 <= i < j < ids.len() ==> ids[i] != ids[j]
}

/// The identifiers resolvable from `entries` that are not in `known`, in
/// order of first appearance, each at most once.
pub open spec fn spec_new_ids(entries: Seq<ConversationEntry>, known: Seq<Seq<char>>) -> Seq<
    Seq<char>,
>
    decreases entries.len(),
{
    if entries.len() == 0 {
        Seq::empty()
    } else {
        match entries.first().spec_identifier() {
            Some(id) => if !known.contains(id) {
                seq![id] + spec_new_ids(entries.skip(1), known.push(id))
            } else {
                spec_new_ids(entries.skip(1), known)
            },
            None => spec_new_ids(entries.skip(1), known),
        }
    }
}

/// Membership in a concatenation is membership in either part.
pub proof fn lemma_add_contains(a: Seq<Seq<char>>, b: Seq<Seq<char>>, x: Seq<char>)
    ensures
        (a + b).contains(x) == (a.contains(x) || b.contains(x)),
{
    if a.contains(x) {
        let i = choose|i: int| 0 <= i < a.len() && a[i] == x;
        assert((a + b)[i] == x);
    }
    if b.contains(x) {
        let i = choose|i: int| 0 <= i < b.len() && b[i] == x;
        assert((a + b)[a.len() + i] == x);
    }
    if (a + b).contains(x) {
        let i = choose|i: int| 0 <= i < (a + b).len() && (a + b)[i] == x;
        if i < a.len() {
            assert(a[i] == x);
        } else {
            assert(b[i - a.len()] == x);
        }
    }
}

/// Two duplicate-free histories whose second part avoids the first
/// concatenate to a duplicate-free history.
pub proof fn lemma_distinct_append(a: Seq<Seq<char>>, b: Seq<Seq<char>>)
    requires
        distinct_ids(a),
        distinct_ids(b),
        forall|k: int| 0 <= k < b.len() ==> !a.contains(#[trigger] b[k]),
    ensures
        distinct_ids(a + b),
{
    assert forall|i: int, j: int| 0 <= i < j < (a + b).len() implies (a + b)[i] != (a + b)[j] by {
        if j < a.len() {
        } else if i < a.len() {
            assert(!a.contains(b[j - a.len()]));
            assert((a + b)[i] == a[i]);
        } else {
            assert((a + b)[i] == b[i - a.len()]);
            assert((a + b)[j] == b[j - a.len()]);
        }
    }
}

/// A discovery round returns no identifier that is already provisioned, and
/// returns none twice.
pub proof fn lemma_discovery_fresh(entries: Seq<ConversationEntry>, known: Seq<Seq<char>>)
    ensures
        forall|k: int|
            0 <= k < spec_new_ids(entries, known).len() ==> !known.contains(
                #[trigger] spec_new_ids(entries, known)[k],
            ),
        distinct_ids(spec_new_ids(entries, known)),
    decreases entries.len(),
{
    if entries.len() == 0 {
    } else {
        let rest = entries.skip(1);
        match entries.first().spec_identifier() {
            Some(id) => {
                if !known.contains(id) {
                    lemma_discovery_fresh(rest, known.push(id));
                    let tail = spec_new_ids(rest, known.push(id));
                    let whole = spec_new_ids(entries, known);
                    assert(whole =~= seq![id] + tail);
                    assert forall|k: int| 0 <= k < whole.len() implies !known.contains(
                        #[trigger] whole[k],
                    ) by {
                        if k > 0 {
                            assert(whole[k] == tail[k - 1]);
                            assert(!known.push(id).contains(tail[k - 1]));
                            if known.contains(tail[k - 1]) {
                                let i = choose|i: int|
                                    0 <= i < known.len() && known[i] == tail[k - 1];
                                assert(known.push(id)[i] == tail[k - 1]);
                            }
                        }
                    }
                    assert forall|i: int, j: int| 0 <= i < j < whole.len() implies whole[i]
                        != whole[j] by {
                        if i == 0 {
                            assert(whole[j] == tail[j - 1]);
                            assert(!known.push(id).contains(tail[j - 1]));
                            assert(known.push(id)[known.len() as int] == id);
                        } else {
                            assert(whole[i] == tail[i - 1]);
                            assert(whole[j] == tail[j - 1]);
                        }
                    }
                } else {
                    lemma_discovery_fresh(rest, known);
                }
            },
            None => {
                lemma_discovery_fresh(rest, known);
            },
        }
    }
}

/// No duplicate consumers: a provisioning history without duplicates, once
/// extended by any discovery round over it, is still without duplicates — so
/// at most one timeline consumer is ever started per conversation identifier
/// over the program's lifetime.
pub proof fn lemma_no_duplicate_consumers(entries: Seq<ConversationEntry>, known: Seq<Seq<char>>)
    requires
        distinct_ids(known),
    ensures
        distinct_ids(known + spec_new_ids(entries, known)),
        forall|k: int|
            0 <= k < spec_new_ids(entries, known).len() ==> !known.contains(
                #[trigger] spec_new_ids(entries, known)[k],
            ),
{
    lemma_discovery_fresh(entries, known);
    lemma_distinct_append(known, spec_new_ids(entries, known));
}

/// Whether some string of `ids` has exactly the characters of `id`.
fn ids_contain(ids: &Vec<String>, id: &String) -> (r: bool)
    ensures
        r == string_views(ids@).contains(id@),
{
    let n = ids.len();
    let mut k: usize = 0;
    while k < n
        invariant
            k <= n,
            n == ids@.len(),
            forall|j: int| 0 <= j < k ==> string_views(ids@)[j] != id@,
        decreases n - k,
    {
        if ids[k] == *id {
            proof {
                assert(string_views(ids@)[k as int] == id@);
            }
            return true;
        }
        k = k + 1;
    }
    proof {
        if string_views(ids@).contains(id@) {
            let j = choose|j: int|
                0 <= j < string_views(ids@).len() && string_views(ids@)[j] == id@;
            assert(false);
        }
    }
    false
}

/// The identifiers provisioned so far, in provisioning order; its view is
/// the provisioning history, which never holds an identifier twice.
pub struct ProjectionMap {
    ids: Vec<String>,
}

impl View for ProjectionMap {
    type V = Seq<Seq<char>>;

    closed spec fn view(&self) -> Seq<Seq<char>> {
        string_views(self.ids@)
    }
}

impl ProjectionMap {
    /// The provisioning history holds each identifier at most once.
    pub open spec fn wf(&self) -> bool {
        distinct_ids(self@)
    }

    /// The empty map, as it is at startup.
    pub fn new() -> (r: ProjectionMap)
        ensures
            r@ == Seq::<Seq<char>>::empty(),
            r.wf(),
    {
        let r = ProjectionMap { ids: Vec::new() };
        proof {
            assert(r@ =~= Seq::<Seq<char>>::empty());
        }
        r
    }

    /// How many conversations have been provisioned.
    pub fn len(&self) -> (n: usize)
        ensures
            n == self@.len(),
    {
        self.ids.len()
    }

    /// Whether `id` has already been provisioned.
    pub fn contains(&self, id: &String) -> (r: bool)
        ensures
            r == self@.contains(id@),
    {
        ids_contain(&self.ids, id)
    }

    /// The identifiers resolvable from the current list that are not yet
    /// provisioned, in order of first appearance, each at most once: the
    /// conversations this round must provision.
    pub fn discover(&self, list: &ConversationList) -> (fresh: Vec<String>)
        ensures
            string_views(fresh@) == spec_new_ids(list@, self@),
    {
        let mut fresh: Vec<String> = Vec::new();
        let n = list.len();
        let mut i: usize = 0;
        proof {
            assert(list@.skip(0) =~= list@);
            assert(string_views(fresh@) =~= Seq::<Seq<char>>::empty());
            assert(self@ + string_views(fresh@) =~= self@);
        }
        while i < n
            invariant
                i <= n,
                n == list@.len(),
                spec_new_ids(list@, self@) =~= string_views(fresh@) + spec_new_ids(
                    list@.skip(i as int),
                    self@ + string_views(fresh@),
                ),
            decreases n - i,
        {
            let ghost rest = list@.skip(i as int);
            let ghost fresh_pre = fresh@;
            let ghost known_pre = self@ + string_views(fresh@);
            proof {
                assert(rest.first() == list@[i as int]);
                assert(rest.skip(1) =~= list@.skip(i as int + 1));
            }
            match list.get(i) {
                Some(entry) => {
                    match entry.identifier() {
                        Some(id) => {
                            let already = self.contains(&id) || ids_contain(&fresh, &id);
                            proof {
                                lemma_add_contains(self@, string_views(fresh_pre), id@);
                                assert(already == known_pre.contains(id@));
                            }
                            if !already {
                                fresh.push(id);
                                proof {
                                    assert(string_views(fresh@) =~= string_views(fresh_pre).push(
                                        fresh@[fresh@.len() - 1]@,
                                    ));
                                    assert(self@ + string_views(fresh@) =~= known_pre.push(
                                        fresh@[fresh@.len() - 1]@,
                                    ));
                                    assert(string_views(fresh_pre) + (seq![
                                        fresh@[fresh@.len() - 1]@,
                                    ] + spec_new_ids(rest.skip(1), known_pre.push(
                                        fresh@[fresh@.len() - 1]@,
                                    ))) =~= string_views(fresh@) + spec_new_ids(
                                        rest.skip(1),
                                        self@ + string_views(fresh@),
                                    ));
                                }
                            }
                        },
                        None => {
                        },
                    }
                },
                None => {
                    proof {
                        assert(false);
                    }
                },
            }
            i = i + 1;
        }
        proof {
            assert(list@.skip(n as int) =~= Seq::<ConversationEntry>::empty());
            assert(string_views(fresh@) + Seq::<Seq<char>>::empty() =~= string_views(fresh@));
        }
        fresh
    }

    /// Record that each identifier of `fresh` has been provisioned: its
    /// handle was resolved and, where the timeline could be initialized, its
    /// consumer started.  Only identifiers that are not yet provisioned may
    /// be committed, so re-provisioning is impossible by construction.
    pub fn commit(&mut self, fresh: &Vec<String>)
        requires
            old(self).wf(),
            distinct_ids(string_views(fresh@)),
            forall|k: int|
                0 <= k < fresh@.len() ==> !old(self)@.contains(#[trigger] string_views(fresh@)[k]),
        ensures
            final(self)@ == old(self)@ + string_views(fresh@),
            final(self).wf(),
    {
        let n = fresh.len();
        let mut k: usize = 0;
        proof {
            assert(string_views(fresh@.take(0)) =~= Seq::<Seq<char>>::empty());
            assert(self@ + Seq::<Seq<char>>::empty() =~= self@);
        }
        while k < n
            invariant
                k <= n,
                n == fresh@.len(),
                self@ =~= old(self)@ + string_views(fresh@.take(k as int)),
            decreases n - k,
        {
            let ghost pre = self@;
            self.ids.push(fresh[k].clone());
            proof {
                assert(string_views(fresh@.take(k as int + 1)) =~= string_views(
                    fresh@.take(k as int),
                ).push(fresh@[k as int]@));
                assert(self@ =~= pre.push(fresh@[k as int]@));
            }
            k = k + 1;
        }
        proof {
            assert(fresh@.take(n as int) =~= fresh@);
            assert(string_views(fresh@.take(n as int)) =~= string_views(fresh@));
            lemma_distinct_append(old(self)@, string_views(fresh@));
        }
    }
}

} // verus!
