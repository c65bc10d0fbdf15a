//! Trusted boundary to `imbl`'s persistent vector, the ordered,
//! structurally-shared container that holds the conversation list and each
//! timeline.
//!
//! The vector is opaque to the verifier; `entry_seq` and `item_seq` name the
//! sequence of elements it holds, and each wrapper states, over those names,
//! what the corresponding `imbl` operation does to the contents, as its
//! source shows.  Cloning is O(1) structural sharing, so a reader's snapshot
//! never observes later mutations.

use vstd::prelude::*;
use crate::model::{ConversationEntry, TimelineItem};

verus! {

/// An ordered sequence of conversation-list entries, backed by imbl's
/// persistent vector; the container is opaque to the verifier and is reached
/// only through the wrappers below.
#[verifier::external_body]
pub struct EntryVector {
    inner: imbl::Vector<ConversationEntry>,
}

/// An ordered sequence of timeline items, backed by imbl's persistent
/// vector; the container is opaque to the verifier and is reached only
/// through the wrappers below.
#[verifier::external_body]
pub struct ItemVector {
    inner: imbl::Vector<TimelineItem>,
}

/// The conversation-list entries the vector holds, in order.
pub uninterp spec fn entry_seq(v: EntryVector) -> Seq<ConversationEntry>;

/// The timeline items the vector holds, in order.
pub uninterp spec fn item_seq(v: ItemVector) -> Seq<TimelineItem>;

/// Relies on imbl::GenericVector::new: an empty vector.
#[verifier::external_body]
pub(crate) fn entry_vec_new() -> (r: EntryVector)
    ensures
        entry_seq(r) == Seq::<ConversationEntry>::empty(),
{
    EntryVector { inner: imbl::Vector::new() }
}

/// Relies on imbl::GenericVector::len: the number of elements held.
#[verifier::external_body]
pub(crate) fn entry_vec_len(v: &EntryVector) -> (n: usize)
    ensures
        n == entry_seq(*v).len(),
{
    v.inner.len()
}

/// Relies on imbl::GenericVector::get: the element at the index, or `None`
/// when the index is out of bounds.
#[verifier::external_body]
pub(crate) fn entry_vec_get(v: &EntryVector, index: usize) -> (r: Option<
    ConversationEntry,
>)
    ensures
        index < entry_seq(*v).len() ==> r == Some(entry_seq(*v)[index as int]),
        index >= entry_seq(*v).len() ==> r is None,
{
    v.inner.get(index).cloned()
}

/// Relies on imbl::GenericVector::insert: places the value at the index and
/// shifts the elements after it to the right; the index may be one past the
/// end, and the call panics beyond that.
#[verifier::external_body]
pub(crate) fn entry_vec_insert(
    v: &mut EntryVector,
    index: usize,
    value: ConversationEntry,
)
    requires
        index <= entry_seq(*old(v)).len(),
    ensures
        entry_seq(*final(v)) == entry_seq(*old(v)).insert(index as int, value),
{
    v.inner.insert(index, value)
}

/// Relies on imbl::GenericVector::remove: takes the element out at the index
/// and shifts the elements after it to the left; panics out of bounds.
#[verifier::external_body]
pub(crate) fn entry_vec_remove(v: &mut EntryVector, index: usize) -> (r:
    ConversationEntry)
    requires
        index < entry_seq(*old(v)).len(),
    ensures
        r == entry_seq(*old(v))[index as int],
        entry_seq(*final(v)) == entry_seq(*old(v)).remove(index as int),
{
    v.inner.remove(index)
}

/// Relies on imbl::GenericVector::set: replaces the element at the index and
/// returns the previous one; panics out of bounds.
#[verifier::external_body]
pub(crate) fn entry_vec_set(
    v: &mut EntryVector,
    index: usize,
    value: ConversationEntry,
) -> (r: ConversationEntry)
    requires
        index < entry_seq(*old(v)).len(),
    ensures
        r == entry_seq(*old(v))[index as int],
        entry_seq(*final(v)) == entry_seq(*old(v)).update(index as int, value),
{
    v.inner.set(index, value)
}

/// Relies on imbl::GenericVector::push_back: appends the value at the back.
#[verifier::external_body]
pub(crate) fn entry_vec_push_back(v: &mut EntryVector, value: ConversationEntry)
    ensures
        entry_seq(*final(v)) == entry_seq(*old(v)).push(value),
{
    v.inner.push_back(value)
}

/// Relies on imbl::GenericVector::truncate: discards every element past the
/// given length, and does nothing when the vector is already that short.
#[verifier::external_body]
pub(crate) fn entry_vec_truncate(v: &mut EntryVector, length: usize)
    ensures
        entry_seq(*final(v)) == if length >= entry_seq(*old(v)).len() {
            entry_seq(*old(v))
        } else {
            entry_seq(*old(v)).take(length as int)
        },
{
    v.inner.truncate(length)
}

/// Relies on imbl::GenericVector::clear: removes every element.
#[verifier::external_body]
pub(crate) fn entry_vec_clear(v: &mut EntryVector)
    ensures
        entry_seq(*final(v)) == Seq::<ConversationEntry>::empty(),
{
    v.inner.clear()
}

/// Relies on imbl::GenericVector::clone: an O(1), structurally shared copy
/// holding the same elements; later mutations of either copy do not show
/// through the other.
#[verifier::external_body]
pub(crate) fn entry_vec_snapshot(v: &EntryVector) -> (r: EntryVector)
    ensures
        entry_seq(r) == entry_seq(*v),
{
    EntryVector { inner: v.inner.clone() }
}

/// Relies on imbl::GenericVector::new: an empty vector.
#[verifier::external_body]
pub(crate) fn item_vec_new() -> (r: ItemVector)
    ensures
        item_seq(r) == Seq::<TimelineItem>::empty(),
{
    ItemVector { inner: imbl::Vector::new() }
}

/// Relies on imbl::GenericVector::len: the number of elements held.
#[verifier::external_body]
pub(crate) fn item_vec_len(v: &ItemVector) -> (n: usize)
    ensures
        n == item_seq(*v).len(),
{
    v.inner.len()
}

/// Relies on imbl::GenericVector::get: the element at the index, or `None`
/// when the index is out of bounds.
#[verifier::external_body]
pub(crate) fn item_vec_get(v: &ItemVector, index: usize) -> (r: Option<
    TimelineItem,
>)
    ensures
        index < item_seq(*v).len() ==> r == Some(item_seq(*v)[index as int]),
        index >= item_seq(*v).len() ==> r is None,
{
    v.inner.get(index).cloned()
}

/// Relies on imbl::GenericVector::insert: places the value at the index and
/// shifts the elements after it to the right; the index may be one past the
/// end, and the call panics beyond that.
#[verifier::external_body]
pub(crate) fn item_vec_insert(v: &mut ItemVector, index: usize, value: TimelineItem)
    requires
        index <= item_seq(*old(v)).len(),
    ensures
        item_seq(*final(v)) == item_seq(*old(v)).insert(index as int, value),
{
    v.inner.insert(index, value)
}

/// Relies on imbl::GenericVector::remove: takes the element out at the index
/// and shifts the elements after it to the left; panics out of bounds.
#[verifier::external_body]
pub(crate) fn item_vec_remove(v: &mut ItemVector, index: usize) -> (r:
    TimelineItem)
    requires
        index < item_seq(*old(v)).len(),
    ensures
        r == item_seq(*old(v))[index as int],
        item_seq(*final(v)) == item_seq(*old(v)).remove(index as int),
{
    v.inner.remove(index)
}

/// Relies on imbl::GenericVector::set: replaces the element at the index and
/// returns the previous one; panics out of bounds.
#[verifier::external_body]
pub(crate) fn item_vec_set(
    v: &mut ItemVector,
    index: usize,
    value: TimelineItem,
) -> (r: TimelineItem)
    requires
        index < item_seq(*old(v)).len(),
    ensures
        r == item_seq(*old(v))[index as int],
        item_seq(*final(v)) == item_seq(*old(v)).update(index as int, value),
{
    v.inner.set(index, value)
}

/// Relies on imbl::GenericVector::push_back: appends the value at the back.
#[verifier::external_body]
pub(crate) fn item_vec_push_back(v: &mut ItemVector, value: TimelineItem)
    ensures
        item_seq(*final(v)) == item_seq(*old(v)).push(value),
{
    v.inner.push_back(value)
}

/// Relies on imbl::GenericVector::truncate: discards every element past the
/// given length, and does nothing when the vector is already that short.
#[verifier::external_body]
pub(crate) fn item_vec_truncate(v: &mut ItemVector, length: usize)
    ensures
        item_seq(*final(v)) == if length >= item_seq(*old(v)).len() {
            item_seq(*old(v))
        } else {
            item_seq(*old(v)).take(length as int)
        },
{
    v.inner.truncate(length)
}

/// Relies on imbl::GenericVector::clear: removes every element.
#[verifier::external_body]
pub(crate) fn item_vec_clear(v: &mut ItemVector)
    ensures
        item_seq(*final(v)) == Seq::<TimelineItem>::empty(),
{
    v.inner.clear()
}

/// Relies on imbl::GenericVector::clone: an O(1), structurally shared copy
/// holding the same elements; later mutations of either copy do not show
/// through the other.
#[verifier::external_body]
pub(crate) fn item_vec_snapshot(v: &ItemVector) -> (r: ItemVector)
    ensures
        item_seq(r) == item_seq(*v),
{
    ItemVector { inner: v.inner.clone() }
}

} // verus!
