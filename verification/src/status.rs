//! Ephemeral status notifier: at most one transient message, cleared by a
//! single-shot expiry unless a later message supersedes it first.
//!
//! Cancellation of the expiry timer is modelled by a generation token: every
//! `set_message` bumps the generation, and an expiry carries the generation it
//! was armed with and clears the message only if that generation is still
//! current.  A superseding call therefore always wins over an in-flight
//! expiry, whatever the timing ("last write wins").

use vstd::prelude::*;

verus! {

/// The transient status message and the generation of its expiry timer.
pub struct StatusNotifier {
    /// The currently displayed message, if any.
    pub message: Option<String>,
    /// Generation of the most recently armed expiry timer.  An expiry is
    /// effective only while its generation is current.
    pub generation: u64,
}

impl StatusNotifier {
    /// Initial state: no message, no timer armed yet.
    pub open spec fn spec_new() -> StatusNotifier {
        StatusNotifier { message: None, generation: 0 }
    }

    /// Install `text` as the current message and arm a fresh timer.
    pub open spec fn spec_set(self, text: String) -> StatusNotifier {
        StatusNotifier { message: Some(text), generation: (self.generation + 1) as u64 }
    }

    /// Effect of the timer armed at generation `token` firing now: it clears
    /// the message only if no later `set_message` has superseded it.
    pub open spec fn spec_expire(self, token: u64) -> StatusNotifier {
        if token == self.generation {
            StatusNotifier { message: None, generation: self.generation }
        } else {
            self
        }
    }

    pub fn new() -> (r: StatusNotifier)
        ensures
            r == StatusNotifier::spec_new(),
    {
        StatusNotifier { message: None, generation: 0 }
    }

    /// Install `text` as the current status and return the token that the
    /// caller must hand to the expiry that it schedules for this message.
    /// Any timer armed earlier is superseded from this point on.
    pub fn set_message(&mut self, text: String) -> (token: u64)
        requires
            old(self).generation < u64::MAX,
        ensures
            *final(self) == old(self).spec_set(text),
            token == final(self).generation,
    {
        self.message = Some(text);
        self.generation = self.generation + 1;
        self.generation
    }

    /// Let the timer armed with `token` fire: clears the message if that
    /// timer is still the current one, and does nothing otherwise.
    pub fn expire(&mut self, token: u64)
        ensures
            *final(self) == old(self).spec_expire(token),
    {
        if token == self.generation {
            self.message = None;
        }
    }

    /// Current message, if one is set and not yet expired.
    pub fn read_message(&self) -> (r: Option<String>)
        ensures
            r == self.message,
    {
        match &self.message {
            Some(text) => Some(text.clone()),
            None => None,
        }
    }
}

/// Status debounce: after `set_message(a)` and then `set_message(b)` before
/// any expiry, the timer armed for `a` never clears anything, and once the
/// timer armed for `b` fires the message is gone.
pub proof fn lemma_status_debounce(s: StatusNotifier, a: String, b: String)
    requires
        s.generation + 2 <= u64::MAX,
    ensures
        ({
            let s1 = s.spec_set(a);
            let s2 = s1.spec_set(b);
            &&& s2.spec_expire(s1.generation) == s2
            &&& s2.spec_expire(s1.generation).message == Some(b)
            &&& s2.spec_expire(s2.generation).message is None
        }),
{
}

} // verus!
