//! The pending-URL store: process-wide state holding zero or one activation
//! URL with last-write-wins overwrite and take-once drain semantics.
//!
//! The store is created empty at process start, seeded by the cold-start
//! inspection, and drained at most once by the readiness handshake.  The host
//! owns a single instance and serializes access to it; every transition the
//! store can make is described by the spec functions below, which the
//! coordinator's laws are stated over.

use vstd::prelude::*;

verus! {

/// Holds zero or one pending activation URL.  There is no queue: a new write
/// replaces any unread value.
pub struct PendingUrlStore {
    pending: Option<String>,
}

impl View for PendingUrlStore {
    type V = Option<Seq<char>>;

    closed spec fn view(&self) -> Option<Seq<char>> {
        self.pending.deep_view()
    }
}

/// The store's contents after a write: the new value alone, whatever was held
/// before.
pub open spec fn stored_after_set(pre: Option<Seq<char>>, url: Seq<char>) -> Option<Seq<char>> {
    Some(url)
}

/// What a drain returns: exactly what the store held.
pub open spec fn taken_value(pre: Option<Seq<char>>) -> Option<Seq<char>> {
    pre
}

/// The store's contents after a drain: nothing.
pub open spec fn stored_after_take(pre: Option<Seq<char>>) -> Option<Seq<char>> {
    None
}

impl PendingUrlStore {
    /// Creates the store empty, as it is at process start.
    pub fn new() -> (s: Self)
        ensures
            s@ == None::<Seq<char>>,
    {
        PendingUrlStore { pending: None }
    }

    /// Replaces any stored value unconditionally.
    pub fn set(&mut self, url: String)
        ensures
            final(self)@ == stored_after_set(old(self)@, url@),
    {
        self.pending = Some(url);
    }

    /// Atomically reads and clears the stored value, returning the previous
    /// value or nothing.
    pub fn take(&mut self) -> (r: Option<String>)
        ensures
            r.deep_view() == taken_value(old(self)@),
            final(self)@ == stored_after_take(old(self)@),
    {
        self.pending.take()
    }
}

/// At most one value is buffered: after two writes a drain yields the second
/// value alone, never the first, and a further drain yields nothing.
pub proof fn lemma_at_most_one_buffered(pre: Option<Seq<char>>, a: Seq<char>, b: Seq<char>)
    ensures
        taken_value(stored_after_set(stored_after_set(pre, a), b)) == Some(b),
        taken_value(stored_after_take(stored_after_set(stored_after_set(pre, a), b)))
            == None::<Seq<char>>,
{
}

/// Take-once: after one write a drain returns that value, and a second drain
/// in the same lifetime returns nothing.
pub proof fn lemma_take_once(pre: Option<Seq<char>>, u: Seq<char>)
    ensures
        taken_value(stored_after_set(pre, u)) == Some(u),
        taken_value(stored_after_take(stored_after_set(pre, u))) == None::<Seq<char>>,
{
}

} // verus!
