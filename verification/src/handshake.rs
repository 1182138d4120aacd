//! The readiness handshake: the one inbound request surface this coordinator
//! exposes to the UI.
//!
//! The UI issues this call exactly once, after its own initialization.  It is
//! the UI's only way to retrieve a cold-start URL, since the cold-start
//! inspection cannot push an event to a not-yet-listening consumer.

use vstd::prelude::*;
use crate::store::PendingUrlStore;
use crate::store::stored_after_take;
use crate::store::taken_value;

verus! {

/// Drains the pending-URL store and returns the buffered URL, or nothing.  A
/// second call in the same process lifetime returns nothing: the value was
/// already drained, and the UI must not re-process the same cold-start URL
/// twice.
pub fn frontend_ready(store: &mut PendingUrlStore) -> (r: Option<String>)
    ensures
        r.deep_view() == taken_value(old(store)@),
        final(store)@ == stored_after_take(old(store)@),
{
    store.take()
}

} // verus!
