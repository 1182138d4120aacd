//! Cold-start inspection of the launch arguments.
//!
//! Runs once during application setup, before the UI is guaranteed ready.
//! Position 0 of the arguments is the executable path and is ignored;
//! position 1 is the candidate URL.  A matching URL is buffered in the
//! pending-URL store for pull-based retrieval by the readiness handshake —
//! no event is published here, since the UI cannot be listening yet.

use vstd::prelude::*;
use crate::scheme::is_activation_url;
use crate::store::PendingUrlStore;
use crate::store::stored_after_take;
use crate::store::taken_value;

verus! {

/// The store's contents after cold-start inspection of `args`: the first
/// positional argument when it carries the recognized scheme, otherwise
/// whatever was held before.
pub open spec fn stored_after_cold_start(
    pre: Option<Seq<char>>,
    args: Seq<Seq<char>>,
) -> Option<Seq<char>> {
    if args.len() >= 2 && is_activation_url(args[1]) {
        Some(args[1])
    } else {
        pre
    }
}

/// Inspects the launch arguments and seeds the store when the first
/// positional argument carries the recognized scheme; otherwise the store is
/// left as it was.
pub fn inspect_cold_start(args: &Vec<String>, store: &mut PendingUrlStore)
    ensures
        final(store)@ == stored_after_cold_start(old(store)@, args.deep_view()),
{
    if args.len() >= 2 {
        let url = &args[1];
        if crate::scheme::has_activation_scheme(url.as_str()) {
            store.set(url.clone());
        }
    }
}

/// Cold start then handshake, end to end: when the first positional argument
/// carries the recognized scheme, the readiness handshake returns exactly that
/// URL, and a second handshake in the same process lifetime returns nothing.
pub proof fn lemma_cold_start_then_handshake(pre: Option<Seq<char>>, args: Seq<Seq<char>>)
    requires
        args.len() >= 2,
        is_activation_url(args[1]),
    ensures
        taken_value(stored_after_cold_start(pre, args)) == Some(args[1]),
        taken_value(stored_after_take(stored_after_cold_start(pre, args))) == None::<Seq<char>>,
{
}

/// Scheme filtering at cold start: an argument that does not carry the
/// recognized scheme, or an argument list with no candidate URL, leaves the
/// store exactly as it was.
pub proof fn lemma_cold_start_filters_scheme(pre: Option<Seq<char>>, args: Seq<Seq<char>>)
    requires
        args.len() < 2 || !is_activation_url(args[1]),
    ensures
        stored_after_cold_start(pre, args) == pre,
{
}

} // verus!
