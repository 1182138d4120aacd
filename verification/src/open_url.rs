//! The open-URL path: activation delivered by direct OS callback while the
//! application is already running and foregrounded.
//!
//! The platform hands over one or more URLs; the first is published
//! immediately and the rest are ignored — a single-payload assumption holds
//! throughout the coordinator.  Nothing is buffered on this path: the UI is
//! live, or the callback would not have fired.

use vstd::prelude::*;

verus! {

/// The payload published for a callback delivery: the first supplied URL, or
/// nothing when none was supplied.
pub open spec fn open_url_payload(urls: Seq<Seq<char>>) -> Option<Seq<char>> {
    if urls.len() >= 1 {
        Some(urls[0])
    } else {
        None
    }
}

/// Picks the URL to publish for one callback delivery: the first of the
/// supplied URLs, or nothing when the callback carried none.
pub fn on_open_url(urls: &Vec<String>) -> (r: Option<String>)
    ensures
        r.deep_view() == open_url_payload(urls.deep_view()),
{
    if urls.len() >= 1 {
        Some(urls[0].clone())
    } else {
        None
    }
}

} // verus!
