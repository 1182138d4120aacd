//! Activation-event coordinator for a desktop application.
//!
//! The library captures a single deep-link URL (a custom-scheme URI such as
//! `promptvault://open?...`) delivered either at cold start, as a command-line
//! argument, or while the application is already running, via an OS callback or
//! a second process launch.  It hands that URL to the UI layer exactly once,
//! tolerating the race between "URL arrives" and "UI is ready to receive it".
//! A small secondary state machine toggles main-window visibility on a global
//! shortcut.
//!
//! The host process wires these decisions to its windowing framework: the
//! library decides, the host performs the window and event I/O.

use vstd::prelude::*;

pub mod coldstart;
pub mod forwarder;
pub mod handshake;
pub mod open_url;
pub mod scheme;
pub mod store;
pub mod toggle;

verus! {

/// The single fixed event identifier used for every activation publish; the UI
/// subscribes to exactly this identifier.
pub open spec fn activation_event_name() -> Seq<char> {
    "deep-link"@
}

/// The event identifier as a string, for the host's publish calls.
pub fn activation_event() -> (r: &'static str)
    ensures
        r@ == activation_event_name(),
{
    "deep-link"
}

} // verus!
