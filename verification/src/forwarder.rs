//! Single-instance forwarding: what to do when a second process launch is
//! detected while an instance is already running.
//!
//! The forwarder inspects the second launch's arguments.  A matching URL is
//! published immediately and then twice more after fixed delays, since the
//! running instance's UI may not yet have attached its event listener at the
//! moment of the immediate publish; delivery is fire-and-forget with no
//! acknowledgement, and duplicate deliveries are expected and tolerated by
//! the consumer.  Whatever the match outcome, the existing main window is
//! brought to the foreground so the user sees the running instance respond.
//!
//! The forwarder only decides: it returns a plan of timed emissions that the
//! host executes on detached timers, so nothing here blocks the caller.

use vstd::prelude::*;
use crate::scheme::is_activation_url;

verus! {

/// Delay of the first scheduled re-emission, measured from the trigger.
pub const FIRST_RETRY_DELAY_MS: u64 = 500;

/// Delay of the second scheduled re-emission, measured from the trigger.
pub const SECOND_RETRY_DELAY_MS: u64 = 1500;

/// One scheduled publish of the activation event: the URL payload, emitted
/// `delay_ms` milliseconds after the trigger (zero means immediately).
pub struct Emission {
    pub delay_ms: u64,
    pub url: String,
}

impl View for Emission {
    type V = (int, Seq<char>);

    open spec fn view(&self) -> (int, Seq<char>) {
        (self.delay_ms as int, self.url@)
    }
}

/// What the host must do for one forwarded launch: publish each scheduled
/// emission at its delay, and raise the main window.
pub struct ForwardPlan {
    pub emissions: Vec<Emission>,
    pub raise_window: bool,
}

impl View for ForwardPlan {
    type V = (Seq<(int, Seq<char>)>, bool);

    open spec fn view(&self) -> (Seq<(int, Seq<char>)>, bool) {
        (self.emissions@.map_values(|e: Emission| e@), self.raise_window)
    }
}

/// The emissions a forwarded argument list calls for: three publishes of the
/// matching URL — one immediate, two delayed — or none at all.
pub open spec fn forward_emissions(args: Seq<Seq<char>>) -> Seq<(int, Seq<char>)> {
    if args.len() >= 2 && is_activation_url(args[1]) {
        seq![
            (0int, args[1]),
            (FIRST_RETRY_DELAY_MS as int, args[1]),
            (SECOND_RETRY_DELAY_MS as int, args[1]),
        ]
    } else {
        Seq::empty()
    }
}

/// Decides what a detected second launch calls for.  The plan publishes a
/// matching URL three times with the fixed delays and nothing for a missing
/// or non-matching argument; the window is raised in every case.
pub fn plan_forward(args: &Vec<String>) -> (p: ForwardPlan)
    ensures
        p@.0 == forward_emissions(args.deep_view()),
        p@.1,
{
    let mut emissions: Vec<Emission> = Vec::new();
    if args.len() >= 2 {
        let url = &args[1];
        if crate::scheme::has_activation_scheme(url.as_str()) {
            emissions.push(Emission { delay_ms: 0, url: url.clone() });
            emissions.push(Emission { delay_ms: FIRST_RETRY_DELAY_MS, url: url.clone() });
            emissions.push(Emission { delay_ms: SECOND_RETRY_DELAY_MS, url: url.clone() });
        }
    }
    let p = ForwardPlan { emissions, raise_window: true };
    proof {
        assert(p@.0 =~= forward_emissions(args.deep_view()));
    }
    p
}

/// A single matching forwarded URL results in exactly three emissions with
/// identical payload: one immediate, one after the first fixed delay and one
/// after the second.
pub proof fn lemma_forward_three_emissions(args: Seq<Seq<char>>)
    requires
        args.len() >= 2,
        is_activation_url(args[1]),
    ensures
        forward_emissions(args).len() == 3,
        forall|i: int| 0 <= i < 3 ==> (#[trigger] forward_emissions(args)[i]).1 == args[1],
        forward_emissions(args)[0].0 == 0,
        forward_emissions(args)[1].0 == FIRST_RETRY_DELAY_MS as int,
        forward_emissions(args)[2].0 == SECOND_RETRY_DELAY_MS as int,
{
}

/// A missing or non-matching forwarded argument produces no emission at all;
/// the window is still raised, which `plan_forward` promises unconditionally.
pub proof fn lemma_forward_filters_scheme(args: Seq<Seq<char>>)
    requires
        args.len() < 2 || !is_activation_url(args[1]),
    ensures
        forward_emissions(args).len() == 0,
{
}

} // verus!
