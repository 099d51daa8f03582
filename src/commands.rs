//! Internal commands and the command router's decision on each outcome of
//! polling its broadcast subscription.

use vstd::prelude::*;
use crate::tiltify::TiltifyDonation;

verus! {

/// Milliseconds the router sleeps when no command is waiting.
pub const POLL_INTERVAL_MS: u64 = 100;

/// An internal event the bot reacts to. Only `Shutdown` and
/// `DonationReceived` are acted on; the stream lifecycle commands are
/// accepted and left for later behaviour.
#[derive(Clone, Debug, PartialEq)]
pub enum Commands {
    Shutdown,
    DonationReceived(TiltifyDonation),
    RaidInitiated(String),
    StreamStarted(String),
    StreamEnded(String),
}

/// The outcome of one non-blocking poll of the subscription.
#[derive(Clone, Debug, PartialEq)]
pub enum ReceiveOutcome {
    Command(Commands),
    Empty,
    Closed,
    /// The subscriber fell behind and this many commands were lost.
    Lagged(u64),
}

/// Why the router's loop ended.
#[derive(Clone, Copy, Debug, PartialEq, Eq, Structural)]
pub enum RouterExit {
    Shutdown,
    ChannelClosed,
    Lagged(u64),
}

/// What the router does with a poll outcome.
#[derive(Clone, Debug, PartialEq)]
pub enum RouterAction {
    /// Announce this donation, then poll again.
    Announce(TiltifyDonation),
    /// Poll again at once.
    Continue,
    /// Sleep this many milliseconds, then poll again.
    Sleep(u64),
    /// End the loop.
    Exit(RouterExit),
}

/// The router's action on a poll outcome.
pub open spec fn route_spec(outcome: ReceiveOutcome) -> RouterAction {
    match outcome {
        ReceiveOutcome::Command(Commands::Shutdown) => RouterAction::Exit(RouterExit::Shutdown),
        ReceiveOutcome::Command(Commands::DonationReceived(d)) => RouterAction::Announce(d),
        ReceiveOutcome::Command(_) => RouterAction::Continue,
        ReceiveOutcome::Empty => RouterAction::Sleep(POLL_INTERVAL_MS),
        ReceiveOutcome::Closed => RouterAction::Exit(RouterExit::ChannelClosed),
        ReceiveOutcome::Lagged(n) => RouterAction::Exit(RouterExit::Lagged(n)),
    }
}

/// Decides what to do with one poll outcome: a donation is announced before
/// the next poll, an empty poll backs off, and shutdown, a closed channel or
/// a lag end the loop.
pub fn route(outcome: ReceiveOutcome) -> (r: RouterAction)
    ensures
        r == route_spec(outcome),
{
    match outcome {
        ReceiveOutcome::Command(cmd) => match cmd {
            Commands::Shutdown => RouterAction::Exit(RouterExit::Shutdown),
            Commands::DonationReceived(d) => RouterAction::Announce(d),
            Commands::RaidInitiated(_) => RouterAction::Continue,
            Commands::StreamStarted(_) => RouterAction::Continue,
            Commands::StreamEnded(_) => RouterAction::Continue,
        },
        ReceiveOutcome::Empty => RouterAction::Sleep(POLL_INTERVAL_MS),
        ReceiveOutcome::Closed => RouterAction::Exit(RouterExit::ChannelClosed),
        ReceiveOutcome::Lagged(n) => RouterAction::Exit(RouterExit::Lagged(n)),
    }
}

/// No poll outcome makes the router spin: it either ends, sleeps a
/// positive time, or has a command to act on.
pub proof fn lemma_router_never_spins_idle(outcome: ReceiveOutcome)
    ensures
        route_spec(outcome) is Continue ==> outcome is Command,
        route_spec(outcome) matches RouterAction::Sleep(ms) ==> ms > 0,
        outcome is Empty ==> route_spec(outcome) is Sleep,
{
}

} // verus!
