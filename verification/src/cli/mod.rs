//! The three verbs of the installer, and the channel over which it is asked
//! to stop.

use vstd::prelude::*;
use tokio::sync::broadcast::error::TryRecvError;
use tokio::sync::broadcast::{Receiver, Sender};
use crate::action::ActionError;
use crate::plan::{install_rule, uninstall_rule, InstallPlan, Next};

verus! {

/// How much the installer says while it works.
#[derive(Debug, Clone, Copy, PartialEq, Eq, Structural)]
pub struct Instrumentation {
    pub verbose: u8,
}

/// What the installer is asked to do.
#[derive(Debug, Clone, Copy, PartialEq, Eq, Structural)]
pub enum HarmonicSubcommand {
    /// Build a plan and show it; change nothing.
    Plan,
    /// Execute a plan's actions, first to last.
    Install,
    /// Revert a plan's completed actions, last to first.
    Uninstall,
}

/// The installer as it was invoked.
#[derive(Debug, Clone, Copy, PartialEq, Eq, Structural)]
pub struct HarmonicCli {
    pub instrumentation: Instrumentation,
    pub subcommand: HarmonicSubcommand,
}

/// How a verb ended.
#[derive(Debug)]
pub enum Outcome {
    /// Everything that was asked was done.
    Succeeded,
    /// A stop was requested before everything was done.
    Cancelled,
    /// Planning rejected its input, or an action failed.
    Failed(ActionError),
}

/// The status that the process exits with: zero for success and for nothing
/// else.
pub open spec fn exit_status(outcome: Outcome) -> u8 {
    match outcome {
        Outcome::Succeeded => 0,
        Outcome::Cancelled => 1,
        Outcome::Failed(_) => 1,
    }
}

/// How a verb ends, if it does, after one decision and the outcome of the
/// action that the decision ran, where it ran one. With nothing left the verb
/// has succeeded; a stop request cancels it; the first action that fails ends
/// it with that failure; after an action that succeeded it goes on.
pub open spec fn conclusion(next: Next, settled: Option<Result<(), ActionError>>) -> Option<
    Outcome,
> {
    match next {
        Next::Finished => Some(Outcome::Succeeded),
        Next::Cancelled => Some(Outcome::Cancelled),
        Next::Run(_) => match settled {
            Some(Err(error)) => Some(Outcome::Failed(error)),
            _ => None,
        },
    }
}

/// Whether the verb has ended, and how: see `conclusion`.
pub fn concluded(next: Next, settled: Option<Result<(), ActionError>>) -> (ended: Option<Outcome>)
    ensures
        ended == conclusion(next, settled),
{
    match next {
        Next::Finished => Some(Outcome::Succeeded),
        Next::Cancelled => Some(Outcome::Cancelled),
        Next::Run(_) => match settled {
            Some(Err(error)) => Some(Outcome::Failed(error)),
            _ => None,
        },
    }
}

impl HarmonicCli {
    /// One decision of the verb that was asked for, over the plan as it
    /// stands. Planning runs nothing; installing and uninstalling follow
    /// their rules.
    pub fn execute<A>(&self, plan: &InstallPlan<A>, stop_requested: bool) -> (next: Next)
        ensures
            match self.subcommand {
                HarmonicSubcommand::Plan => next == Next::Finished,
                HarmonicSubcommand::Install => install_rule(plan.flags(), stop_requested, next),
                HarmonicSubcommand::Uninstall => uninstall_rule(plan.flags(), stop_requested, next),
            },
    {
        match self.subcommand {
            HarmonicSubcommand::Plan => Next::Finished,
            HarmonicSubcommand::Install => plan.install_next(stop_requested),
            HarmonicSubcommand::Uninstall => plan.uninstall_next(stop_requested),
        }
    }

    /// The status that the process exits with after `outcome`.
    pub fn exit_code(outcome: &Outcome) -> (status: u8)
        ensures
            status == exit_status(*outcome),
            status == 0 <==> outcome is Succeeded,
    {
        match outcome {
            Outcome::Succeeded => 0,
            Outcome::Cancelled => 1,
            Outcome::Failed(_) => 1,
        }
    }
}

/// The sending half of a broadcast channel of tokio. Nothing is known of what
/// is inside one.
#[verifier::external_type_specification]
#[verifier::external_body]
#[verifier::reject_recursive_types(T)]
pub struct ExSender<T>(Sender<T>);

/// The receiving half of a broadcast channel of tokio. Nothing is known of
/// what is inside one.
#[verifier::external_type_specification]
#[verifier::external_body]
#[verifier::reject_recursive_types(T)]
pub struct ExReceiver<T>(Receiver<T>);

/// How many stop requests the channel is made to hold.
pub const SIGNAL_CAPACITY: usize = 100;

/// What a subscriber finds when it looks at the channel.
#[derive(Debug, Clone, Copy, PartialEq, Eq, Structural)]
pub enum Delivery {
    /// A stop request.
    Stop,
    /// Stop requests were sent, more than the channel holds: this many of
    /// them were dropped unread.
    Lagged(u64),
    /// Nothing was sent since the subscriber last looked.
    Empty,
    /// Nothing is waiting, and no sender is left to send anything.
    Closed,
}

impl Delivery {
    /// Whether this means that the installer is to stop. A request does, and
    /// so do dropped requests: that they were requests is not lost with
    /// them. A channel without senders does too, since no request could be
    /// heard any more. Only an empty channel does not.
    pub open spec fn asks_to_stop(self) -> bool {
        !(self is Empty)
    }

    pub fn is_stop(&self) -> (stop: bool)
        ensures
            stop == self.asks_to_stop(),
    {
        match self {
            Delivery::Empty => false,
            Delivery::Stop => true,
            Delivery::Lagged(_) => true,
            Delivery::Closed => true,
        }
    }
}

/// The number of values that the channel behind this sender was asked to
/// hold when it was made.
pub uninterp spec fn made_for(sender: Sender<()>) -> usize;

/// Whether the receiver is subscribed to the channel behind the sender.
pub uninterp spec fn hears(receiver: Receiver<()>, sender: Sender<()>) -> bool;

/// Calls `tokio::sync::broadcast::channel` for a channel of unit values.
/// That function panics when the capacity is zero or above half of
/// `usize::MAX`, which the precondition leaves out. The contract claims two
/// things of the halves that it returns: that they are the two ends of one
/// channel, and that this channel was made for the capacity that is handed
/// in. How many values tokio then keeps room for (it rounds up to a power of
/// two) is not said.
#[verifier::external_body]
fn broadcast_channel(capacity: usize) -> (halves: (Sender<()>, Receiver<()>))
    requires
        0 < capacity <= usize::MAX / 2,
    ensures
        made_for(halves.0) == capacity,
        hears(halves.1, halves.0),
{
    tokio::sync::broadcast::channel(capacity)
}

/// Calls `Sender::send` of tokio's broadcast channel with a unit value, and
/// hands back the number of receivers that it reports, or nothing where it
/// reports that there is no receiver. Nothing is claimed of the result: it
/// depends on who is subscribed.
#[verifier::external_body]
fn broadcast_send(sender: &Sender<()>) -> (receivers: Option<usize>) {
    sender.send(()).ok()
}

/// Calls `Receiver::try_recv` of tokio's broadcast channel, and hands back
/// what it returned, variant for variant. Which variant comes back depends on
/// what was sent, and nothing is claimed of that. The contract claims what
/// holds of every outcome: tokio reports a lag only of one value or more.
#[verifier::external_body]
fn broadcast_try_recv(receiver: &mut Receiver<()>) -> (delivery: Delivery)
    ensures
        delivery matches Delivery::Lagged(missed) ==> missed >= 1,
{
    match receiver.try_recv() {
        Ok(()) => Delivery::Stop,
        Err(TryRecvError::Lagged(missed)) => Delivery::Lagged(missed),
        Err(TryRecvError::Empty) => Delivery::Empty,
        Err(TryRecvError::Closed) => Delivery::Closed,
    }
}

/// Makes the channel over which stop requests are broadcast: its sending
/// half, and a first subscriber to that same channel. The channel is made to
/// hold `SIGNAL_CAPACITY` requests.
pub fn signal_channel() -> (halves: (Sender<()>, Receiver<()>))
    ensures
        made_for(halves.0) == SIGNAL_CAPACITY,
        hears(halves.1, halves.0),
{
    broadcast_channel(SIGNAL_CAPACITY)
}

/// Broadcasts one stop request, for one signal that the operating system
/// delivered. Says whether anyone is subscribed; that nobody is, is no
/// failure.
pub fn relay(sender: &Sender<()>) -> (heard: bool) {
    broadcast_send(sender).is_some()
}

/// Looks at the channel without waiting, and takes one delivery from it if
/// there is one. What is found depends on what was sent; a lag, when one is
/// found, is of one request or more, so that a lag always stands for requests
/// that were made.
pub fn poll(receiver: &mut Receiver<()>) -> (delivery: Delivery)
    ensures
        delivery matches Delivery::Lagged(missed) ==> missed >= 1,
{
    broadcast_try_recv(receiver)
}

/// Whether the subscriber is asked to stop: looks at the channel once, as
/// `poll` does, and judges what it finds as `Delivery::is_stop` does.
pub fn stop_requested(receiver: &mut Receiver<()>) -> (stop: bool) {
    poll(receiver).is_stop()
}

} // verus!
