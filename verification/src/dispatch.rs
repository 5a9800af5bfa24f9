//! Fanning a notification out to the configured destinations.
//!
//! Delivery is best effort. The caller attempts the delivery that the machine
//! names and hands back the outcome; the machine records it and moves on to
//! the next destination, whatever the outcome was. Nothing is retried and no
//! failure reaches the caller as an error.

use crate::message::{Message, MessageView};
use vstd::prelude::*;

verus! {

/// What came of one delivery.
#[derive(Clone, Copy, Debug, PartialEq, Eq, Structural)]
pub enum DeliveryOutcome {
    /// The message went out.
    Delivered,
    /// The destination is not a channel that the bot has joined.
    NotJoined,
    /// Sending failed.
    SendFailed,
}

/// What the caller is to do next.
#[derive(Debug)]
pub enum DispatchAction {
    /// Attempt to deliver `message` to `destination`.
    Deliver { destination: String, message: Message },
    /// Every destination has been attempted.
    Finished,
}

/// Mathematical model of a [`DispatchAction`].
pub enum DispatchActionView {
    Deliver { destination: Seq<char>, message: MessageView },
    Finished,
}

impl View for DispatchAction {
    type V = DispatchActionView;

    open spec fn view(&self) -> DispatchActionView {
        match self {
            DispatchAction::Deliver { destination, message } => DispatchActionView::Deliver {
                destination: destination@,
                message: message@,
            },
            DispatchAction::Finished => DispatchActionView::Finished,
        }
    }
}

/// Mathematical model of a [`Dispatch`]: the message, the destinations in
/// their configured order, and the outcomes recorded so far, one for each of
/// the first destinations.
pub struct DispatchView {
    pub message: MessageView,
    pub destinations: Seq<Seq<char>>,
    pub outcomes: Seq<DeliveryOutcome>,
}

/// The model of a fan-out that has just begun.
pub open spec fn begun(message: MessageView, destinations: Seq<Seq<char>>) -> DispatchView {
    DispatchView { message, destinations, outcomes: Seq::empty() }
}

/// The delivery that is due in state `view`, if any is left.
pub open spec fn due(view: DispatchView) -> DispatchActionView {
    if view.outcomes.len() < view.destinations.len() {
        DispatchActionView::Deliver {
            destination: view.destinations[view.outcomes.len() as int],
            message: view.message,
        }
    } else {
        DispatchActionView::Finished
    }
}

/// The state after the outcome of the delivery that was due has arrived.
/// With no delivery due, nothing changes.
pub open spec fn settled(view: DispatchView, outcome: DeliveryOutcome) -> DispatchView {
    if view.outcomes.len() < view.destinations.len() {
        DispatchView { outcomes: view.outcomes.push(outcome), ..view }
    } else {
        view
    }
}

/// One fan-out of one message.
#[derive(Debug)]
pub struct Dispatch {
    message: Message,
    destinations: Vec<String>,
    outcomes: Vec<DeliveryOutcome>,
}

impl View for Dispatch {
    type V = DispatchView;

    closed spec fn view(&self) -> DispatchView {
        DispatchView {
            message: self.message@,
            destinations: self.destinations.deep_view(),
            outcomes: self.outcomes@,
        }
    }
}

impl Dispatch {
    /// Begins the fan-out of `message` to `destinations`.
    pub fn begin(message: Message, destinations: Vec<String>) -> (dispatch: Dispatch)
        ensures
            dispatch@ == begun(message@, destinations.deep_view()),
    {
        Dispatch { message, destinations, outcomes: Vec::new() }
    }

    /// The delivery that is due: the message, unchanged, for the first
    /// destination that has no outcome yet.
    pub fn next(&self) -> (action: DispatchAction)
        ensures
            action@ == due(self@),
    {
        let at: usize = self.outcomes.len();
        if at < self.destinations.len() {
            DispatchAction::Deliver {
                destination: self.destinations[at].clone(),
                message: self.message.clone(),
            }
        } else {
            DispatchAction::Finished
        }
    }

    /// Records the outcome of the delivery that was due and names the next
    /// one. A failure is recorded like a success: the fan-out goes on.
    pub fn settle(&mut self, outcome: DeliveryOutcome) -> (action: DispatchAction)
        ensures
            final(self)@ == settled(old(self)@, outcome),
            action@ == due(final(self)@),
    {
        if self.outcomes.len() < self.destinations.len() {
            self.outcomes.push(outcome);
        }
        self.next()
    }

    /// The outcomes recorded so far, in the order of the destinations.
    pub fn outcomes(&self) -> (outcomes: &Vec<DeliveryOutcome>)
        ensures
            outcomes@ == self@.outcomes,
    {
        &self.outcomes
    }

    /// Whether every destination has been attempted.
    pub fn is_finished(&self) -> (finished: bool)
        ensures
            finished == (due(self@) is Finished),
    {
        self.outcomes.len() >= self.destinations.len()
    }
}

/// The state after the outcomes of a run have arrived one by one.
pub open spec fn state_after(view: DispatchView, outcomes: Seq<DeliveryOutcome>) -> DispatchView
    decreases outcomes.len(),
{
    if outcomes.len() == 0 {
        view
    } else {
        settled(state_after(view, outcomes.drop_last()), outcomes.last())
    }
}

/// Fan-out isolation. Whatever the outcomes of the deliveries so far, failed
/// or not, the next delivery due is the same message for the next destination
/// in the configured order; once there is an outcome for every destination the
/// fan-out is finished, and further outcomes change nothing. So every
/// destination is attempted exactly once.
pub proof fn lemma_fan_out_is_isolated(
    message: MessageView,
    destinations: Seq<Seq<char>>,
    outcomes: Seq<DeliveryOutcome>,
)
    ensures
        ({
            let end = state_after(begun(message, destinations), outcomes);
            let attempted: nat = outcomes.len();
            &&& end.message == message
            &&& end.destinations == destinations
            &&& attempted <= destinations.len() ==> end.outcomes == outcomes
            &&& attempted < destinations.len() ==> due(end) == (DispatchActionView::Deliver {
                destination: destinations[attempted as int],
                message,
            })
            &&& attempted >= destinations.len() ==> due(end) == DispatchActionView::Finished
                && end.outcomes == outcomes.take(destinations.len() as int)
        }),
    decreases outcomes.len(),
{
    if outcomes.len() > 0 {
        lemma_fan_out_is_isolated(message, destinations, outcomes.drop_last());
    }
}

} // verus!
