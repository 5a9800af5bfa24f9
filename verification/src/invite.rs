//! Accepting an invitation, with retries and exponential back-off.
//!
//! Each invitation gets a machine of its own. The caller performs the action
//! that [`AcceptAttempt::step`] names (one attempt to accept, a sleep, a log
//! entry) and hands back what came of it as the next event. Machines share
//! nothing, so invitations never interact.

use crate::room::RoomKind;
use crate::text::str_eq;
use vstd::arithmetic::power2::{lemma2_to64, lemma_pow2_unfold, pow2};
use vstd::prelude::*;

verus! {

/// The delay after the first failed attempt, in seconds.
pub const FIRST_DELAY: u64 = 2;

/// A doubled delay above this many seconds ends the retries.
pub const DELAY_CEILING: u64 = 3600;

/// The number of attempts after which the doubled delay exceeds the ceiling.
pub const MAX_ATTEMPTS: u64 = 11;

/// The states of the machine.
#[derive(Clone, Copy, Debug, PartialEq, Eq, Structural)]
pub enum AcceptPhase {
    /// Invited, no attempt made yet.
    Invited,
    /// Trying: an attempt is under way, or due after the sleep that follows a failure.
    Accepting,
    /// The invitation was accepted.
    Joined,
    /// All attempts failed; the invitation is abandoned.
    GaveUp,
}

/// What happened since the last action.
#[derive(Clone, Copy, Debug, PartialEq, Eq, Structural)]
pub enum AcceptEvent {
    /// The task for the invitation has started.
    Begin,
    /// The attempt to accept succeeded.
    Accepted,
    /// The attempt to accept failed.
    Failed,
}

/// What the caller is to do next.
#[derive(Clone, Copy, Debug, PartialEq, Eq, Structural)]
pub enum AcceptAction {
    /// Nothing: the machine is not waiting for this event.
    Nothing,
    /// Try to accept the invitation now.
    Attempt,
    /// Log the failure, sleep `delay` seconds, then try again.
    RetryAfter { delay: u64 },
    /// Log the failure, sleep `delay` seconds, then log the terminal failure and stop.
    AbandonAfter { delay: u64 },
    /// Log the success and stop.
    Finish,
}

/// Mathematical model of an [`AcceptAttempt`].
pub struct AcceptView {
    pub phase: AcceptPhase,
    /// The current delay: what is slept after the next failure.
    pub delay: nat,
    /// The number of attempts started so far.
    pub attempts: nat,
}

/// The model of a machine that has just been created.
pub open spec fn initial() -> AcceptView {
    AcceptView { phase: AcceptPhase::Invited, delay: FIRST_DELAY as nat, attempts: 0 }
}

/// The states that a machine can be in: the delay starts at 2 and has doubled
/// once for every failed attempt, and the attempts stop at the eleventh, whose
/// failure doubles the delay to 4096.
pub open spec fn well_formed(view: AcceptView) -> bool {
    match view.phase {
        AcceptPhase::Invited => view.attempts == 0 && view.delay == FIRST_DELAY,
        AcceptPhase::Accepting | AcceptPhase::Joined => {
            &&& 1 <= view.attempts <= MAX_ATTEMPTS
            &&& view.delay == pow2(view.attempts)
        },
        AcceptPhase::GaveUp => {
            &&& view.attempts == MAX_ATTEMPTS
            &&& view.delay == 2 * pow2(view.attempts)
            &&& view.delay > DELAY_CEILING
        },
    }
}

/// The next state and the action when `event` arrives in state `view`.
pub open spec fn stepped(view: AcceptView, event: AcceptEvent) -> (AcceptView, AcceptAction) {
    match (view.phase, event) {
        (AcceptPhase::Invited, AcceptEvent::Begin) => (
            AcceptView { phase: AcceptPhase::Accepting, delay: view.delay, attempts: 1 },
            AcceptAction::Attempt,
        ),
        (AcceptPhase::Accepting, AcceptEvent::Accepted) => (
            AcceptView { phase: AcceptPhase::Joined, ..view },
            AcceptAction::Finish,
        ),
        (AcceptPhase::Accepting, AcceptEvent::Failed) => if 2 * view.delay > DELAY_CEILING {
            (
                AcceptView { phase: AcceptPhase::GaveUp, delay: 2 * view.delay, ..view },
                AcceptAction::AbandonAfter { delay: view.delay as u64 },
            )
        } else {
            (
                AcceptView {
                    phase: AcceptPhase::Accepting,
                    delay: 2 * view.delay,
                    attempts: view.attempts + 1,
                },
                AcceptAction::RetryAfter { delay: view.delay as u64 },
            )
        },
        _ => (view, AcceptAction::Nothing),
    }
}

/// Whether an invitation event is one to act on: it invites the bot itself,
/// and the room is one the bot is invited to.
pub fn is_own_invitation(invitee: &str, bot_user: &str, room: RoomKind) -> (own: bool)
    ensures
        own == (invitee@ == bot_user@ && room == RoomKind::Invited),
{
    match room {
        RoomKind::Invited => str_eq(invitee, bot_user),
        _ => false,
    }
}

/// The retry context of one invitation.
#[derive(Debug)]
pub struct AcceptAttempt {
    phase: AcceptPhase,
    delay: u64,
    attempts: u64,
}

impl View for AcceptAttempt {
    type V = AcceptView;

    closed spec fn view(&self) -> AcceptView {
        AcceptView {
            phase: self.phase,
            delay: self.delay as nat,
            attempts: self.attempts as nat,
        }
    }
}

impl AcceptAttempt {
    #[verifier::type_invariant]
    spec fn holds(self) -> bool {
        well_formed(self@)
    }

    /// The machine for a fresh invitation.
    pub fn new() -> (attempt: AcceptAttempt)
        ensures
            attempt@ == initial(),
            well_formed(attempt@),
    {
        AcceptAttempt { phase: AcceptPhase::Invited, delay: FIRST_DELAY, attempts: 0 }
    }

    /// The state of the machine.
    pub fn phase(&self) -> (phase: AcceptPhase)
        ensures
            phase == self@.phase,
    {
        self.phase
    }

    /// The current delay in seconds.
    pub fn delay(&self) -> (delay: u64)
        ensures
            delay == self@.delay,
    {
        self.delay
    }

    /// The number of attempts started so far.
    pub fn attempts(&self) -> (attempts: u64)
        ensures
            attempts == self@.attempts,
    {
        self.attempts
    }

    /// Whether the machine has stopped, joined or not.
    pub fn is_finished(&self) -> (finished: bool)
        ensures
            finished == (self@.phase == AcceptPhase::Joined || self@.phase == AcceptPhase::GaveUp),
    {
        match self.phase {
            AcceptPhase::Joined | AcceptPhase::GaveUp => true,
            _ => false,
        }
    }

    /// Advances the machine by one event and names the next action.
    ///
    /// A success ends in `Joined`. A failure doubles the delay; the machine
    /// retries after the old delay unless the doubled delay exceeds the
    /// ceiling, in which case it gives up after that last sleep.
    pub fn step(&mut self, event: AcceptEvent) -> (action: AcceptAction)
        ensures
            (final(self)@, action) == stepped(old(self)@, event),
            well_formed(old(self)@),
            well_formed(final(self)@),
    {
        proof {
            use_type_invariant(&*self);
            lemma2_to64();
            if self.attempts >= 1 {
                lemma_pow2_unfold(self.attempts as nat);
                lemma_pow2_unfold((self.attempts + 1) as nat);
            }
        }
        match (self.phase, event) {
            (AcceptPhase::Invited, AcceptEvent::Begin) => {
                *self = AcceptAttempt {
                    phase: AcceptPhase::Accepting,
                    delay: self.delay,
                    attempts: 1,
                };
                AcceptAction::Attempt
            },
            (AcceptPhase::Accepting, AcceptEvent::Accepted) => {
                *self = AcceptAttempt {
                    phase: AcceptPhase::Joined,
                    delay: self.delay,
                    attempts: self.attempts,
                };
                AcceptAction::Finish
            },
            (AcceptPhase::Accepting, AcceptEvent::Failed) => {
                let slept: u64 = self.delay;
                let doubled: u64 = slept * 2;
                if doubled > DELAY_CEILING {
                    *self = AcceptAttempt {
                        phase: AcceptPhase::GaveUp,
                        delay: doubled,
                        attempts: self.attempts,
                    };
                    AcceptAction::AbandonAfter { delay: slept }
                } else {
                    *self = AcceptAttempt {
                        phase: AcceptPhase::Accepting,
                        delay: doubled,
                        attempts: self.attempts + 1,
                    };
                    AcceptAction::RetryAfter { delay: slept }
                }
            },
            _ => AcceptAction::Nothing,
        }
    }
}

/// Whether a state is one of the two in which the machine has stopped.
pub open spec fn finished(view: AcceptView) -> bool {
    view.phase == AcceptPhase::Joined || view.phase == AcceptPhase::GaveUp
}

/// The state that a run of events leads to from `view`.
pub open spec fn state_after(view: AcceptView, events: Seq<AcceptEvent>) -> AcceptView
    decreases events.len(),
{
    if events.len() == 0 {
        view
    } else {
        stepped(state_after(view, events.drop_last()), events.last()).0
    }
}

/// The action that event number `i` of a run from `view` draws.
pub open spec fn action_at(view: AcceptView, events: Seq<AcceptEvent>, i: int) -> AcceptAction
    recommends
        0 <= i < events.len(),
{
    stepped(state_after(view, events.take(i)), events[i]).1
}

/// The run in which the task starts and the first `failures` attempts all fail.
pub open spec fn failing_run(failures: nat) -> Seq<AcceptEvent> {
    seq![AcceptEvent::Begin] + Seq::new(failures, |i: int| AcceptEvent::Failed)
}

/// No event leads out of the well-formed states.
pub proof fn lemma_step_keeps_well_formed(view: AcceptView, event: AcceptEvent)
    requires
        well_formed(view),
    ensures
        well_formed(stepped(view, event).0),
{
    lemma2_to64();
    if view.attempts >= 1 {
        lemma_pow2_unfold(view.attempts);
        lemma_pow2_unfold(view.attempts + 1);
    }
}

/// Whatever the events, a machine never starts more than eleven attempts,
/// and its delay is the first delay doubled once per failure.
pub proof fn lemma_run_keeps_well_formed(view: AcceptView, events: Seq<AcceptEvent>)
    requires
        well_formed(view),
    ensures
        well_formed(state_after(view, events)),
        state_after(view, events).attempts <= MAX_ATTEMPTS,
    decreases events.len(),
{
    if events.len() > 0 {
        lemma_run_keeps_well_formed(view, events.drop_last());
        lemma_step_keeps_well_formed(state_after(view, events.drop_last()), events.last());
    }
}

/// A machine that has stopped stays as it is and asks for nothing more.
pub proof fn lemma_finished_is_final(view: AcceptView, event: AcceptEvent)
    requires
        finished(view),
    ensures
        stepped(view, event) == (view, AcceptAction::Nothing),
{
}

/// Once a run has reached a stopped state, its longer prefixes end in the same state.
proof fn lemma_finished_stays(view: AcceptView, events: Seq<AcceptEvent>, from: int, to: int)
    requires
        0 <= from <= to <= events.len(),
        finished(state_after(view, events.take(from))),
    ensures
        state_after(view, events.take(to)) == state_after(view, events.take(from)),
    decreases to - from,
{
    if from < to {
        lemma_finished_stays(view, events, from, to - 1);
        assert(events.take(to).drop_last() == events.take(to - 1));
    }
}

/// One terminal entry at most: after the action that ends a run (`Finish` or
/// `AbandonAfter`), every later event of that run draws `Nothing`.
pub proof fn lemma_terminal_action_is_last(
    view: AcceptView,
    events: Seq<AcceptEvent>,
    i: int,
    j: int,
)
    requires
        0 <= i < j < events.len(),
        action_at(view, events, i) is Finish || action_at(view, events, i) is AbandonAfter,
    ensures
        action_at(view, events, j) == AcceptAction::Nothing,
{
    assert(events.take(i + 1).drop_last() == events.take(i));
    lemma_finished_stays(view, events, i + 1, j);
}

/// The state in which a machine is while attempt number `attempt` is under way.
pub open spec fn accepting(attempt: nat) -> AcceptView {
    AcceptView { phase: AcceptPhase::Accepting, delay: pow2(attempt), attempts: attempt }
}

/// The state of a machine that has given up.
pub open spec fn gave_up() -> AcceptView {
    AcceptView { phase: AcceptPhase::GaveUp, delay: 4096, attempts: MAX_ATTEMPTS as nat }
}

/// Retry ceiling. When every attempt fails, attempt `n` is followed by a
/// sleep of `2^n` seconds for `n` from 1 to 10; the eleventh failure is
/// followed by a sleep of 2048 seconds and the end of the retries, the doubled
/// delay of 4096 being over the ceiling; after that nothing more happens.
pub proof fn lemma_retry_ceiling(failures: nat)
    ensures
        failures <= 10 ==> state_after(initial(), failing_run(failures)) == accepting(
            failures + 1,
        ),
        failures >= 11 ==> state_after(initial(), failing_run(failures)) == gave_up(),
        action_at(initial(), failing_run(failures), 0) == AcceptAction::Attempt,
        1 <= failures <= 10 ==> action_at(initial(), failing_run(failures), failures as int)
            == (AcceptAction::RetryAfter { delay: pow2(failures) as u64 }),
        failures == 11 ==> action_at(initial(), failing_run(failures), failures as int)
            == (AcceptAction::AbandonAfter { delay: 2048 }),
        failures > 11 ==> action_at(initial(), failing_run(failures), failures as int)
            == AcceptAction::Nothing,
    decreases failures,
{
    lemma2_to64();
    if failures > 0 {
        let before: nat = (failures - 1) as nat;
        lemma_retry_ceiling(before);
        assert(failing_run(failures).take(failures as int) == failing_run(before));
        if failures <= 10 {
            lemma_pow2_unfold(failures);
            lemma_pow2_unfold(failures + 1);
        }
    }
}

} // verus!
