//! The coordination loop: one step per event, shutdown or feed.
//!
//! The caller waits for whichever of the two comes first and hands it to
//! [`Bridge::on_event`]. The bridge owns the cache, so feed events are
//! compared against it strictly in the order in which they are handed over,
//! and nothing else can reach it.

use crate::cache::StatusCache;
use crate::failure::{Failure, FailureView};
use crate::feed::{
    decoded_status, handle_spaceapi_message, handled, lemma_repeat_is_silent, FeedEvent,
    FeedEventView, FeedOutcome, FeedOutcomeView,
};
use crate::query::fetched_view;
use crate::status::{StateView, Status, StatusView};
use vstd::prelude::*;

verus! {

/// What the loop woke up for.
#[derive(Debug)]
pub enum LoopEvent {
    /// The shutdown signal.
    Shutdown,
    /// One event of the feed subscription.
    Feed(FeedEvent),
}

/// Mathematical model of a [`LoopEvent`].
pub enum LoopEventView {
    Shutdown,
    Feed(FeedEventView),
}

impl View for LoopEvent {
    type V = LoopEventView;

    open spec fn view(&self) -> LoopEventView {
        match self {
            LoopEvent::Shutdown => LoopEventView::Shutdown,
            LoopEvent::Feed(event) => LoopEventView::Feed(event@),
        }
    }
}

/// What the loop is to do after an event.
#[derive(Debug)]
pub enum LoopAction {
    /// Leave the loop at once; nothing that is still queued is looked at.
    Stop,
    /// Act on the outcome, then wait for the next event.
    Continue(FeedOutcome),
}

/// Mathematical model of a [`LoopAction`].
pub enum LoopActionView {
    Stop,
    Continue(FeedOutcomeView),
}

impl View for LoopAction {
    type V = LoopActionView;

    open spec fn view(&self) -> LoopActionView {
        match self {
            LoopAction::Stop => LoopActionView::Stop,
            LoopAction::Continue(outcome) => LoopActionView::Continue(outcome@),
        }
    }
}

/// Mathematical model of a [`Bridge`].
pub struct BridgeView {
    /// The last observed state.
    pub cached: StateView,
    /// The configured destinations, fixed for the lifetime of the bridge.
    pub destinations: Seq<Seq<char>>,
    /// Whether the shutdown signal is still to come.
    pub running: bool,
}

/// The bridge that a startup fetch leads to. Without a first state there is
/// no bridge: a failed fetch is passed on, and a status without a state is
/// refused.
pub open spec fn started(
    fetched: Result<StatusView, FailureView>,
    destinations: Seq<Seq<char>>,
) -> Result<BridgeView, FailureView> {
    match fetched {
        Ok(status) => match status.state {
            Some(state) => Ok(BridgeView { cached: state, destinations, running: true }),
            None => Err(FailureView::StateMissing),
        },
        Err(failure) => Err(failure),
    }
}

/// The next state of the bridge and the action when `event` arrives.
pub open spec fn looped(view: BridgeView, event: LoopEventView) -> (BridgeView, LoopActionView) {
    if !view.running {
        (view, LoopActionView::Stop)
    } else {
        match event {
            LoopEventView::Shutdown => (BridgeView { running: false, ..view }, LoopActionView::Stop),
            LoopEventView::Feed(feed) => {
                let (cached, outcome) = handled(view.cached, feed, view.destinations);
                (BridgeView { cached, ..view }, LoopActionView::Continue(outcome))
            },
        }
    }
}

/// Mathematical model of the result of a startup.
pub open spec fn startup_view(result: Result<Bridge, Failure>) -> Result<BridgeView, FailureView> {
    match result {
        Ok(bridge) => Ok(bridge@),
        Err(failure) => Err(failure@),
    }
}

/// The state of the feed loop: the cache and the destinations.
#[derive(Debug)]
pub struct Bridge {
    cache: StatusCache,
    destinations: Vec<String>,
    running: bool,
}

impl View for Bridge {
    type V = BridgeView;

    closed spec fn view(&self) -> BridgeView {
        BridgeView {
            cached: self.cache@,
            destinations: self.destinations.deep_view(),
            running: self.running,
        }
    }
}

impl Bridge {
    /// Starts the bridge from the result of the startup fetch, which seeds
    /// the cache.
    pub fn start(fetched: Result<Status, Failure>, destinations: Vec<String>) -> (result: Result<
        Bridge,
        Failure,
    >)
        ensures
            startup_view(result) == started(fetched_view(fetched), destinations.deep_view()),
    {
        let status = match fetched {
            Ok(status) => status,
            Err(failure) => { return Err(failure); },
        };
        match status.state {
            Some(state) => Ok(
                Bridge { cache: StatusCache::new(state), destinations, running: true },
            ),
            None => Err(Failure::StateMissing),
        }
    }

    /// The cache of the bridge.
    pub fn cache(&self) -> (cache: &StatusCache)
        ensures
            cache@ == self@.cached,
    {
        &self.cache
    }

    /// The configured destinations.
    pub fn destinations(&self) -> (destinations: &Vec<String>)
        ensures
            destinations.deep_view() == self@.destinations,
    {
        &self.destinations
    }

    /// Whether the shutdown signal is still to come.
    pub fn is_running(&self) -> (running: bool)
        ensures
            running == self@.running,
    {
        self.running
    }

    /// Handles the event that the loop woke up for.
    ///
    /// The shutdown signal stops the bridge for good. A feed event is handled
    /// to its end, cache and rendering, before this returns, so the next one
    /// is compared against what this one left in the cache.
    pub fn on_event(&mut self, event: LoopEvent) -> (action: LoopAction)
        ensures
            (final(self)@, action@) == looped(old(self)@, event@),
    {
        if !self.running {
            return LoopAction::Stop;
        }
        match event {
            LoopEvent::Shutdown => {
                self.running = false;
                LoopAction::Stop
            },
            LoopEvent::Feed(feed) => {
                let outcome = handle_spaceapi_message(feed, &mut self.cache, &self.destinations);
                LoopAction::Continue(outcome)
            },
        }
    }
}

/// The state that a run of events leads to from `view`.
pub open spec fn state_after(view: BridgeView, events: Seq<LoopEventView>) -> BridgeView
    decreases events.len(),
{
    if events.len() == 0 {
        view
    } else {
        looped(state_after(view, events.drop_last()), events.last()).0
    }
}

/// The action that event number `i` of a run from `view` draws.
pub open spec fn action_at(view: BridgeView, events: Seq<LoopEventView>, i: int) -> LoopActionView
    recommends
        0 <= i < events.len(),
{
    looped(state_after(view, events.take(i)), events[i]).1
}

/// Once the run has stopped the bridge, its longer prefixes end in the same state.
proof fn lemma_stopped_stays(view: BridgeView, events: Seq<LoopEventView>, from: int, to: int)
    requires
        0 <= from <= to <= events.len(),
        !state_after(view, events.take(from)).running,
    ensures
        state_after(view, events.take(to)) == state_after(view, events.take(from)),
    decreases to - from,
{
    if from < to {
        lemma_stopped_stays(view, events, from, to - 1);
        assert(events.take(to).drop_last() == events.take(to - 1));
    }
}

/// Shutdown ends the loop at once and for good: the signal draws `Stop`, and
/// so does every event after it, feed events included; none of them reaches
/// the cache.
pub proof fn lemma_shutdown_is_final(
    view: BridgeView,
    events: Seq<LoopEventView>,
    i: int,
    j: int,
)
    requires
        0 <= i <= j < events.len(),
        events[i] == LoopEventView::Shutdown,
    ensures
        action_at(view, events, j) == LoopActionView::Stop,
        state_after(view, events.take(j + 1)).cached == state_after(view, events.take(i)).cached,
{
    assert(events.take(i + 1).drop_last() == events.take(i));
    if i < j {
        lemma_stopped_stays(view, events, i + 1, j);
    }
    lemma_stopped_stays(view, events, i + 1, j + 1);
}

/// The destinations are fixed: no run of events changes them.
pub proof fn lemma_destinations_are_fixed(view: BridgeView, events: Seq<LoopEventView>)
    ensures
        state_after(view, events).destinations == view.destinations,
    decreases events.len(),
{
    if events.len() > 0 {
        lemma_destinations_are_fixed(view, events.drop_last());
    }
}

/// A feed message that is delivered twice in a row is announced at most
/// once: the second delivery never draws a notification.
pub proof fn lemma_identical_repeat_is_silent(view: BridgeView, payload: Seq<u8>)
    requires
        view.running,
    ensures
        ({
            let event = LoopEventView::Feed(FeedEventView::Rx(payload));
            let first = looped(view, event);
            let second = looped(first.0, event);
            &&& second.0 == first.0
            &&& second.1 matches LoopActionView::Continue(outcome) && !(outcome is Notify)
        }),
{
    lemma_repeat_is_silent(view.cached, decoded_status(payload), view.destinations);
}

/// The state that a loop event carries: that of a feed message whose payload
/// decodes and has one.
pub open spec fn state_of(event: LoopEventView) -> Option<StateView> {
    match event {
        LoopEventView::Feed(FeedEventView::Rx(payload)) => match decoded_status(payload) {
            Some(status) => status.state,
            None => None,
        },
        _ => None,
    }
}

/// Arrival order. While the bridge runs, the cache holds the state of the
/// latest event that carried one: events are compared against the cache one
/// by one in the order of the run, and later events without a state leave it
/// alone.
pub proof fn lemma_cache_holds_latest_state(
    view: BridgeView,
    events: Seq<LoopEventView>,
    latest: int,
)
    requires
        view.running,
        0 <= latest < events.len(),
        forall|k: int| 0 <= k < events.len() ==> events[k] != LoopEventView::Shutdown,
        state_of(events[latest]) is Some,
        forall|k: int| latest < k < events.len() ==> state_of(events[k]) is None,
    ensures
        state_after(view, events).running,
        state_after(view, events).cached == state_of(events[latest])->0,
    decreases events.len(),
{
    let earlier = events.drop_last();
    lemma_stays_running(view, earlier);
    if latest < events.len() - 1 {
        lemma_cache_holds_latest_state(view, earlier, latest);
    }
}

/// A run without the shutdown signal leaves the bridge running.
proof fn lemma_stays_running(view: BridgeView, events: Seq<LoopEventView>)
    requires
        view.running,
        forall|k: int| 0 <= k < events.len() ==> events[k] != LoopEventView::Shutdown,
    ensures
        state_after(view, events).running,
    decreases events.len(),
{
    if events.len() > 0 {
        lemma_stays_running(view, events.drop_last());
    }
}

} // verus!
