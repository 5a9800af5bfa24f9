//! Handling one event of the status feed: decode, compare, render, fan out.

use crate::cache::{evaluated, StatusCache};
use crate::dispatch::{begun, Dispatch, DispatchView};
use crate::failure::{Failure, FailureView};
use crate::message::MessageView;
use crate::render::{render, rendered};
use crate::status::{State, StateView, Status, StatusView};
use vstd::prelude::*;

verus! {

/// `serde_json::Error`, the error type of the JSON decoder. It is declared so
/// that an error can be carried through to the caller; nothing is known of
/// what it holds.
#[verifier::external_type_specification]
#[verifier::external_body]
pub struct ExJsonError(serde_json::Error);

/// What `serde_json::from_slice` reads from a payload as a `spaceapi::Status`,
/// reduced to the name of the space and its state, or `None` where the decoder
/// refuses the payload.
///
/// Decoding is a pure function of the bytes; its result is named here and not
/// written out.
pub uninterp spec fn decoded_status(payload: Seq<u8>) -> Option<StatusView>;

/// One event of the feed subscription, as the client layer classified it.
#[derive(Debug)]
pub enum FeedEvent {
    /// A message arrived on the subscribed topic; these are its bytes.
    Rx(Vec<u8>),
    /// Anything else that the client reports.
    Other,
}

/// Mathematical model of a [`FeedEvent`].
pub enum FeedEventView {
    Rx(Seq<u8>),
    Other,
}

impl View for FeedEvent {
    type V = FeedEventView;

    open spec fn view(&self) -> FeedEventView {
        match self {
            FeedEvent::Rx(payload) => FeedEventView::Rx(payload@),
            FeedEvent::Other => FeedEventView::Other,
        }
    }
}

/// What handling one feed event led to.
#[derive(Debug)]
pub enum FeedOutcome {
    /// The event carried no message.
    Ignored,
    /// The payload could not be decoded and was dropped; the decoder's error says why.
    Malformed(serde_json::Error),
    /// The payload has no state and was dropped.
    NoState,
    /// The state is the one already known.
    Unchanged,
    /// The state is new, but no message can be made of it.
    Rejected(Failure),
    /// The state is new: this fan-out of its message is to be carried out.
    Notify(Dispatch),
}

/// Mathematical model of a [`FeedOutcome`].
pub enum FeedOutcomeView {
    Ignored,
    Malformed,
    NoState,
    Unchanged,
    Rejected(FailureView),
    Notify(DispatchView),
}

impl View for FeedOutcome {
    type V = FeedOutcomeView;

    open spec fn view(&self) -> FeedOutcomeView {
        match self {
            FeedOutcome::Ignored => FeedOutcomeView::Ignored,
            FeedOutcome::Malformed(_) => FeedOutcomeView::Malformed,
            FeedOutcome::NoState => FeedOutcomeView::NoState,
            FeedOutcome::Unchanged => FeedOutcomeView::Unchanged,
            FeedOutcome::Rejected(error) => FeedOutcomeView::Rejected(error@),
            FeedOutcome::Notify(dispatch) => FeedOutcomeView::Notify(dispatch@),
        }
    }
}

/// Mathematical model of what the decoder returned.
pub open spec fn decoding_view(decoded: Result<Status, serde_json::Error>) -> Option<StatusView> {
    match decoded {
        Ok(status) => Some(status@),
        Err(_) => None,
    }
}

/// What a decoded payload leads to when the cache holds `cached`: the state
/// that the cache holds afterwards, and the outcome.
///
/// A payload without a state never reaches the cache. A state that differs
/// from the cached one replaces it before anything is rendered.
pub open spec fn fed(
    cached: StateView,
    decoded: Option<StatusView>,
    destinations: Seq<Seq<char>>,
) -> (StateView, FeedOutcomeView) {
    match decoded {
        None => (cached, FeedOutcomeView::Malformed),
        Some(status) => match status.state {
            None => (cached, FeedOutcomeView::NoState),
            Some(state) => if !evaluated(cached, state).0 {
                (cached, FeedOutcomeView::Unchanged)
            } else {
                match rendered(status) {
                    Ok(message) => (state, FeedOutcomeView::Notify(begun(message, destinations))),
                    Err(failure) => (state, FeedOutcomeView::Rejected(failure)),
                }
            },
        },
    }
}

/// What a feed event leads to when the cache holds `cached`.
pub open spec fn handled(cached: StateView, event: FeedEventView, destinations: Seq<Seq<char>>) -> (
    StateView,
    FeedOutcomeView,
) {
    match event {
        FeedEventView::Rx(payload) => fed(cached, decoded_status(payload), destinations),
        FeedEventView::Other => (cached, FeedOutcomeView::Ignored),
    }
}

/// Calls `serde_json::from_slice` for a `spaceapi::Status` and keeps of the
/// decoded status what the bridge reads: the name of the space and, of its
/// state, `open` and `message`.
///
/// Trusted: the result depends on the bytes alone. It is `Ok` exactly where
/// the decoder accepts the payload, and then holds the decoded name and state.
#[verifier::external_body]
fn decode_status(payload: &[u8]) -> (decoded: Result<Status, serde_json::Error>)
    ensures
        decoding_view(decoded) == decoded_status(payload@),
{
    let status = serde_json::from_slice::<spaceapi::Status>(payload)?;
    let state = status.state.map(|state| State { open: state.open, message: state.message });
    Ok(Status { name: status.space, state })
}

/// A copy of the configured destinations.
fn copy_of(destinations: &Vec<String>) -> (copy: Vec<String>)
    ensures
        copy.deep_view() == destinations.deep_view(),
{
    let mut copy: Vec<String> = Vec::new();
    let mut i: usize = 0;
    while i < destinations.len()
        invariant
            i <= destinations.len(),
            copy.len() == i,
            forall|k: int| 0 <= k < i ==> copy[k]@ == destinations[k]@,
        decreases destinations.len() - i,
    {
        copy.push(destinations[i].clone());
        i += 1;
    }
    copy
}

/// Handles what the decoder made of a payload.
///
/// A payload that failed to decode or has no state is dropped and leaves the
/// cache alone. Otherwise the state is evaluated against the cache; only a
/// changed state is rendered, and its message is fanned out to every
/// configured destination.
pub fn handle_decoded(
    decoded: Result<Status, serde_json::Error>,
    cache: &mut StatusCache,
    destinations: &Vec<String>,
) -> (outcome: FeedOutcome)
    ensures
        (final(cache)@, outcome@) == fed(
            old(cache)@,
            decoding_view(decoded),
            destinations.deep_view(),
        ),
{
    let status = match decoded {
        Ok(status) => status,
        Err(error) => { return FeedOutcome::Malformed(error); },
    };
    let changed = match &status.state {
        Some(state) => cache.evaluate(state),
        None => { return FeedOutcome::NoState; },
    };
    if !changed {
        return FeedOutcome::Unchanged;
    }
    match render(&status) {
        Ok(message) => FeedOutcome::Notify(Dispatch::begin(message, copy_of(destinations))),
        Err(error) => FeedOutcome::Rejected(error),
    }
}

/// Handles one event of the feed: a received message is decoded and handled
/// as [`handle_decoded`] says; any other event is ignored.
pub fn handle_spaceapi_message(
    event: FeedEvent,
    cache: &mut StatusCache,
    destinations: &Vec<String>,
) -> (outcome: FeedOutcome)
    ensures
        (final(cache)@, outcome@) == handled(old(cache)@, event@, destinations.deep_view()),
{
    match event {
        FeedEvent::Rx(payload) => {
            let decoded = decode_status(payload.as_slice());
            handle_decoded(decoded, cache, destinations)
        },
        FeedEvent::Other => FeedOutcome::Ignored,
    }
}

/// A notification goes out exactly when the payload decodes, carries a state
/// that differs from the cached one, and that state says whether the space is
/// open. It is then the fan-out of the rendered payload to all destinations.
pub proof fn lemma_notified_iff_changed(
    cached: StateView,
    decoded: Option<StatusView>,
    destinations: Seq<Seq<char>>,
)
    ensures
        fed(cached, decoded, destinations).1 is Notify <==> (decoded matches Some(status)
            && status.state matches Some(state) && state != cached && state.open is Some),
        fed(cached, decoded, destinations).1 matches FeedOutcomeView::Notify(dispatch)
            ==> rendered(decoded->0) == Ok::<MessageView, FailureView>(dispatch.message)
            && dispatch == begun(dispatch.message, destinations),
{
}

/// The cache follows the feed: after a payload with a state it holds that
/// state, and any other payload leaves it as it was.
pub proof fn lemma_cache_follows_feed(
    cached: StateView,
    decoded: Option<StatusView>,
    destinations: Seq<Seq<char>>,
)
    ensures
        fed(cached, decoded, destinations).0 == (match decoded {
            Some(status) => match status.state {
                Some(state) => state,
                None => cached,
            },
            None => cached,
        }),
{
}

/// A payload that arrives a second time in a row leads to nothing: no
/// notification and no change of the cache.
pub proof fn lemma_repeat_is_silent(
    cached: StateView,
    decoded: Option<StatusView>,
    destinations: Seq<Seq<char>>,
)
    ensures
        ({
            let first = fed(cached, decoded, destinations);
            let second = fed(first.0, decoded, destinations);
            &&& second.0 == first.0
            &&& !(second.1 is Notify)
            &&& !(second.1 is Rejected)
            &&& first.1 is Notify ==> second.1 == FeedOutcomeView::Unchanged
        }),
{
}

} // verus!
