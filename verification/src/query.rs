//! Answering status queries typed into joined channels.
//!
//! One channel message is handled by a small machine. [`on_room_message`]
//! classifies the message and names the first action; the caller performs each
//! action and hands back what came of it to [`on_query_event`], until the
//! machine is [`QueryState::Done`].

use crate::failure::{apology, Failure, FailureView};
use crate::message::{Message, MessageView};
use crate::render::{render, rendered};
use crate::room::RoomKind;
use crate::status::{Status, StatusView};
use crate::text::{contains, occurs_in, str_eq};
use vstd::prelude::*;

verus! {

/// Where the handling of one channel message stands.
#[derive(Clone, Copy, Debug, PartialEq, Eq, Structural)]
pub enum QueryState {
    /// A fresh fetch of the status is under way.
    Fetching,
    /// The reply has been handed out for sending.
    Replying,
    /// Nothing more is to be done for this message.
    Done,
}

/// What came of the action that the machine named last.
#[derive(Debug)]
pub enum QueryEvent {
    /// The fetch ended, with a status or with an error.
    Fetched(Result<Status, Failure>),
    /// The attempt to send the reply ended, whether the reply went out or not.
    ReplySettled,
}

/// Mathematical model of a [`QueryEvent`].
pub enum QueryEventView {
    Fetched(Result<StatusView, FailureView>),
    ReplySettled,
}

/// What the caller is to do next.
#[derive(Debug)]
pub enum QueryAction {
    /// Nothing at all.
    Nothing,
    /// Mark the message as read.
    MarkRead,
    /// Fetch the current status afresh, past the cache.
    Fetch,
    /// Send this message as a threaded reply to the message that asked.
    Reply(Message),
}

/// Mathematical model of a [`QueryAction`].
pub enum QueryActionView {
    Nothing,
    MarkRead,
    Fetch,
    Reply(MessageView),
}

/// Mathematical model of the outcome of a fetch.
pub open spec fn fetched_view(fetched: Result<Status, Failure>) -> Result<StatusView, FailureView> {
    match fetched {
        Ok(status) => Ok(status@),
        Err(error) => Err(error@),
    }
}

impl View for QueryEvent {
    type V = QueryEventView;

    open spec fn view(&self) -> QueryEventView {
        match self {
            QueryEvent::Fetched(fetched) => QueryEventView::Fetched(fetched_view(*fetched)),
            QueryEvent::ReplySettled => QueryEventView::ReplySettled,
        }
    }
}

impl View for QueryAction {
    type V = QueryActionView;

    open spec fn view(&self) -> QueryActionView {
        match self {
            QueryAction::Nothing => QueryActionView::Nothing,
            QueryAction::MarkRead => QueryActionView::MarkRead,
            QueryAction::Fetch => QueryActionView::Fetch,
            QueryAction::Reply(message) => QueryActionView::Reply(message@),
        }
    }
}

/// Whether a channel message is one that the bot reads at all: a text
/// message in a joined room from somebody other than the bot itself.
pub open spec fn is_read(
    room: RoomKind,
    sender: Seq<char>,
    bot_user: Seq<char>,
    text: Option<Seq<char>>,
) -> bool {
    room == RoomKind::Joined && sender != bot_user && text is Some
}

/// The state and the first action for a channel message.
pub open spec fn received(
    room: RoomKind,
    sender: Seq<char>,
    bot_user: Seq<char>,
    text: Option<Seq<char>>,
    trigger: Seq<char>,
) -> (QueryState, QueryActionView) {
    if !is_read(room, sender, bot_user, text) {
        (QueryState::Done, QueryActionView::Nothing)
    } else if occurs_in(text->0, trigger) {
        (QueryState::Fetching, QueryActionView::Fetch)
    } else {
        (QueryState::Done, QueryActionView::MarkRead)
    }
}

/// The reply to a query, given what the fetch returned: the rendered status,
/// or the apology for whatever stood in its way.
pub open spec fn reply_for(fetched: Result<StatusView, FailureView>) -> MessageView {
    match fetched {
        Ok(status) => match rendered(status) {
            Ok(message) => message,
            Err(failure) => apology(failure),
        },
        Err(failure) => apology(failure),
    }
}

/// The next state and action when `event` arrives in `state`.
pub open spec fn advanced(state: QueryState, event: QueryEventView) -> (
    QueryState,
    QueryActionView,
) {
    match (state, event) {
        (QueryState::Fetching, QueryEventView::Fetched(fetched)) => (
            QueryState::Replying,
            QueryActionView::Reply(reply_for(fetched)),
        ),
        (QueryState::Replying, QueryEventView::ReplySettled) => (
            QueryState::Done,
            QueryActionView::MarkRead,
        ),
        _ => (state, QueryActionView::Nothing),
    }
}

/// Text of an optional string slice.
pub open spec fn slice_view(text: Option<&str>) -> Option<Seq<char>> {
    match text {
        Some(s) => Some(s@),
        None => None,
    }
}

/// Classifies a channel message. `text` is the body of a text message and
/// `None` for any other kind of message; `trigger` is the substring that makes
/// a message a query.
///
/// A message of the bot's own is never answered nor marked, whatever it says.
pub fn on_room_message(
    room: RoomKind,
    sender: &str,
    bot_user: &str,
    text: Option<&str>,
    trigger: &str,
) -> (step: (QueryState, QueryAction))
    ensures
        (step.0, step.1@) == received(room, sender@, bot_user@, slice_view(text), trigger@),
        sender@ == bot_user@ ==> step.0 == QueryState::Done && step.1@
            == QueryActionView::Nothing,
{
    let joined = match room {
        RoomKind::Joined => true,
        _ => false,
    };
    if !joined || str_eq(sender, bot_user) {
        return (QueryState::Done, QueryAction::Nothing);
    }
    match text {
        Some(body) => {
            if contains(body, trigger) {
                (QueryState::Fetching, QueryAction::Fetch)
            } else {
                (QueryState::Done, QueryAction::MarkRead)
            }
        },
        None => (QueryState::Done, QueryAction::Nothing),
    }
}

/// The reply to a query: the rendered status, or the apology that embeds the
/// description of what went wrong. It never fails.
pub fn query_reply(fetched: Result<Status, Failure>) -> (reply: Message)
    ensures
        reply@ == reply_for(fetched_view(fetched)),
{
    match fetched {
        Ok(status) => match render(&status) {
            Ok(message) => message,
            Err(error) => error.as_matrix_message(),
        },
        Err(error) => error.as_matrix_message(),
    }
}

/// Advances the machine by one event and names the next action.
///
/// The fetch result is answered with exactly one reply, and once the reply
/// has settled the message is marked as read exactly once. An event that the
/// state does not wait for changes nothing.
pub fn on_query_event(state: QueryState, event: QueryEvent) -> (step: (QueryState, QueryAction))
    ensures
        (step.0, step.1@) == advanced(state, event@),
{
    match (state, event) {
        (QueryState::Fetching, QueryEvent::Fetched(fetched)) => (
            QueryState::Replying,
            QueryAction::Reply(query_reply(fetched)),
        ),
        (QueryState::Replying, QueryEvent::ReplySettled) => (
            QueryState::Done,
            QueryAction::MarkRead,
        ),
        (state, _) => (state, QueryAction::Nothing),
    }
}

/// The state that a run of events leads to from `state`.
pub open spec fn state_after(state: QueryState, events: Seq<QueryEventView>) -> QueryState
    decreases events.len(),
{
    if events.len() == 0 {
        state
    } else {
        advanced(state_after(state, events.drop_last()), events.last()).0
    }
}

/// The action that event number `i` of a run from `state` draws.
pub open spec fn action_at(state: QueryState, events: Seq<QueryEventView>, i: int) -> QueryActionView
    recommends
        0 <= i < events.len(),
{
    advanced(state_after(state, events.take(i)), events[i]).1
}

/// How far the handling of a message has come.
pub open spec fn progress(state: QueryState) -> int {
    match state {
        QueryState::Fetching => 0,
        QueryState::Replying => 1,
        QueryState::Done => 2,
    }
}

/// The machine never goes back to an earlier state.
proof fn lemma_progress_grows(state: QueryState, events: Seq<QueryEventView>, from: int, to: int)
    requires
        0 <= from <= to <= events.len(),
    ensures
        progress(state_after(state, events.take(from))) <= progress(
            state_after(state, events.take(to)),
        ),
    decreases to - from,
{
    if from < to {
        lemma_progress_grows(state, events, from, to - 1);
        assert(events.take(to).drop_last() == events.take(to - 1));
    }
}

/// A finished machine stays finished and asks for nothing, whatever arrives.
pub proof fn lemma_done_is_final(events: Seq<QueryEventView>, i: int)
    requires
        0 <= i < events.len(),
    ensures
        state_after(QueryState::Done, events) == QueryState::Done,
        action_at(QueryState::Done, events, i) == QueryActionView::Nothing,
{
    lemma_progress_grows(QueryState::Done, events, 0, i);
    lemma_progress_grows(QueryState::Done, events, 0, events.len() as int);
    assert(events.take(events.len() as int) == events);
}

/// Self-suppression: a message from the bot's own identity draws no action,
/// neither at once nor through any event that follows. It is never answered,
/// whatever it says.
pub proof fn lemma_own_message_is_never_answered(
    room: RoomKind,
    bot_user: Seq<char>,
    text: Option<Seq<char>>,
    trigger: Seq<char>,
    events: Seq<QueryEventView>,
    i: int,
)
    requires
        0 <= i < events.len(),
    ensures
        received(room, bot_user, bot_user, text, trigger).1 == QueryActionView::Nothing,
        action_at(received(room, bot_user, bot_user, text, trigger).0, events, i)
            == QueryActionView::Nothing,
{
    lemma_done_is_final(events, i);
}

/// A query is answered once: the fetch result draws the reply made for it,
/// the settled reply draws the one read marker, and the machine is done.
pub proof fn lemma_query_is_answered_once(fetched: Result<StatusView, FailureView>)
    ensures
        ({
            let events = seq![QueryEventView::Fetched(fetched), QueryEventView::ReplySettled];
            &&& action_at(QueryState::Fetching, events, 0) == QueryActionView::Reply(
                reply_for(fetched),
            )
            &&& action_at(QueryState::Fetching, events, 1) == QueryActionView::MarkRead
            &&& state_after(QueryState::Fetching, events) == QueryState::Done
        }),
{
    let events = seq![QueryEventView::Fetched(fetched), QueryEventView::ReplySettled];
    assert(events.take(0) == Seq::<QueryEventView>::empty());
    assert(events.take(1).drop_last() == Seq::<QueryEventView>::empty());
}

/// Whatever events arrive and in whatever order, a message is never marked as
/// read twice and never answered twice.
pub proof fn lemma_no_action_twice(
    state: QueryState,
    events: Seq<QueryEventView>,
    i: int,
    j: int,
)
    requires
        0 <= i < j < events.len(),
    ensures
        action_at(state, events, i) is MarkRead ==> action_at(state, events, j)
            == QueryActionView::Nothing,
        action_at(state, events, i) is Reply ==> !(action_at(state, events, j) is Reply),
{
    assert(events.take(i + 1).drop_last() == events.take(i));
    lemma_progress_grows(state, events, i + 1, j);
}

} // verus!
