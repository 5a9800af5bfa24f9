//! Rendering a status payload as a human-readable chat message.

use crate::failure::{Failure, FailureView};
use crate::message::{markdown_html, Message, MessageView};
use crate::status::{Status, StatusView};
use crate::text::{occurs_at, occurs_in};
use vstd::prelude::*;

verus! {

/// The word for an open or a closed space.
pub open spec fn open_text(open: bool) -> Seq<char> {
    if open {
        "open"@
    } else {
        "closed"@
    }
}

/// A remark in round brackets after a space, or nothing where there is none.
pub open spec fn message_text(message: Option<Seq<char>>) -> Seq<char> {
    match message {
        Some(message) => " ("@ + message + ")"@,
        None => Seq::<char>::empty(),
    }
}

/// The body that announces a known state: the name, the word for the state
/// in bold, and the remark if there is one.
pub open spec fn announcement(name: Seq<char>, open: bool, message: Option<Seq<char>>) -> Seq<
    char,
> {
    name + " is **"@ + open_text(open) + "**"@ + message_text(message)
}

/// The body for a payload that has no state.
pub open spec fn no_idea(name: Seq<char>) -> Seq<char> {
    "I have no idea if "@ + name + " is open or not..."@
}

/// What rendering a payload gives.
///
/// Without a state the message is plain text. With a state that says whether
/// the space is open, the body is read as Markdown. A state that does not say
/// so has no message: it is an error of its own and never rendered as if it
/// said "closed" or nothing.
pub open spec fn rendered(status: StatusView) -> Result<MessageView, FailureView> {
    match status.state {
        None => Ok(MessageView { body: no_idea(status.name), html: None }),
        Some(state) => match state.open {
            Some(open) => {
                let body = announcement(status.name, open, state.message);
                Ok(MessageView { body, html: markdown_html(body) })
            },
            None => Err(FailureView::OpenMissing),
        },
    }
}

/// Mathematical model of the result of rendering.
pub open spec fn rendering_view(result: Result<Message, Failure>) -> Result<
    MessageView,
    FailureView,
> {
    match result {
        Ok(message) => Ok(message@),
        Err(failure) => Err(failure@),
    }
}

/// Renders a payload as [`rendered`] says.
pub fn render(status: &Status) -> (result: Result<Message, Failure>)
    ensures
        rendering_view(result) == rendered(status@),
        result is Err <==> (status@.state matches Some(state) && state.open is None),
{
    match &status.state {
        Some(state) => {
            let open = match state.open {
                Some(open) => open,
                None => { return Err(Failure::OpenMissing); },
            };
            let mut body = status.name.clone();
            body.append(" is **");
            body.append(if open { "open" } else { "closed" });
            body.append("**");
            match &state.message {
                Some(message) => {
                    body.append(" (");
                    body.append(message.as_str());
                    body.append(")");
                },
                None => {},
            }
            assert(body@ =~= announcement(status@.name, open, state@.message));
            Ok(Message::text_markdown(body))
        },
        None => {
            let mut body = String::from_str("I have no idea if ");
            body.append(status.name.as_str());
            body.append(" is open or not...");
            Ok(Message::text_plain(body))
        },
    }
}

/// A payload without a state is answered with the same plain sentence,
/// whatever the name of the space.
pub proof fn lemma_no_state_is_no_idea(name: Seq<char>)
    ensures
        rendered(StatusView { name, state: None }) == Ok::<MessageView, FailureView>(
            MessageView { body: "I have no idea if "@ + name + " is open or not..."@, html: None },
        ),
{
}

/// The announcement of a state holds the word for it, "open" for an open
/// space and "closed" for a closed one, and the remark in round brackets
/// where there is one.
pub proof fn lemma_announcement_holds_state_and_remark(
    name: Seq<char>,
    open: bool,
    message: Option<Seq<char>>,
)
    ensures
        open ==> occurs_in(announcement(name, open, message), "open"@),
        !open ==> occurs_in(announcement(name, open, message), "closed"@),
        message matches Some(remark) ==> occurs_in(
            announcement(name, open, message),
            "("@ + remark + ")"@,
        ),
{
    reveal_strlit(" is **");
    reveal_strlit("**");
    reveal_strlit("open");
    reveal_strlit("closed");
    reveal_strlit(" (");
    reveal_strlit("(");
    reveal_strlit(")");
    let body = announcement(name, open, message);
    let word = open_text(open);
    let at: int = name.len() as int + 6;
    assert(body.subrange(at, at + word.len()) =~= word);
    assert(occurs_at(body, word, at));
    match message {
        Some(remark) => {
            let bracketed = "("@ + remark + ")"@;
            let from: int = at + word.len() + 3;
            assert(body.subrange(from, from + bracketed.len()) =~= bracketed);
            assert(occurs_at(body, bracketed, from));
        },
        None => {},
    }
}

} // verus!
