//! Chat messages: a plain body and, where markup was found in it, its HTML form.

use crate::status::text_view;
use matrix_sdk::ruma::events::room::message::{MessageType, RoomMessageEventContent};
use vstd::prelude::*;

verus! {

/// The HTML that `RoomMessageEventContent::text_markdown` of `matrix_sdk::ruma`
/// gives a message with this body as its formatted body, or `None` where it
/// finds no markup in the body and leaves the message plain.
///
/// The formatter is a pure function of the body; its result is named here and
/// not written out.
pub uninterp spec fn markdown_html(body: Seq<char>) -> Option<Seq<char>>;

/// Mathematical model of a [`Message`].
pub struct MessageView {
    pub body: Seq<char>,
    pub html: Option<Seq<char>>,
}

/// A text message for a chat channel.
#[derive(Debug)]
pub struct Message {
    /// The text as typed, shown by clients that do not render markup.
    pub body: String,
    /// The formatted form of `body`, if it has one.
    pub html: Option<String>,
}

impl View for Message {
    type V = MessageView;

    open spec fn view(&self) -> MessageView {
        MessageView { body: self.body@, html: text_view(self.html) }
    }
}

impl Clone for Message {
    fn clone(&self) -> (copy: Self)
        ensures
            copy@ == self@,
    {
        let html = match &self.html {
            Some(text) => Some(text.clone()),
            None => None,
        };
        Message { body: self.body.clone(), html }
    }
}

/// Calls `RoomMessageEventContent::text_markdown` of `matrix_sdk::ruma` and
/// takes the text content that it builds apart into its two strings.
///
/// Trusted: the content keeps `body` as its plain body, and its formatted body
/// is what the Markdown formatter makes of `body`, absent where the formatter
/// detects no markup.
#[verifier::external_body]
fn markdown_content(body: String) -> (message: Message)
    ensures
        message@.body == body@,
        message@.html == markdown_html(body@),
{
    match RoomMessageEventContent::text_markdown(body).msgtype {
        MessageType::Text(text) => Message {
            body: text.body,
            html: text.formatted.map(|formatted| formatted.body),
        },
        other => Message { body: other.body().to_owned(), html: None },
    }
}

impl Message {
    /// A message without markup.
    pub fn text_plain(body: String) -> (message: Message)
        ensures
            message@ == (MessageView { body: body@, html: None }),
    {
        Message { body, html: None }
    }

    /// A message whose body is read as Markdown.
    pub fn text_markdown(body: String) -> (message: Message)
        ensures
            message@ == (MessageView { body: body@, html: markdown_html(body@) }),
    {
        markdown_content(body)
    }
}

} // verus!
