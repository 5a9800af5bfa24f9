//! What can go wrong on the way from a payload to a chat message.

use crate::message::{Message, MessageView};
use vstd::prelude::*;

verus! {

/// A failure that is reported instead of a status.
#[derive(Debug)]
pub enum Failure {
    /// The on-demand fetch failed; the text says how.
    HttpError(String),
    /// The payload carries a state that does not say whether the space is open.
    OpenMissing,
    /// The payload carries no state where one is required.
    StateMissing,
}

/// Mathematical model of a [`Failure`].
pub enum FailureView {
    HttpError(Seq<char>),
    OpenMissing,
    StateMissing,
}

impl View for Failure {
    type V = FailureView;

    open spec fn view(&self) -> FailureView {
        match self {
            Failure::HttpError(detail) => FailureView::HttpError(detail@),
            Failure::OpenMissing => FailureView::OpenMissing,
            Failure::StateMissing => FailureView::StateMissing,
        }
    }
}

/// The text that describes a failure to a reader.
pub open spec fn description_of(failure: FailureView) -> Seq<char> {
    match failure {
        FailureView::HttpError(detail) => "HTTP error: "@ + detail,
        FailureView::OpenMissing => "the state does not say whether the space is open"@,
        FailureView::StateMissing => "the payload has no state"@,
    }
}

/// The apology that stands in for a status after `failure`: plain text that
/// embeds the description of the failure.
pub open spec fn apology(failure: FailureView) -> MessageView {
    MessageView {
        body: "Something has gone wrong... ("@ + description_of(failure) + ")"@,
        html: None,
    }
}

impl Failure {
    /// Describes the failure in one line.
    pub fn description(&self) -> (text: String)
        ensures
            text@ == description_of(self@),
    {
        match self {
            Failure::HttpError(detail) => {
                let mut text = String::from_str("HTTP error: ");
                text.append(detail.as_str());
                text
            },
            Failure::OpenMissing => String::from_str(
                "the state does not say whether the space is open",
            ),
            Failure::StateMissing => String::from_str("the payload has no state"),
        }
    }

    /// The generic apology that embeds the description of the failure.
    pub fn as_matrix_message(&self) -> (message: Message)
        ensures
            message@ == apology(self@),
    {
        let mut body = String::from_str("Something has gone wrong... (");
        let description = self.description();
        body.append(description.as_str());
        body.append(")");
        Message::text_plain(body)
    }
}

} // verus!
