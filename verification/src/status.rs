//! The status payload that the feed publishes and the on-demand fetch returns.

use vstd::prelude::*;
use vstd::std_specs::cmp::PartialEqSpecImpl;

verus! {

/// Mathematical model of an optional string: its characters, where it is present.
pub open spec fn text_view(text: Option<String>) -> Option<Seq<char>> {
    match text {
        Some(s) => Some(s@),
        None => None,
    }
}

/// Mathematical model of a [`State`].
pub struct StateView {
    pub open: Option<bool>,
    pub message: Option<Seq<char>>,
}

/// Mathematical model of a [`Status`].
pub struct StatusView {
    pub name: Seq<char>,
    pub state: Option<StateView>,
}

/// Whether the space is open, with an optional free-text remark.
///
/// An absent `open` is a condition of its own ("unknown"): two states that
/// differ only in that are different states.
#[derive(Debug)]
pub struct State {
    pub open: Option<bool>,
    pub message: Option<String>,
}

/// One payload: the name of the space and, where the publisher gave one, its state.
#[derive(Debug)]
pub struct Status {
    pub name: String,
    pub state: Option<State>,
}

impl View for State {
    type V = StateView;

    open spec fn view(&self) -> StateView {
        StateView { open: self.open, message: text_view(self.message) }
    }
}

impl View for Status {
    type V = StatusView;

    open spec fn view(&self) -> StatusView {
        StatusView {
            name: self.name@,
            state: match self.state {
                Some(state) => Some(state@),
                None => None,
            },
        }
    }
}

impl Clone for State {
    fn clone(&self) -> (copy: Self)
        ensures
            copy@ == self@,
    {
        let message = match &self.message {
            Some(text) => Some(text.clone()),
            None => None,
        };
        State { open: self.open, message }
    }
}

impl Clone for Status {
    fn clone(&self) -> (copy: Self)
        ensures
            copy@ == self@,
    {
        let state = match &self.state {
            Some(state) => Some(state.clone()),
            None => None,
        };
        Status { name: self.name.clone(), state }
    }
}

impl PartialEq for State {
    /// Full structural equality: both fields, an absent field equal only to an absent one.
    fn eq(&self, other: &State) -> (same: bool) {
        let same_open = match (self.open, other.open) {
            (Some(a), Some(b)) => a == b,
            (None, None) => true,
            _ => false,
        };
        let same_message = match &self.message {
            Some(a) => match &other.message {
                Some(b) => *a == *b,
                None => false,
            },
            None => other.message.is_none(),
        };
        same_open && same_message
    }
}

impl PartialEqSpecImpl for State {
    open spec fn obeys_eq_spec() -> bool {
        true
    }

    open spec fn eq_spec(&self, other: &State) -> bool {
        self@ == other@
    }
}

impl Eq for State {

}

} // verus!
