//! Bridges a published open/closed status feed into chat notifications.
//!
//! A space publishes its status on a feed. The bridge remembers the last
//! state it saw ([`cache`]), turns each change into a message ([`render`]) and
//! fans the message out to the configured channels ([`dispatch`]). It also
//! answers status queries typed into a channel ([`query`]) and accepts
//! invitations, retrying with exponential back-off ([`invite`]).
//!
//! Nothing here waits, sends or receives. Each component is a function from a
//! state and an event to the next state and an action: the program around the
//! library performs the action and hands back what came of it. [`event_loop`]
//! holds the state of the coordination loop and [`feed`] the handling of one
//! feed event.

pub mod cache;
pub mod dispatch;
pub mod event_loop;
pub mod failure;
pub mod feed;
pub mod invite;
pub mod message;
pub mod query;
pub mod render;
pub mod room;
pub mod status;
pub mod text;
