//! Rooms as the bridge sees them.

use vstd::prelude::*;

verus! {

/// The bot's relation to the room that an event came from.
#[derive(Clone, Copy, Debug, PartialEq, Eq, Structural)]
pub enum RoomKind {
    /// The bot is a member of the room.
    Joined,
    /// The bot has been invited to the room and has not joined it yet.
    Invited,
    /// The bot has left the room.
    Left,
}

} // verus!
