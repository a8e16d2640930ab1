//! A model of what surrounds one connection: the session store, the rooms
//! and the connection's own slot, as they behave when nothing fails.
//!
//! The handlers are stated against this model to say what a command
//! achieves from end to end. What a handler does when a collaborator fails
//! is fixed by its transition alone.

use vstd::prelude::*;
use crate::actors::controller::messages::ControllerErrorKind;
use crate::sessions::port::{SessionId, Sessions};
use crate::socket::port::RoomEvent;

verus! {

/// The store, the rooms and the calling connection at one moment.
pub struct World {
    /// The sessions that the store holds, each with its state.
    pub sessions: Sessions,
    /// The session id that the calling connection holds, if any.
    pub stored_value: Option<SessionId>,
    /// The rooms that the calling connection is in.
    pub rooms: Set<SessionId>,
    /// The events broadcast to rooms so far, oldest first.
    pub broadcasts: Seq<(SessionId, RoomEvent)>,
    /// The errors reported to the calling connection so far, oldest first.
    pub errors: Seq<ControllerErrorKind>,
    /// Whether the calling connection is still open.
    pub connected: bool,
}

impl World {
    /// The world in which the store holds `sessions` instead.
    pub open spec fn with_sessions(self, sessions: Sessions) -> World {
        World { sessions, ..self }
    }

    /// The calling connection joins a room.
    pub open spec fn join(self, room: SessionId) -> World {
        World { rooms: self.rooms.insert(room), ..self }
    }

    /// An event is broadcast to a room.
    pub open spec fn emit_to_room(self, room: SessionId, event: RoomEvent) -> World {
        World { broadcasts: self.broadcasts.push((room, event)), ..self }
    }

    /// An error is reported to the calling connection.
    pub open spec fn emit_error(self, kind: ControllerErrorKind) -> World {
        World { errors: self.errors.push(kind), ..self }
    }

    /// The calling connection is closed.
    pub open spec fn disconnect(self) -> World {
        World { connected: false, ..self }
    }

    /// A session id is stored on the calling connection.
    pub open spec fn store_value(self, id: SessionId) -> World {
        World { stored_value: Some(id), ..self }
    }

    /// The calling connection forgets its session id.
    pub open spec fn remove_value(self) -> World {
        World { stored_value: None, ..self }
    }
}

} // verus!
