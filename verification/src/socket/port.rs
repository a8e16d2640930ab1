//! The vocabulary shared with the socket layer: the commands that clients
//! send, the events that travel through a session's room or to one caller,
//! and what can come of an emit that waits for an acknowledgment.

use vstd::prelude::*;

verus! {

/// A command that a client sends to the relay.
#[derive(Clone, Copy, Debug, PartialEq, Eq, Structural)]
pub enum ClientEvent {
    /// An owner asks for a session.
    StartSession,
    /// A controller asks to join a session.
    JoinSession,
    /// A controller sends a vibration command.
    Vibrate,
}

impl ClientEvent {
    /// The name of the command on the wire.
    pub open spec fn name(self) -> Seq<char> {
        match self {
            ClientEvent::StartSession => "start_session"@,
            ClientEvent::JoinSession => "join_session"@,
            ClientEvent::Vibrate => "vibrate"@,
        }
    }

    /// The name of the command on the wire.
    pub fn as_str(&self) -> (s: &'static str)
        ensures
            s@ == self.name(),
    {
        match self {
            ClientEvent::StartSession => "start_session",
            ClientEvent::JoinSession => "join_session",
            ClientEvent::Vibrate => "vibrate",
        }
    }
}

/// An event that is broadcast to the room of a session.
#[derive(Clone, Copy, Debug, PartialEq, Eq, Structural)]
pub enum RoomEvent {
    /// A controller asks the owner for permission to join.
    JoinRequest,
    /// A controller was admitted.
    ControllerJoined,
    /// The controller of the session has gone.
    ControllerDisconnected,
    /// The owner has gone and the session is over.
    SessionFinished,
    /// A vibration command on its way to the owner.
    Vibrate,
}

impl RoomEvent {
    /// The name of the event on the wire.
    pub open spec fn name(self) -> Seq<char> {
        match self {
            RoomEvent::JoinRequest => "join_request"@,
            RoomEvent::ControllerJoined => "controller_joined"@,
            RoomEvent::ControllerDisconnected => "controller_disconnected"@,
            RoomEvent::SessionFinished => "session_finished"@,
            RoomEvent::Vibrate => "vibrate"@,
        }
    }

    /// The name of the event on the wire.
    pub fn as_str(&self) -> (s: &'static str)
        ensures
            s@ == self.name(),
    {
        match self {
            RoomEvent::JoinRequest => "join_request",
            RoomEvent::ControllerJoined => "controller_joined",
            RoomEvent::ControllerDisconnected => "controller_disconnected",
            RoomEvent::SessionFinished => "session_finished",
            RoomEvent::Vibrate => "vibrate",
        }
    }
}

/// An event that is sent to the calling connection alone.
#[derive(Clone, Copy, Debug, PartialEq, Eq, Structural)]
pub enum CallerEvent {
    /// The connection is refused.
    ConnectError,
    /// A command of the caller could not be served.
    Error,
}

impl CallerEvent {
    /// The name of the event on the wire.
    pub open spec fn name(self) -> Seq<char> {
        match self {
            CallerEvent::ConnectError => "connect_error"@,
            CallerEvent::Error => "error"@,
        }
    }

    /// The name of the event on the wire.
    pub fn as_str(&self) -> (s: &'static str)
        ensures
            s@ == self.name(),
    {
        match self {
            CallerEvent::ConnectError => "connect_error",
            CallerEvent::Error => "error",
        }
    }
}

/// What came of an emit that waits for a single acknowledgment.
#[derive(Debug)]
pub enum Acknowledgment<A> {
    /// The first acknowledgment that arrived before the timeout.
    Received(A),
    /// No acknowledgment arrived in time, or the transport failed.
    TimedOut,
}

} // verus!
