//! The decisions of the owner side.
//!
//! A handler never touches the store or the socket. It is told what
//! happened, and answers with what has to be done next; the runtime does it
//! and comes back with the outcome.

use vstd::prelude::*;
use crate::actors::owner::messages::{StartSessionError, StartSessionResponse};
use crate::sessions::port::{CreateSessionError, SessionId};
use crate::socket::port::RoomEvent;

verus! {

/// How far the start of a session has come.
#[derive(Debug)]
pub enum StartSession {
    /// No request has been received.
    Idle,
    /// The store is creating the session.
    Creating,
    /// The caller is joining the room of the new session.
    JoiningRoom { session_id: SessionId },
    /// The caller has its answer.
    Finished,
}

/// What the runtime reports to the start of a session.
#[derive(Debug)]
pub enum StartSessionEvent {
    /// The caller asks for a session; `stored_value` is the session id that
    /// its connection holds, if it holds one.
    Requested { stored_value: Option<SessionId> },
    /// The store has answered `CreateSession`.
    Created(Result<SessionId, CreateSessionError>),
    /// The socket has answered `Join`.
    Joined(Result<(), ()>),
}

/// What the start of a session asks the runtime to do.
#[derive(Debug)]
pub enum StartSessionAction {
    /// Ask the store for a new session.
    CreateSession,
    /// Let the caller join the room.
    Join { room: SessionId },
    /// Store `store_value`, if there is one, on the caller's connection, and
    /// answer the caller. Nothing follows.
    Respond { store_value: Option<SessionId>, response: StartSessionResponse },
}

/// The answer that ends the start of a session without one.
pub open spec fn refuse(kind: StartSessionError) -> (StartSession, StartSessionAction) {
    (
        StartSession::Finished,
        StartSessionAction::Respond {
            store_value: None,
            response: StartSessionResponse::Error { kind },
        },
    )
}

/// The start of a session as a transition: where it stands after `event`,
/// and what it asks for.
///
/// A caller that holds a session id is refused before anything is created.
/// Otherwise the store creates the session, the caller joins its room, and
/// the id is stored on the caller's connection and sent back. A failure of
/// the store or of the join ends the start with `ServerError`; a session
/// that was created by then is left as it is. An event that does not answer
/// what was asked last ends the start with `ServerError` too.
pub open spec fn start_session_step(state: StartSession, event: StartSessionEvent) -> (
    StartSession,
    StartSessionAction,
) {
    match (state, event) {
        (StartSession::Idle, StartSessionEvent::Requested { stored_value }) => {
            if stored_value is Some {
                refuse(StartSessionError::AlreadyInASession)
            } else {
                (StartSession::Creating, StartSessionAction::CreateSession)
            }
        },
        (StartSession::Creating, StartSessionEvent::Created(Ok(session_id))) => (
            StartSession::JoiningRoom { session_id },
            StartSessionAction::Join { room: session_id },
        ),
        (StartSession::JoiningRoom { session_id }, StartSessionEvent::Joined(Ok(_))) => (
            StartSession::Finished,
            StartSessionAction::Respond {
                store_value: Some(session_id),
                response: StartSessionResponse::Success { session_id },
            },
        ),
        _ => refuse(StartSessionError::ServerError),
    }
}

/// How far along its fixed order the start of a session stands.
pub open spec fn stage(state: StartSession) -> nat {
    match state {
        StartSession::Idle => 0,
        StartSession::Creating => 1,
        StartSession::JoiningRoom { .. } => 2,
        StartSession::Finished => 3,
    }
}

/// The place of an action in the fixed order of the start of a session.
pub open spec fn stage_of(action: StartSessionAction) -> nat {
    match action {
        StartSessionAction::CreateSession => 1,
        StartSessionAction::Join { .. } => 2,
        StartSessionAction::Respond { .. } => 3,
    }
}

/// Ends the start of a session with a refusal of the given kind.
fn refuse_with(kind: StartSessionError) -> (step: (StartSession, StartSessionAction))
    ensures
        step == refuse(kind),
{
    (
        StartSession::Finished,
        StartSessionAction::Respond {
            store_value: None,
            response: StartSessionResponse::error(kind),
        },
    )
}

/// One step of the start of a session: takes where the start stands and
/// what happened, and returns where it stands now and what to do next.
pub fn on_start_session(state: StartSession, event: StartSessionEvent) -> (step: (
    StartSession,
    StartSessionAction,
))
    ensures
        step == start_session_step(state, event),
{
    match (state, event) {
        (StartSession::Idle, StartSessionEvent::Requested { stored_value }) => {
            if stored_value.is_some() {
                return refuse_with(StartSessionError::AlreadyInASession);
            }
            (StartSession::Creating, StartSessionAction::CreateSession)
        },
        (StartSession::Creating, StartSessionEvent::Created(created)) => {
            let session_id = match created {
                Ok(session_id) => session_id,
                Err(_) => {
                    return refuse_with(StartSessionError::ServerError);
                },
            };
            (
                StartSession::JoiningRoom { session_id },
                StartSessionAction::Join { room: session_id },
            )
        },
        (StartSession::JoiningRoom { session_id }, StartSessionEvent::Joined(joined)) => {
            if joined.is_err() {
                return refuse_with(StartSessionError::ServerError);
            }
            (
                StartSession::Finished,
                StartSessionAction::Respond {
                    store_value: Some(session_id),
                    response: StartSessionResponse::Success { session_id },
                },
            )
        },
        _ => refuse_with(StartSessionError::ServerError),
    }
}

/// What the disconnect of an owner asks the runtime to do. A failure of one
/// is no reason to leave out the next.
#[derive(Debug)]
pub enum DisconnectAction {
    /// Broadcast `event`, without a payload, to the room.
    EmitToRoom { room: SessionId, event: RoomEvent },
    /// Clear the session id that the caller's connection holds.
    RemoveValue,
    /// Ask the store to delete the session.
    DeleteSession { id: SessionId },
}

/// What has to be done when an owner disconnects: nothing if its connection
/// holds no session id; else the room is told that the session is finished,
/// the connection forgets the id, and the session is deleted.
pub open spec fn disconnect_actions(stored_value: Option<SessionId>) -> Seq<DisconnectAction> {
    match stored_value {
        None => seq![],
        Some(session_id) => seq![
            DisconnectAction::EmitToRoom { room: session_id, event: RoomEvent::SessionFinished },
            DisconnectAction::RemoveValue,
            DisconnectAction::DeleteSession { id: session_id },
        ],
    }
}

/// The disconnect of an owner whose connection holds `stored_value`: what
/// the runtime has to do, in this order.
pub fn on_disconnect(stored_value: Option<SessionId>) -> (actions: Vec<DisconnectAction>)
    ensures
        actions@ == disconnect_actions(stored_value),
{
    let mut actions = Vec::new();
    if let Some(session_id) = stored_value {
        actions.push(
            DisconnectAction::EmitToRoom { room: session_id, event: RoomEvent::SessionFinished },
        );
        actions.push(DisconnectAction::RemoveValue);
        actions.push(DisconnectAction::DeleteSession { id: session_id });
    }
    actions
}

} // verus!
