//! The decisions of the controller side.
//!
//! A handler never touches the store or the socket. It is told what
//! happened, and answers with what has to be done next; the runtime does it
//! and comes back with the outcome.

use vstd::prelude::*;
use crate::actors::controller::messages::{
    ControllerErrorKind, ControllerErrorMsg, ControllerErrorMsgView, JoinSessionErrorKind,
    JoinSessionPermissionRequest, JoinSessionPermissionResponse, JoinSessionRequest,
    JoinSessionResponse,
};
use crate::configuration::Config;
use crate::sessions::port::{GetSessionStateError, SessionId, SessionState, UpdateSessionStateError};
use crate::socket::port::{Acknowledgment, CallerEvent, RoomEvent};

verus! {

/// How far a join has come.
#[derive(Debug)]
pub enum JoinSession {
    /// No request has been received.
    Idle,
    /// The store is being asked for the state of the session.
    CheckingSession { session_id: SessionId, message: String },
    /// The owner is being asked for permission.
    AwaitingPermission { session_id: SessionId },
    /// The store is being told that the session is in progress.
    MarkingInProgress { session_id: SessionId },
    /// The caller is joining the room of the session.
    JoiningRoom { session_id: SessionId },
    /// The room is being told that the controller has joined.
    Announcing { session_id: SessionId },
    /// The caller has its answer.
    Finished,
}

/// What the runtime reports to a join.
#[derive(Debug)]
pub enum JoinSessionEvent {
    /// The caller asks to join; `stored_value` is the session id that its
    /// connection holds, if it holds one.
    Requested { stored_value: Option<SessionId>, request: JoinSessionRequest },
    /// The store has answered `SessionState`.
    SessionStateRead(Result<Option<SessionState>, GetSessionStateError>),
    /// The wait for the owner's acknowledgment is over.
    Acknowledged(Acknowledgment<JoinSessionPermissionResponse>),
    /// The store has answered `UpdateSessionState`.
    SessionStateUpdated(Result<(), UpdateSessionStateError>),
    /// The socket has answered `Join`.
    Joined(Result<(), ()>),
    /// The socket has answered `EmitToRoom`.
    Emitted(Result<(), ()>),
}

/// What a join asks the runtime to do.
#[derive(Debug)]
pub enum JoinSessionAction {
    /// Ask the store for the state of the session.
    SessionState { id: SessionId },
    /// Broadcast `event` with `value` to the room and wait for one
    /// acknowledgment, for `timeout` seconds at most.
    EmitToRoomWithAck {
        room: SessionId,
        event: RoomEvent,
        value: JoinSessionPermissionRequest,
        timeout: u64,
    },
    /// Tell the store that the session is in the given state.
    UpdateSessionState { id: SessionId, state: SessionState },
    /// Let the caller join the room.
    Join { room: SessionId },
    /// Broadcast `event`, without a payload, to the room.
    EmitToRoom { room: SessionId, event: RoomEvent },
    /// Store `store_value`, if there is one, on the caller's connection, and
    /// answer the caller. Nothing follows.
    Respond { store_value: Option<SessionId>, response: JoinSessionResponse },
}

/// The answer that ends a join without admitting the caller.
pub open spec fn refuse(kind: JoinSessionErrorKind) -> (JoinSession, JoinSessionAction) {
    (
        JoinSession::Finished,
        JoinSessionAction::Respond {
            store_value: None,
            response: JoinSessionResponse::Error { kind },
        },
    )
}

/// The join handshake as a transition: where the join stands after `event`,
/// and what it asks for.
///
/// The order is fixed: the caller must hold no session; the session must
/// exist and wait for a controller; the owner must accept; only then is the
/// session marked as in progress, the room joined, the room told, and the
/// session id stored on the caller's connection. Every failure ends the join
/// at once. An event that does not answer what was asked last ends it with
/// `ServerError`.
pub open spec fn join_session_step(state: JoinSession, event: JoinSessionEvent, config: Config) -> (
    JoinSession,
    JoinSessionAction,
) {
    match (state, event) {
        (JoinSession::Idle, JoinSessionEvent::Requested { stored_value, request }) => {
            if stored_value is Some {
                refuse(JoinSessionErrorKind::AlreadyInASession)
            } else {
                (
                    JoinSession::CheckingSession {
                        session_id: request.session_id,
                        message: request.message,
                    },
                    JoinSessionAction::SessionState { id: request.session_id },
                )
            }
        },
        (
            JoinSession::CheckingSession { session_id, message },
            JoinSessionEvent::SessionStateRead(read),
        ) => {
            match read {
                Ok(Some(SessionState::WaitingForController)) => (
                    JoinSession::AwaitingPermission { session_id },
                    JoinSessionAction::EmitToRoomWithAck {
                        room: session_id,
                        event: RoomEvent::JoinRequest,
                        value: JoinSessionPermissionRequest { message },
                        timeout: config.controller.session_join_request_timeout,
                    },
                ),
                Ok(Some(SessionState::InProgress)) => refuse(JoinSessionErrorKind::SessionFull),
                Ok(None) => refuse(JoinSessionErrorKind::SessionNotFound),
                Err(_) => refuse(JoinSessionErrorKind::ServerError),
            }
        },
        (JoinSession::AwaitingPermission { session_id }, JoinSessionEvent::Acknowledged(ack)) => {
            match ack {
                Acknowledgment::Received(JoinSessionPermissionResponse::Accept) => (
                    JoinSession::MarkingInProgress { session_id },
                    JoinSessionAction::UpdateSessionState {
                        id: session_id,
                        state: SessionState::InProgress,
                    },
                ),
                Acknowledgment::Received(JoinSessionPermissionResponse::Reject) => refuse(
                    JoinSessionErrorKind::Rejected,
                ),
                Acknowledgment::TimedOut => refuse(JoinSessionErrorKind::HubResponseTimeout),
            }
        },
        (
            JoinSession::MarkingInProgress { session_id },
            JoinSessionEvent::SessionStateUpdated(updated),
        ) => {
            if updated is Ok {
                (
                    JoinSession::JoiningRoom { session_id },
                    JoinSessionAction::Join { room: session_id },
                )
            } else {
                refuse(JoinSessionErrorKind::ServerError)
            }
        },
        (JoinSession::JoiningRoom { session_id }, JoinSessionEvent::Joined(joined)) => {
            if joined is Ok {
                (
                    JoinSession::Announcing { session_id },
                    JoinSessionAction::EmitToRoom {
                        room: session_id,
                        event: RoomEvent::ControllerJoined,
                    },
                )
            } else {
                refuse(JoinSessionErrorKind::ServerError)
            }
        },
        (JoinSession::Announcing { session_id }, JoinSessionEvent::Emitted(emitted)) => {
            if emitted is Ok {
                (
                    JoinSession::Finished,
                    JoinSessionAction::Respond {
                        store_value: Some(session_id),
                        response: JoinSessionResponse::Success {  },
                    },
                )
            } else {
                refuse(JoinSessionErrorKind::ServerError)
            }
        },
        _ => refuse(JoinSessionErrorKind::ServerError),
    }
}

/// Ends a join with a refusal of the given kind.
fn refuse_with(kind: JoinSessionErrorKind) -> (step: (JoinSession, JoinSessionAction))
    ensures
        step == refuse(kind),
{
    (
        JoinSession::Finished,
        JoinSessionAction::Respond {
            store_value: None,
            response: JoinSessionResponse::with_err(kind),
        },
    )
}

/// One step of the join handshake: takes where the join stands and what
/// happened, and returns where it stands now and what to do next.
pub fn on_join_session(state: JoinSession, event: JoinSessionEvent, config: &Config) -> (step: (
    JoinSession,
    JoinSessionAction,
))
    ensures
        step == join_session_step(state, event, *config),
{
    match (state, event) {
        (JoinSession::Idle, JoinSessionEvent::Requested { stored_value, request }) => {
            if stored_value.is_some() {
                return refuse_with(JoinSessionErrorKind::AlreadyInASession);
            }
            let session_id = request.session_id;
            (
                JoinSession::CheckingSession { session_id, message: request.message },
                JoinSessionAction::SessionState { id: session_id },
            )
        },
        (
            JoinSession::CheckingSession { session_id, message },
            JoinSessionEvent::SessionStateRead(read),
        ) => {
            match read {
                Ok(Some(SessionState::InProgress)) => refuse_with(
                    JoinSessionErrorKind::SessionFull,
                ),
                Ok(Some(SessionState::WaitingForController)) => (
                    JoinSession::AwaitingPermission { session_id },
                    JoinSessionAction::EmitToRoomWithAck {
                        room: session_id,
                        event: RoomEvent::JoinRequest,
                        value: JoinSessionPermissionRequest { message },
                        timeout: config.controller.session_join_request_timeout,
                    },
                ),
                Ok(None) => refuse_with(JoinSessionErrorKind::SessionNotFound),
                Err(_) => refuse_with(JoinSessionErrorKind::ServerError),
            }
        },
        (JoinSession::AwaitingPermission { session_id }, JoinSessionEvent::Acknowledged(ack)) => {
            match ack {
                Acknowledgment::Received(JoinSessionPermissionResponse::Accept) => (
                    JoinSession::MarkingInProgress { session_id },
                    JoinSessionAction::UpdateSessionState {
                        id: session_id,
                        state: SessionState::InProgress,
                    },
                ),
                Acknowledgment::Received(JoinSessionPermissionResponse::Reject) => refuse_with(
                    JoinSessionErrorKind::Rejected,
                ),
                Acknowledgment::TimedOut => refuse_with(JoinSessionErrorKind::HubResponseTimeout),
            }
        },
        (
            JoinSession::MarkingInProgress { session_id },
            JoinSessionEvent::SessionStateUpdated(updated),
        ) => {
            if updated.is_err() {
                return refuse_with(JoinSessionErrorKind::ServerError);
            }
            (JoinSession::JoiningRoom { session_id }, JoinSessionAction::Join { room: session_id })
        },
        (JoinSession::JoiningRoom { session_id }, JoinSessionEvent::Joined(joined)) => {
            if joined.is_err() {
                return refuse_with(JoinSessionErrorKind::ServerError);
            }
            (
                JoinSession::Announcing { session_id },
                JoinSessionAction::EmitToRoom {
                    room: session_id,
                    event: RoomEvent::ControllerJoined,
                },
            )
        },
        (JoinSession::Announcing { session_id }, JoinSessionEvent::Emitted(emitted)) => {
            if emitted.is_err() {
                return refuse_with(JoinSessionErrorKind::ServerError);
            }
            (
                JoinSession::Finished,
                JoinSessionAction::Respond {
                    store_value: Some(session_id),
                    response: JoinSessionResponse::Success {  },
                },
            )
        },
        _ => refuse_with(JoinSessionErrorKind::ServerError),
    }
}

/// How far along its fixed order a join stands.
pub open spec fn stage(state: JoinSession) -> nat {
    match state {
        JoinSession::Idle => 0,
        JoinSession::CheckingSession { .. } => 1,
        JoinSession::AwaitingPermission { .. } => 2,
        JoinSession::MarkingInProgress { .. } => 3,
        JoinSession::JoiningRoom { .. } => 4,
        JoinSession::Announcing { .. } => 5,
        JoinSession::Finished => 6,
    }
}

/// The place of an action in the fixed order of a join.
pub open spec fn stage_of(action: JoinSessionAction) -> nat {
    match action {
        JoinSessionAction::SessionState { .. } => 1,
        JoinSessionAction::EmitToRoomWithAck { .. } => 2,
        JoinSessionAction::UpdateSessionState { .. } => 3,
        JoinSessionAction::Join { .. } => 4,
        JoinSessionAction::EmitToRoom { .. } => 5,
        JoinSessionAction::Respond { .. } => 6,
    }
}

/// The session that a join is about, once it is known.
pub open spec fn session_of(state: JoinSession) -> Option<SessionId> {
    match state {
        JoinSession::Idle => None,
        JoinSession::CheckingSession { session_id, .. } => Some(session_id),
        JoinSession::AwaitingPermission { session_id } => Some(session_id),
        JoinSession::MarkingInProgress { session_id } => Some(session_id),
        JoinSession::JoiningRoom { session_id } => Some(session_id),
        JoinSession::Announcing { session_id } => Some(session_id),
        JoinSession::Finished => None,
    }
}

/// How far the relay of one vibration command has come.
#[derive(Debug)]
pub enum VibrateRelay {
    /// No command has been received.
    Idle,
    /// The command is on its way to the room.
    Relaying,
    /// Nothing is left to do.
    Finished,
}

/// What the runtime reports to the relay of a command. `P` is the payload
/// of the command, which the relay hands on as it is.
#[derive(Debug)]
pub enum VibrateEvent<P> {
    /// The caller sends the command `cmd`; `stored_value` is the session id
    /// that its connection holds, if it holds one.
    Received { stored_value: Option<SessionId>, cmd: P },
    /// The socket has answered `EmitToRoom`.
    Relayed(Result<(), ()>),
}

/// What the relay of a command asks the runtime to do.
#[derive(Debug)]
pub enum VibrateAction<P> {
    /// Broadcast `event` with `value` to the room.
    EmitToRoom { room: SessionId, event: RoomEvent, value: P },
    /// Send `error` under the name `name` to the caller alone, whether or
    /// not that succeeds; then, if `disconnect` is set, close the caller's
    /// connection. Nothing follows.
    Emit { name: CallerEvent, error: ControllerErrorMsg, disconnect: bool },
    /// Nothing is left to do.
    Done,
}

/// What a `VibrateAction` says.
pub enum VibrateActionView<P> {
    EmitToRoom { room: SessionId, event: RoomEvent, value: P },
    Emit { name: CallerEvent, error: ControllerErrorMsgView, disconnect: bool },
    Done,
}

impl<P> View for VibrateAction<P> {
    type V = VibrateActionView<P>;

    open spec fn view(&self) -> VibrateActionView<P> {
        match *self {
            VibrateAction::EmitToRoom { room, event, value } => VibrateActionView::EmitToRoom {
                room,
                event,
                value,
            },
            VibrateAction::Emit { name, error, disconnect } => VibrateActionView::Emit {
                name,
                error: error@,
                disconnect,
            },
            VibrateAction::Done => VibrateActionView::Done,
        }
    }
}

/// What a controller is told that sends a command while in no session.
pub open spec fn not_in_a_session() -> ControllerErrorMsgView {
    ControllerErrorMsgView {
        kind: ControllerErrorKind::Permissions,
        message: "Can't send a vibrate command if not in a session"@,
    }
}

/// What a controller is told whose command could not be relayed.
pub open spec fn relay_failed() -> ControllerErrorMsgView {
    ControllerErrorMsgView {
        kind: ControllerErrorKind::VibrateCmdSendError,
        message: "Failed to send vibration command"@,
    }
}

/// The relay of a command as a transition: where the relay stands after
/// `event`, and what it asks for.
///
/// A caller in no session is told so and disconnected; the room hears
/// nothing. A caller in a session has its command broadcast to the room of
/// that session, unchanged. If the broadcast fails the caller is told so and
/// stays connected. An event that does not answer what was asked last ends
/// the relay.
pub open spec fn vibrate_step<P>(state: VibrateRelay, event: VibrateEvent<P>) -> (
    VibrateRelay,
    VibrateActionView<P>,
) {
    match (state, event) {
        (VibrateRelay::Idle, VibrateEvent::Received { stored_value: None, cmd }) => (
            VibrateRelay::Finished,
            VibrateActionView::Emit {
                name: CallerEvent::Error,
                error: not_in_a_session(),
                disconnect: true,
            },
        ),
        (VibrateRelay::Idle, VibrateEvent::Received { stored_value: Some(session_id), cmd }) => (
            VibrateRelay::Relaying,
            VibrateActionView::EmitToRoom {
                room: session_id,
                event: RoomEvent::Vibrate,
                value: cmd,
            },
        ),
        (VibrateRelay::Relaying, VibrateEvent::Relayed(Err(_))) => (
            VibrateRelay::Finished,
            VibrateActionView::Emit {
                name: CallerEvent::Error,
                error: relay_failed(),
                disconnect: false,
            },
        ),
        _ => (VibrateRelay::Finished, VibrateActionView::Done),
    }
}

/// One step of the relay of a vibration command: takes where the relay
/// stands and what happened, and returns where it stands now and what to do
/// next.
pub fn on_vibrate_command<P>(state: VibrateRelay, event: VibrateEvent<P>) -> (step: (
    VibrateRelay,
    VibrateAction<P>,
))
    ensures
        step.0 == vibrate_step(state, event).0,
        step.1@ == vibrate_step(state, event).1,
{
    match (state, event) {
        (VibrateRelay::Idle, VibrateEvent::Received { stored_value, cmd }) => {
            let Some(session_id) = stored_value else {
                return (
                    VibrateRelay::Finished,
                    VibrateAction::Emit {
                        name: CallerEvent::Error,
                        error: ControllerErrorMsg::new(
                            ControllerErrorKind::Permissions,
                            "Can't send a vibrate command if not in a session",
                        ),
                        disconnect: true,
                    },
                );
            };
            (
                VibrateRelay::Relaying,
                VibrateAction::EmitToRoom {
                    room: session_id,
                    event: RoomEvent::Vibrate,
                    value: cmd,
                },
            )
        },
        (VibrateRelay::Relaying, VibrateEvent::Relayed(relayed)) => {
            if relayed.is_err() {
                (
                    VibrateRelay::Finished,
                    VibrateAction::Emit {
                        name: CallerEvent::Error,
                        error: ControllerErrorMsg::new(
                            ControllerErrorKind::VibrateCmdSendError,
                            "Failed to send vibration command",
                        ),
                        disconnect: false,
                    },
                )
            } else {
                (VibrateRelay::Finished, VibrateAction::Done)
            }
        },
        _ => (VibrateRelay::Finished, VibrateAction::Done),
    }
}

/// What the disconnect of a controller asks the runtime to do. A failure of
/// one is no reason to leave out the next.
#[derive(Debug)]
pub enum DisconnectAction {
    /// Broadcast `event`, without a payload, to the room.
    EmitToRoom { room: SessionId, event: RoomEvent },
    /// Tell the store that the session is in the given state.
    UpdateSessionState { id: SessionId, state: SessionState },
}

/// What has to be done when a controller disconnects: nothing if its
/// connection holds no session id; else the room is told, and the session
/// goes back to waiting for a controller.
pub open spec fn disconnect_actions(stored_value: Option<SessionId>) -> Seq<DisconnectAction> {
    match stored_value {
        None => seq![],
        Some(session_id) => seq![
            DisconnectAction::EmitToRoom {
                room: session_id,
                event: RoomEvent::ControllerDisconnected,
            },
            DisconnectAction::UpdateSessionState {
                id: session_id,
                state: SessionState::WaitingForController,
            },
        ],
    }
}

/// The disconnect of a controller whose connection holds `stored_value`:
/// what the runtime has to do, in this order.
pub fn on_disconnect(stored_value: Option<SessionId>) -> (actions: Vec<DisconnectAction>)
    ensures
        actions@ == disconnect_actions(stored_value),
{
    let mut actions = Vec::new();
    if let Some(session_id) = stored_value {
        actions.push(
            DisconnectAction::EmitToRoom {
                room: session_id,
                event: RoomEvent::ControllerDisconnected,
            },
        );
        actions.push(
            DisconnectAction::UpdateSessionState {
                id: session_id,
                state: SessionState::WaitingForController,
            },
        );
    }
    actions
}

} // verus!
