use session_relay::actors::controller::handlers::{
    on_disconnect, on_join_session, on_vibrate_command, DisconnectAction, JoinSession,
    JoinSessionAction, JoinSessionEvent, VibrateAction, VibrateEvent, VibrateRelay,
};
use session_relay::actors::controller::messages::{
    ControllerErrorKind, JoinSessionErrorKind, JoinSessionPermissionRequest,
    JoinSessionPermissionResponse, JoinSessionRequest, JoinSessionResponse,
};
use session_relay::configuration::{Config, ControllerConfig};
use session_relay::sessions::port::{
    GetSessionStateError, IoFailure, SessionId, SessionState, UpdateSessionStateError,
};
use session_relay::socket::port::{Acknowledgment, CallerEvent, RoomEvent};
use uuid::Uuid;

/// What the collaborators of a join answer when they are asked. A call for
/// which nothing is scripted must never be made.
#[derive(Default)]
struct Script {
    stored_value: Option<SessionId>,
    session_state: Option<Result<Option<SessionState>, GetSessionStateError>>,
    acknowledgment: Option<Acknowledgment<JoinSessionPermissionResponse>>,
    update_session_state: Option<Result<(), UpdateSessionStateError>>,
    join: Option<Result<(), ()>>,
    emit_to_room: Option<Result<(), ()>>,
}

/// The calls that a join made, in the form in which the socket and the
/// store see them.
#[derive(Debug, Default, PartialEq)]
struct Calls {
    session_state: Vec<SessionId>,
    emit_to_room_with_ack: Vec<(String, String, JoinSessionPermissionRequest, u64)>,
    update_session_state: Vec<(SessionId, SessionState)>,
    join: Vec<String>,
    emit_to_room: Vec<(String, String)>,
    store_value: Vec<SessionId>,
}

fn config() -> Config {
    Config {
        controller: ControllerConfig { session_join_request_timeout: 30 },
        session_ttl: Some(3600),
    }
}

fn nil() -> SessionId {
    SessionId(Uuid::nil().as_u128())
}

fn join_request() -> JoinSessionRequest {
    JoinSessionRequest { session_id: nil(), message: "hello world".into() }
}

fn error(kind: JoinSessionErrorKind) -> JoinSessionResponse {
    JoinSessionResponse::Error { kind }
}

fn run_join(mut script: Script, request: JoinSessionRequest, config: &Config) -> (JoinSessionResponse, Calls) {
    let mut calls = Calls::default();
    let mut state = JoinSession::Idle;
    let mut event = JoinSessionEvent::Requested { stored_value: script.stored_value, request };
    for _ in 0..16 {
        let (next, action) = on_join_session(state, event, config);
        state = next;
        event = match action {
            JoinSessionAction::SessionState { id } => {
                calls.session_state.push(id);
                JoinSessionEvent::SessionStateRead(script.session_state.take().expect("session_state"))
            }
            JoinSessionAction::EmitToRoomWithAck { room, event, value, timeout } => {
                calls.emit_to_room_with_ack.push((room.to_string(), event.as_str().to_string(), value, timeout));
                JoinSessionEvent::Acknowledged(script.acknowledgment.take().expect("emit_to_room_with_ack"))
            }
            JoinSessionAction::UpdateSessionState { id, state } => {
                calls.update_session_state.push((id, state));
                JoinSessionEvent::SessionStateUpdated(
                    script.update_session_state.take().expect("update_session_state"),
                )
            }
            JoinSessionAction::Join { room } => {
                calls.join.push(room.to_string());
                JoinSessionEvent::Joined(script.join.take().expect("join"))
            }
            JoinSessionAction::EmitToRoom { room, event } => {
                calls.emit_to_room.push((room.to_string(), event.as_str().to_string()));
                JoinSessionEvent::Emitted(script.emit_to_room.take().expect("emit_to_room"))
            }
            JoinSessionAction::Respond { store_value, response } => {
                assert!(matches!(state, JoinSession::Finished));
                calls.store_value.extend(store_value);
                return (response, calls);
            }
        };
    }
    panic!("the join does not end");
}

fn waiting_session(acknowledgment: Acknowledgment<JoinSessionPermissionResponse>) -> Script {
    Script {
        session_state: Some(Ok(Some(SessionState::WaitingForController))),
        acknowledgment: Some(acknowledgment),
        ..Script::default()
    }
}

fn permission_asked() -> Vec<(String, String, JoinSessionPermissionRequest, u64)> {
    vec![(
        Uuid::nil().to_string(),
        "join_request".to_string(),
        JoinSessionPermissionRequest { message: "hello world".into() },
        config().controller.session_join_request_timeout,
    )]
}

#[test]
fn can_not_join_a_session_if_already_in_a_session() {
    let script = Script { stored_value: Some(nil()), ..Script::default() };

    let (result, calls) = run_join(script, join_request(), &config());

    assert_eq!(result, JoinSessionResponse::with_err(JoinSessionErrorKind::AlreadyInASession));
    assert_eq!(calls, Calls::default());
}

#[test]
fn can_not_join_non_existent_session() {
    let script = Script { session_state: Some(Ok(None)), ..Script::default() };

    let (result, calls) = run_join(script, join_request(), &config());

    assert_eq!(result, JoinSessionResponse::with_err(JoinSessionErrorKind::SessionNotFound));
    assert_eq!(calls, Calls { session_state: vec![nil()], ..Calls::default() });
}

#[test]
fn can_not_join_a_full_session() {
    let script = Script { session_state: Some(Ok(Some(SessionState::InProgress))), ..Script::default() };

    let (result, calls) = run_join(script, join_request(), &config());

    assert_eq!(result, JoinSessionResponse::with_err(JoinSessionErrorKind::SessionFull));
    assert_eq!(calls, Calls { session_state: vec![nil()], ..Calls::default() });
}

#[test]
fn can_join_a_session_if_hub_accepts() {
    let script = Script {
        update_session_state: Some(Ok(())),
        join: Some(Ok(())),
        emit_to_room: Some(Ok(())),
        ..waiting_session(Acknowledgment::Received(JoinSessionPermissionResponse::Accept))
    };

    let (result, calls) = run_join(script, join_request(), &config());

    assert_eq!(result, JoinSessionResponse::Success {});
    assert_eq!(
        calls,
        Calls {
            session_state: vec![nil()],
            emit_to_room_with_ack: permission_asked(),
            update_session_state: vec![(nil(), SessionState::InProgress)],
            join: vec![Uuid::nil().to_string()],
            emit_to_room: vec![(Uuid::nil().to_string(), "controller_joined".to_string())],
            store_value: vec![nil()],
        }
    );
}

#[test]
fn do_not_join_a_session_if_hub_rejects() {
    let script = waiting_session(Acknowledgment::Received(JoinSessionPermissionResponse::Reject));

    let (result, calls) = run_join(script, join_request(), &config());

    assert_eq!(result, JoinSessionResponse::Error { kind: JoinSessionErrorKind::Rejected });
    assert_eq!(
        calls,
        Calls { session_state: vec![nil()], emit_to_room_with_ack: permission_asked(), ..Calls::default() }
    );
}

#[test]
fn return_hub_timeout_error_if_hub_returns_an_error() {
    let script = waiting_session(Acknowledgment::TimedOut);

    let (result, calls) = run_join(script, join_request(), &config());

    assert_eq!(result, JoinSessionResponse::Error { kind: JoinSessionErrorKind::HubResponseTimeout });
    assert_eq!(
        calls,
        Calls { session_state: vec![nil()], emit_to_room_with_ack: permission_asked(), ..Calls::default() }
    );
}

#[test]
fn join_fails_with_server_error_if_the_state_cannot_be_read() {
    let script = Script {
        session_state: Some(Err(GetSessionStateError::IoError(IoFailure::Backend("down".into())))),
        ..Script::default()
    };

    let (result, calls) = run_join(script, join_request(), &config());

    assert_eq!(result, error(JoinSessionErrorKind::ServerError));
    assert_eq!(calls, Calls { session_state: vec![nil()], ..Calls::default() });
}

#[test]
fn join_fails_with_server_error_if_the_state_cannot_be_updated() {
    let script = Script {
        update_session_state: Some(Err(UpdateSessionStateError::UnknownSession(nil()))),
        ..waiting_session(Acknowledgment::Received(JoinSessionPermissionResponse::Accept))
    };

    let (result, calls) = run_join(script, join_request(), &config());

    assert_eq!(result, error(JoinSessionErrorKind::ServerError));
    assert!(calls.join.is_empty());
    assert!(calls.emit_to_room.is_empty());
    assert!(calls.store_value.is_empty());
}

#[test]
fn join_fails_with_server_error_if_the_room_cannot_be_joined() {
    let script = Script {
        update_session_state: Some(Ok(())),
        join: Some(Err(())),
        ..waiting_session(Acknowledgment::Received(JoinSessionPermissionResponse::Accept))
    };

    let (result, calls) = run_join(script, join_request(), &config());

    assert_eq!(result, error(JoinSessionErrorKind::ServerError));
    assert_eq!(calls.update_session_state, vec![(nil(), SessionState::InProgress)]);
    assert_eq!(calls.join, vec![Uuid::nil().to_string()]);
    assert!(calls.emit_to_room.is_empty());
    assert!(calls.store_value.is_empty());
}

#[test]
fn join_fails_with_server_error_if_the_room_cannot_be_told() {
    let script = Script {
        update_session_state: Some(Ok(())),
        join: Some(Ok(())),
        emit_to_room: Some(Err(())),
        ..waiting_session(Acknowledgment::Received(JoinSessionPermissionResponse::Accept))
    };

    let (result, calls) = run_join(script, join_request(), &config());

    assert_eq!(result, error(JoinSessionErrorKind::ServerError));
    assert_eq!(calls.emit_to_room, vec![(Uuid::nil().to_string(), "controller_joined".to_string())]);
    assert!(calls.store_value.is_empty());
}

#[test]
fn join_updates_the_state_before_it_joins_the_room() {
    let config = config();
    let id = SessionId(7);
    let request = JoinSessionRequest { session_id: id, message: "knock".into() };
    let (state, action) = on_join_session(
        JoinSession::Idle,
        JoinSessionEvent::Requested { stored_value: None, request },
        &config,
    );
    assert!(matches!(action, JoinSessionAction::SessionState { id: asked } if asked == id));
    let (state, action) = on_join_session(
        state,
        JoinSessionEvent::SessionStateRead(Ok(Some(SessionState::WaitingForController))),
        &config,
    );
    assert!(matches!(
        action,
        JoinSessionAction::EmitToRoomWithAck { room, event: RoomEvent::JoinRequest, ref value, timeout: 30 }
            if room == id && value.message == "knock"
    ));
    let (state, action) = on_join_session(
        state,
        JoinSessionEvent::Acknowledged(Acknowledgment::Received(JoinSessionPermissionResponse::Accept)),
        &config,
    );
    assert!(matches!(
        action,
        JoinSessionAction::UpdateSessionState { id: asked, state: SessionState::InProgress } if asked == id
    ));
    let (state, action) = on_join_session(state, JoinSessionEvent::SessionStateUpdated(Ok(())), &config);
    assert!(matches!(action, JoinSessionAction::Join { room } if room == id));
    let (state, action) = on_join_session(state, JoinSessionEvent::Joined(Ok(())), &config);
    assert!(matches!(
        action,
        JoinSessionAction::EmitToRoom { room, event: RoomEvent::ControllerJoined } if room == id
    ));
    let (state, action) = on_join_session(state, JoinSessionEvent::Emitted(Ok(())), &config);
    assert!(matches!(state, JoinSession::Finished));
    assert!(matches!(
        action,
        JoinSessionAction::Respond { store_value: Some(stored), response: JoinSessionResponse::Success {} }
            if stored == id
    ));
}

#[test]
fn join_ends_with_server_error_on_an_event_that_answers_nothing() {
    let config = config();
    let (state, _) = on_join_session(
        JoinSession::Idle,
        JoinSessionEvent::Requested { stored_value: None, request: join_request() },
        &config,
    );
    let (state, action) = on_join_session(state, JoinSessionEvent::Joined(Ok(())), &config);
    assert!(matches!(state, JoinSession::Finished));
    assert!(matches!(
        action,
        JoinSessionAction::Respond {
            store_value: None,
            response: JoinSessionResponse::Error { kind: JoinSessionErrorKind::ServerError },
        }
    ));
    let (state, action) = on_join_session(state, JoinSessionEvent::Emitted(Ok(())), &config);
    assert!(matches!(state, JoinSession::Finished));
    assert!(matches!(
        action,
        JoinSessionAction::Respond {
            store_value: None,
            response: JoinSessionResponse::Error { kind: JoinSessionErrorKind::ServerError },
        }
    ));
}

#[test]
fn vibrate_without_a_session_reports_permissions_and_disconnects() {
    let (state, action) = on_vibrate_command(
        VibrateRelay::Idle,
        VibrateEvent::Received { stored_value: None, cmd: 12.0f32 },
    );
    assert!(matches!(state, VibrateRelay::Finished));
    match action {
        VibrateAction::Emit { name, error, disconnect } => {
            assert_eq!(name, CallerEvent::Error);
            assert_eq!(name.as_str(), "error");
            assert_eq!(error.kind(), ControllerErrorKind::Permissions);
            assert_eq!(error.message(), "Can't send a vibrate command if not in a session");
            assert!(disconnect);
        }
        other => panic!("unexpected action {other:?}"),
    }
    let (state, action) = on_vibrate_command::<f32>(state, VibrateEvent::Relayed(Ok(())));
    assert!(matches!(state, VibrateRelay::Finished));
    assert!(matches!(action, VibrateAction::Done));
}

#[test]
fn vibrate_in_a_session_relays_the_command_unchanged() {
    let (state, action) = on_vibrate_command(
        VibrateRelay::Idle,
        VibrateEvent::Received { stored_value: Some(nil()), cmd: 12.5f32 },
    );
    assert!(matches!(state, VibrateRelay::Relaying));
    match action {
        VibrateAction::EmitToRoom { room, event, value } => {
            assert_eq!(room.to_string(), Uuid::nil().to_string());
            assert_eq!(event.as_str(), "vibrate");
            assert_eq!(value, 12.5f32);
        }
        other => panic!("unexpected action {other:?}"),
    }
    let (state, action) = on_vibrate_command::<f32>(state, VibrateEvent::Relayed(Ok(())));
    assert!(matches!(state, VibrateRelay::Finished));
    assert!(matches!(action, VibrateAction::Done));
}

#[test]
fn vibrate_reports_a_failed_relay_and_stays_connected() {
    let (state, _) = on_vibrate_command(
        VibrateRelay::Idle,
        VibrateEvent::Received { stored_value: Some(nil()), cmd: "buzz".to_string() },
    );
    let (state, action) = on_vibrate_command::<String>(state, VibrateEvent::Relayed(Err(())));
    assert!(matches!(state, VibrateRelay::Finished));
    match action {
        VibrateAction::Emit { name, error, disconnect } => {
            assert_eq!(name.as_str(), "error");
            assert_eq!(error.kind(), ControllerErrorKind::VibrateCmdSendError);
            assert_eq!(error.message(), "Failed to send vibration command");
            assert!(!disconnect);
        }
        other => panic!("unexpected action {other:?}"),
    }
}

#[test]
fn controller_disconnect_without_a_session_does_nothing() {
    assert!(on_disconnect(None).is_empty());
}

#[test]
fn controller_disconnect_tells_the_room_and_reverts_the_session() {
    let id = SessionId(0x1234);
    let actions = on_disconnect(Some(id));
    assert_eq!(actions.len(), 2);
    assert!(matches!(
        actions[0],
        DisconnectAction::EmitToRoom { room, event: RoomEvent::ControllerDisconnected } if room == id
    ));
    assert!(matches!(
        actions[1],
        DisconnectAction::UpdateSessionState { id: asked, state: SessionState::WaitingForController }
            if asked == id
    ));
    assert_eq!(RoomEvent::ControllerDisconnected.as_str(), "controller_disconnected");
}
