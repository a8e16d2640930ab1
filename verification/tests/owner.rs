use session_relay::actors::owner::handlers::{
    on_disconnect, on_start_session, DisconnectAction, StartSession, StartSessionAction,
    StartSessionEvent,
};
use session_relay::actors::owner::messages::{StartSessionError, StartSessionResponse};
use session_relay::sessions::port::{CreateSessionError, IoFailure, SessionId};
use session_relay::socket::port::RoomEvent;
use uuid::Uuid;

/// What the collaborators of a start answer when they are asked. A call for
/// which nothing is scripted must never be made.
#[derive(Default)]
struct Script {
    stored_value: Option<SessionId>,
    create_session: Option<Result<SessionId, CreateSessionError>>,
    join: Option<Result<(), ()>>,
}

/// The calls that a start made, in the form in which the socket and the
/// store see them.
#[derive(Debug, Default, PartialEq)]
struct Calls {
    create_session: usize,
    join: Vec<String>,
    store_value: Vec<SessionId>,
}

fn nil() -> SessionId {
    SessionId(Uuid::nil().as_u128())
}

fn run_start(mut script: Script) -> (StartSessionResponse, Calls) {
    let mut calls = Calls::default();
    let mut state = StartSession::Idle;
    let mut event = StartSessionEvent::Requested { stored_value: script.stored_value };
    for _ in 0..8 {
        let (next, action) = on_start_session(state, event);
        state = next;
        event = match action {
            StartSessionAction::CreateSession => {
                calls.create_session += 1;
                StartSessionEvent::Created(script.create_session.take().expect("create_session"))
            }
            StartSessionAction::Join { room } => {
                calls.join.push(room.to_string());
                StartSessionEvent::Joined(script.join.take().expect("join"))
            }
            StartSessionAction::Respond { store_value, response } => {
                assert!(matches!(state, StartSession::Finished));
                calls.store_value.extend(store_value);
                return (response, calls);
            }
        };
    }
    panic!("the start does not end");
}

#[test]
fn creates_a_session_on_start_session_command() {
    let script = Script { create_session: Some(Ok(nil())), join: Some(Ok(())), ..Script::default() };

    let (result, calls) = run_start(script);

    assert!(matches!(result, StartSessionResponse::Success { session_id: _ }));
    assert_eq!(result, StartSessionResponse::Success { session_id: nil() });
    assert_eq!(
        calls,
        Calls { create_session: 1, join: vec![Uuid::nil().to_string()], store_value: vec![nil()] }
    );
}

#[test]
fn does_not_create_a_session_if_already_in_a_session() {
    let script = Script { stored_value: Some(nil()), ..Script::default() };

    let (result, calls) = run_start(script);

    assert_eq!(result, StartSessionResponse::error(StartSessionError::AlreadyInASession));
    assert_eq!(calls, Calls::default());
}

#[test]
fn deletes_session_and_sends_message_on_disconnect_if_in_a_session() {
    let actions = on_disconnect(Some(nil()));

    assert_eq!(actions.len(), 3);
    match &actions[0] {
        DisconnectAction::EmitToRoom { room, event } => {
            assert_eq!(room.to_string(), Uuid::nil().to_string());
            assert_eq!(event.as_str(), "session_finished".to_string());
        }
        other => panic!("unexpected action {other:?}"),
    }
    assert!(matches!(actions[1], DisconnectAction::RemoveValue));
    assert!(matches!(actions[2], DisconnectAction::DeleteSession { id } if id == nil()));
}

#[test]
fn doesnt_do_anything_if_not_in_a_session_when_disconnect() {
    let actions = on_disconnect(None);

    assert!(actions.is_empty());
}

#[test]
fn second_start_session_is_refused_and_creates_nothing() {
    let id = SessionId(42);
    let first = Script { create_session: Some(Ok(id)), join: Some(Ok(())), ..Script::default() };
    let (result, calls) = run_start(first);
    assert_eq!(result, StartSessionResponse::Success { session_id: id });
    assert_eq!(calls.store_value, vec![id]);

    let stored_value = calls.store_value.last().copied();
    for _ in 0..3 {
        let (result, calls) = run_start(Script { stored_value, ..Script::default() });
        assert_eq!(result, StartSessionResponse::Error { kind: StartSessionError::AlreadyInASession });
        assert_eq!(calls.create_session, 0);
        assert!(calls.store_value.is_empty());
    }
}

#[test]
fn start_fails_with_server_error_if_the_store_fails() {
    let failures = [
        CreateSessionError::IoError(IoFailure::Backend("connection refused".into())),
        CreateSessionError::IoError(IoFailure::UnexpectedReply),
        CreateSessionError::UnexpectedSessionIdAlreadyInUse(nil()),
    ];
    for failure in failures {
        let script = Script { create_session: Some(Err(failure)), ..Script::default() };
        let (result, calls) = run_start(script);
        assert_eq!(result, StartSessionResponse::Error { kind: StartSessionError::ServerError });
        assert_eq!(calls, Calls { create_session: 1, ..Calls::default() });
    }
}

#[test]
fn start_fails_with_server_error_if_the_room_cannot_be_joined() {
    let id = SessionId(9);
    let script = Script { create_session: Some(Ok(id)), join: Some(Err(())), ..Script::default() };

    let (result, calls) = run_start(script);

    assert_eq!(result, StartSessionResponse::Error { kind: StartSessionError::ServerError });
    assert_eq!(calls, Calls { create_session: 1, join: vec![id.to_string()], store_value: vec![] });
}

#[test]
fn start_ends_with_server_error_on_an_event_that_answers_nothing() {
    let (state, action) = on_start_session(StartSession::Idle, StartSessionEvent::Joined(Ok(())));
    assert!(matches!(state, StartSession::Finished));
    assert!(matches!(
        action,
        StartSessionAction::Respond {
            store_value: None,
            response: StartSessionResponse::Error { kind: StartSessionError::ServerError },
        }
    ));
    let (state, _) = on_start_session(StartSession::Idle, StartSessionEvent::Requested { stored_value: None });
    let (state, action) = on_start_session(state, StartSessionEvent::Requested { stored_value: None });
    assert!(matches!(state, StartSession::Finished));
    assert!(matches!(
        action,
        StartSessionAction::Respond {
            store_value: None,
            response: StartSessionResponse::Error { kind: StartSessionError::ServerError },
        }
    ));
}

#[test]
fn owner_disconnect_names_the_room_after_the_session() {
    let id = SessionId(0xa1a2a3a4b1b2c1c2d1d2d3d4d5d6d7d8);
    let actions = on_disconnect(Some(id));
    assert!(matches!(
        actions[0],
        DisconnectAction::EmitToRoom { room, event: RoomEvent::SessionFinished } if room == id
    ));
    assert_eq!(id.to_string(), "a1a2a3a4-b1b2-c1c2-d1d2-d3d4d5d6d7d8");
}
