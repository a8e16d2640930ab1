//! What the decisions of the controller side guarantee.
//!
//! First what holds of every step, whatever the store and the socket do.
//! Then what a whole command achieves in a world in which nothing fails.

use vstd::prelude::*;
use crate::actors::controller::messages::{
    ControllerErrorKind, JoinSessionErrorKind, JoinSessionPermissionResponse, JoinSessionRequest,
    JoinSessionResponse,
};
use crate::actors::controller::handlers::{
    disconnect_actions, join_session_step, not_in_a_session, refuse, session_of, stage, stage_of,
    vibrate_step, DisconnectAction, JoinSession, JoinSessionAction, JoinSessionEvent,
    VibrateActionView, VibrateEvent, VibrateRelay,
};
use crate::actors::world::World;
use crate::configuration::Config;
use crate::sessions::port::{
    session_state, update_session_state, GetSessionStateError, SessionId, SessionState,
};
use crate::socket::port::{Acknowledgment, CallerEvent, RoomEvent};

verus! {

/// Whatever the store and the socket do, a join keeps its order: each step
/// either takes the join to the next stage and asks for the action of that
/// stage, or ends the join with the answer to the caller. No stage is left
/// out and none comes twice.
pub proof fn lemma_join_keeps_order(state: JoinSession, event: JoinSessionEvent, config: Config)
    ensures
        ({
            let (next, action) = join_session_step(state, event, config);
            &&& stage(next) == stage_of(action)
            &&& stage(next) == stage(state) + 1 || next is Finished
            &&& action is Respond <==> next is Finished
            &&& session_of(state) is Some && next !is Finished ==> session_of(next)
                == session_of(state)
        }),
{
}

/// The actions that a join asks for when it stands at `state` and is told
/// `events` one after the other, in their order.
pub open spec fn join_actions(
    state: JoinSession,
    events: Seq<JoinSessionEvent>,
    config: Config,
) -> Seq<JoinSessionAction>
    decreases events.len(),
{
    if events.len() == 0 {
        Seq::empty()
    } else {
        let (next, action) = join_session_step(state, events.first(), config);
        seq![action] + join_actions(next, events.drop_first(), config)
    }
}

/// Whatever the runtime reports, and however long it goes on reporting, a
/// join asks for its actions in their fixed order: the action that follows
/// the `i`-th event is the one of the `i`-th stage after the stage at which
/// the join stood, unless it is the answer to the caller; and once the
/// caller was answered, nothing is asked for but to answer it.
pub proof fn lemma_join_actions_in_order(
    state: JoinSession,
    events: Seq<JoinSessionEvent>,
    config: Config,
)
    ensures
        join_actions(state, events, config).len() == events.len(),
        forall|i: int|
            0 <= i < events.len() ==> {
                let action = #[trigger] join_actions(state, events, config)[i];
                action is Respond || stage_of(action) == stage(state) + i + 1
            },
        forall|i: int, j: int|
            0 <= i < j < events.len() && (#[trigger] join_actions(state, events, config)[i])
                is Respond ==> (#[trigger] join_actions(state, events, config)[j]) is Respond,
    decreases events.len(),
{
    if events.len() > 0 {
        let (next, action) = join_session_step(state, events.first(), config);
        let rest = events.drop_first();
        let actions = join_actions(state, events, config);
        lemma_join_keeps_order(state, events.first(), config);
        lemma_join_actions_in_order(next, rest, config);
        assert forall|i: int| 0 <= i < events.len() implies {
            let action = #[trigger] actions[i];
            action is Respond || stage_of(action) == stage(state) + i + 1
        } by {
            if i > 0 {
                assert(actions[i] == join_actions(next, rest, config)[i - 1]);
            }
        }
        assert forall|i: int, j: int|
            0 <= i < j < events.len() && (#[trigger] actions[i]) is Respond implies (
        #[trigger] actions[j]) is Respond by {
            assert(actions[j] == join_actions(next, rest, config)[j - 1]);
            if i > 0 {
                assert(actions[i] == join_actions(next, rest, config)[i - 1]);
            }
        }
    }
}

/// Whatever the store and the socket do, a join goes on only where the
/// step before succeeded: the owner is asked only for a session that was
/// read as waiting for a controller; the session is marked as in progress
/// only after the owner has accepted; the room is joined only after the
/// store has taken the new state; the room is told only after the join; and
/// a session id is stored on the caller's connection only with the answer
/// of success, which is given only after the room was told.
pub proof fn lemma_join_goes_on_only_after_success(
    state: JoinSession,
    event: JoinSessionEvent,
    config: Config,
)
    ensures
        ({
            let (next, action) = join_session_step(state, event, config);
            &&& action is EmitToRoomWithAck ==> state is CheckingSession && event
                == JoinSessionEvent::SessionStateRead(Ok(Some(SessionState::WaitingForController)))
            &&& action is UpdateSessionState ==> state is AwaitingPermission && event
                == JoinSessionEvent::Acknowledged(
                Acknowledgment::Received(JoinSessionPermissionResponse::Accept),
            )
            &&& action is Join ==> state is MarkingInProgress && event is SessionStateUpdated
                && event->SessionStateUpdated_0 is Ok
            &&& action is EmitToRoom ==> state is JoiningRoom && event is Joined
                && event->Joined_0 is Ok
            &&& action is Respond ==> (action->store_value is Some <==> action->response
                is Success)
            &&& action is Respond && action->store_value is Some ==> state
                == (JoinSession::Announcing { session_id: action->store_value->0 })
                && event is Emitted && event->Emitted_0 is Ok
        }),
{
}

/// Whatever else the store and the socket do, what the store reports of
/// the session decides the join: a session that does not exist is answered
/// with `SessionNotFound`, one that is in progress with `SessionFull`, a
/// failure of the store with `ServerError`, and in none of these cases is
/// anything else asked for; only for a session that waits for a controller
/// is the owner asked.
pub proof fn lemma_join_decided_by_session_state(
    session_id: SessionId,
    message: String,
    read: Result<Option<SessionState>, GetSessionStateError>,
    config: Config,
)
    ensures
        ({
            let step = join_session_step(
                JoinSession::CheckingSession { session_id, message },
                JoinSessionEvent::SessionStateRead(read),
                config,
            );
            match read {
                Ok(None) => step == refuse(JoinSessionErrorKind::SessionNotFound),
                Ok(Some(SessionState::InProgress)) => step == refuse(
                    JoinSessionErrorKind::SessionFull,
                ),
                Ok(Some(SessionState::WaitingForController)) => step.1 is EmitToRoomWithAck,
                Err(_) => step == refuse(JoinSessionErrorKind::ServerError),
            }
        }),
{
}

/// Whatever else the store and the socket do, what comes of the request for
/// permission decides the join: a rejection is answered with `Rejected`, a
/// missing acknowledgment with `HubResponseTimeout`, and in neither case is
/// anything else asked for: the state of the session is not touched, no
/// room is joined and no session id is stored. Only after an acceptance is
/// the session marked as in progress.
pub proof fn lemma_join_decided_by_acknowledgment(
    session_id: SessionId,
    answer: Acknowledgment<JoinSessionPermissionResponse>,
    config: Config,
)
    ensures
        ({
            let step = join_session_step(
                JoinSession::AwaitingPermission { session_id },
                JoinSessionEvent::Acknowledged(answer),
                config,
            );
            match answer {
                Acknowledgment::Received(JoinSessionPermissionResponse::Accept) => step == (
                    JoinSession::MarkingInProgress { session_id },
                    JoinSessionAction::UpdateSessionState {
                        id: session_id,
                        state: SessionState::InProgress,
                    },
                ),
                Acknowledgment::Received(JoinSessionPermissionResponse::Reject) => step == refuse(
                    JoinSessionErrorKind::Rejected,
                ),
                Acknowledgment::TimedOut => step == refuse(JoinSessionErrorKind::HubResponseTimeout),
            }
        }),
{
}

/// Whatever the store and the socket do, every action of a join names the
/// session of the request, the permission is asked with the message of the
/// request and the configured timeout, and the only state ever written is
/// `InProgress`.
pub proof fn lemma_join_acts_on_requested_session(
    state: JoinSession,
    event: JoinSessionEvent,
    config: Config,
)
    requires
        session_of(state) is Some,
    ensures
        ({
            let id = session_of(state)->0;
            match join_session_step(state, event, config).1 {
                JoinSessionAction::SessionState { id: asked } => asked == id,
                JoinSessionAction::EmitToRoomWithAck { room, event: name, value, timeout } => {
                    &&& room == id
                    &&& name == RoomEvent::JoinRequest
                    &&& state is CheckingSession
                    &&& value.message == state->message
                    &&& timeout == config.controller.session_join_request_timeout
                },
                JoinSessionAction::UpdateSessionState { id: asked, state: written } => asked == id
                    && written == SessionState::InProgress,
                JoinSessionAction::Join { room } => room == id,
                JoinSessionAction::EmitToRoom { room, event: name } => room == id && name
                    == RoomEvent::ControllerJoined,
                JoinSessionAction::Respond { store_value, response } => store_value is Some
                    ==> store_value == Some(id),
            }
        }),
{
}

/// The first step of a relay from a connection that holds no session id
/// ends the relay: whatever the socket answers afterwards, nothing more is
/// asked for, so no broadcast to a room is ever asked for.
pub proof fn lemma_vibrate_refusal_is_final<P>(cmd: P, later: VibrateEvent<P>)
    ensures
        vibrate_step(VibrateRelay::Idle, VibrateEvent::Received { stored_value: None, cmd }) == (
            VibrateRelay::Finished,
            VibrateActionView::<P>::Emit {
                name: CallerEvent::Error,
                error: not_in_a_session(),
                disconnect: true,
            },
        ),
        vibrate_step(VibrateRelay::Finished, later) == (
            VibrateRelay::Finished,
            VibrateActionView::<P>::Done,
        ),
{
}

/// What a world in which nothing fails does with what a join asks for, and
/// what it reports back, if the action is one to report on. `answer` is
/// what comes of the request for permission.
pub open spec fn perform_join_action(
    world: World,
    action: JoinSessionAction,
    answer: Acknowledgment<JoinSessionPermissionResponse>,
) -> (World, Option<JoinSessionEvent>) {
    match action {
        JoinSessionAction::SessionState { id } => (
            world,
            Some(JoinSessionEvent::SessionStateRead(session_state(world.sessions, id))),
        ),
        JoinSessionAction::EmitToRoomWithAck { room, event, value, timeout } => (
            world.emit_to_room(room, event),
            Some(JoinSessionEvent::Acknowledged(answer)),
        ),
        JoinSessionAction::UpdateSessionState { id, state } => (
            world.with_sessions(update_session_state(world.sessions, id, state).0),
            Some(
                JoinSessionEvent::SessionStateUpdated(
                    update_session_state(world.sessions, id, state).1,
                ),
            ),
        ),
        JoinSessionAction::Join { room } => (
            world.join(room),
            Some(JoinSessionEvent::Joined(Ok(()))),
        ),
        JoinSessionAction::EmitToRoom { room, event } => (
            world.emit_to_room(room, event),
            Some(JoinSessionEvent::Emitted(Ok(()))),
        ),
        JoinSessionAction::Respond { store_value, response } => (
            match store_value {
                Some(id) => world.store_value(id),
                None => world,
            },
            None,
        ),
    }
}

/// A join that stands at `state` and is told `event`, carried on in a world
/// in which nothing fails until the caller has its answer, for `steps` steps
/// at most: the world it leaves, and the answer if it got that far.
pub open spec fn run_join_session(
    world: World,
    state: JoinSession,
    event: JoinSessionEvent,
    config: Config,
    answer: Acknowledgment<JoinSessionPermissionResponse>,
    steps: nat,
) -> (World, Option<JoinSessionResponse>)
    decreases steps,
{
    let (next, action) = join_session_step(state, event, config);
    let (after, outcome) = perform_join_action(world, action, answer);
    match (action, outcome) {
        (JoinSessionAction::Respond { store_value, response }, _) => (after, Some(response)),
        (_, Some(outcome)) if steps > 0 => run_join_session(
            after,
            next,
            outcome,
            config,
            answer,
            (steps - 1) as nat,
        ),
        _ => (world, None),
    }
}

/// A whole join in a world in which nothing fails: the caller sends
/// `request`, and the owner, if asked, gives `answer`.
pub open spec fn join_session(
    world: World,
    request: JoinSessionRequest,
    config: Config,
    answer: Acknowledgment<JoinSessionPermissionResponse>,
) -> (World, Option<JoinSessionResponse>) {
    run_join_session(
        world,
        JoinSession::Idle,
        JoinSessionEvent::Requested { stored_value: world.stored_value, request },
        config,
        answer,
        6,
    )
}

/// A caller that already holds a session id is refused with
/// `AlreadyInASession`, and nothing is touched.
pub proof fn lemma_join_refused_when_already_in_a_session(
    world: World,
    request: JoinSessionRequest,
    config: Config,
    answer: Acknowledgment<JoinSessionPermissionResponse>,
)
    requires
        world.stored_value is Some,
    ensures
        join_session(world, request, config, answer) == (
            world,
            Some(JoinSessionResponse::Error { kind: JoinSessionErrorKind::AlreadyInASession }),
        ),
{
    reveal_with_fuel(run_join_session, 2);
}

/// A join of a session that the store does not hold is refused with
/// `SessionNotFound`, and nothing is touched.
pub proof fn lemma_join_refused_when_session_not_found(
    world: World,
    request: JoinSessionRequest,
    config: Config,
    answer: Acknowledgment<JoinSessionPermissionResponse>,
)
    requires
        world.stored_value is None,
        !world.sessions.contains_key(request.session_id),
    ensures
        join_session(world, request, config, answer) == (
            world,
            Some(JoinSessionResponse::Error { kind: JoinSessionErrorKind::SessionNotFound }),
        ),
{
    reveal_with_fuel(run_join_session, 3);
}

/// A join of a session that is in progress is refused with `SessionFull`.
/// Nothing is touched: in particular, nothing is broadcast, so the owner is
/// not asked.
pub proof fn lemma_join_refused_when_session_full(
    world: World,
    request: JoinSessionRequest,
    config: Config,
    answer: Acknowledgment<JoinSessionPermissionResponse>,
)
    requires
        world.stored_value is None,
        world.sessions.contains_key(request.session_id),
        world.sessions[request.session_id] == SessionState::InProgress,
    ensures
        join_session(world, request, config, answer) == (
            world,
            Some(JoinSessionResponse::Error { kind: JoinSessionErrorKind::SessionFull }),
        ),
{
    reveal_with_fuel(run_join_session, 3);
}

/// The owner accepts: the caller is answered with success, the session is in
/// progress, the room has received the request for permission and then
/// `controller_joined`, the caller is in the room, and its connection holds
/// the id of the session.
pub proof fn lemma_join_accepted(world: World, request: JoinSessionRequest, config: Config)
    requires
        world.stored_value is None,
        world.sessions.contains_key(request.session_id),
        world.sessions[request.session_id] == SessionState::WaitingForController,
    ensures
        join_session(
            world,
            request,
            config,
            Acknowledgment::Received(JoinSessionPermissionResponse::Accept),
        ) == (
            World {
                sessions: world.sessions.insert(request.session_id, SessionState::InProgress),
                stored_value: Some(request.session_id),
                rooms: world.rooms.insert(request.session_id),
                broadcasts: world.broadcasts.push(
                    (request.session_id, RoomEvent::JoinRequest),
                ).push((request.session_id, RoomEvent::ControllerJoined)),
                ..world
            },
            Some(JoinSessionResponse::Success {  }),
        ),
{
    reveal_with_fuel(run_join_session, 7);
}

/// The owner rejects: the caller is answered with `Rejected`. The room has
/// received the request for permission and nothing else has changed: the
/// session still waits for a controller, the caller is in no new room, and
/// its connection holds no session id.
pub proof fn lemma_join_rejected(world: World, request: JoinSessionRequest, config: Config)
    requires
        world.stored_value is None,
        world.sessions.contains_key(request.session_id),
        world.sessions[request.session_id] == SessionState::WaitingForController,
    ensures
        join_session(
            world,
            request,
            config,
            Acknowledgment::Received(JoinSessionPermissionResponse::Reject),
        ) == (
            world.emit_to_room(request.session_id, RoomEvent::JoinRequest),
            Some(JoinSessionResponse::Error { kind: JoinSessionErrorKind::Rejected }),
        ),
{
    reveal_with_fuel(run_join_session, 4);
}

/// No acknowledgment arrives in time: the caller is answered with
/// `HubResponseTimeout`. The room has received the request for permission
/// and nothing else has changed.
pub proof fn lemma_join_timed_out(world: World, request: JoinSessionRequest, config: Config)
    requires
        world.stored_value is None,
        world.sessions.contains_key(request.session_id),
        world.sessions[request.session_id] == SessionState::WaitingForController,
    ensures
        join_session(world, request, config, Acknowledgment::TimedOut) == (
            world.emit_to_room(request.session_id, RoomEvent::JoinRequest),
            Some(JoinSessionResponse::Error { kind: JoinSessionErrorKind::HubResponseTimeout }),
        ),
{
    reveal_with_fuel(run_join_session, 4);
}

/// A session admits one controller at a time: once a join was answered
/// with success, a join of the same session from any other connection is
/// refused with `SessionFull`, whatever message it sends, and the owner is
/// not asked again.
pub proof fn lemma_join_admits_one_controller(
    world: World,
    first: JoinSessionRequest,
    config: Config,
    answer: Acknowledgment<JoinSessionPermissionResponse>,
    other: World,
    second: JoinSessionRequest,
    second_answer: Acknowledgment<JoinSessionPermissionResponse>,
)
    requires
        join_session(world, first, config, answer).1 == Some(JoinSessionResponse::Success {  }),
        other.sessions == join_session(world, first, config, answer).0.sessions,
        other.stored_value is None,
        second.session_id == first.session_id,
    ensures
        join_session(other, second, config, second_answer) == (
            other,
            Some(JoinSessionResponse::Error { kind: JoinSessionErrorKind::SessionFull }),
        ),
{
    reveal_with_fuel(run_join_session, 7);
}

/// What a world in which nothing fails does with what the relay of a
/// command asks for, and what it reports back, if the action is one to
/// report on.
pub open spec fn perform_vibrate_action<P>(world: World, action: VibrateActionView<P>) -> (
    World,
    Option<VibrateEvent<P>>,
) {
    match action {
        VibrateActionView::EmitToRoom { room, event, value } => (
            world.emit_to_room(room, event),
            Some(VibrateEvent::Relayed(Ok(()))),
        ),
        VibrateActionView::Emit { name, error, disconnect } => (
            if disconnect {
                world.emit_error(error.kind).disconnect()
            } else {
                world.emit_error(error.kind)
            },
            None,
        ),
        VibrateActionView::Done => (world, None),
    }
}

/// A whole relay of the command `cmd` in a world in which nothing fails:
/// the world it leaves.
pub open spec fn vibrate<P>(world: World, cmd: P) -> World {
    let (state, action) = vibrate_step(
        VibrateRelay::Idle,
        VibrateEvent::Received { stored_value: world.stored_value, cmd },
    );
    match perform_vibrate_action(world, action) {
        (after, Some(outcome)) => perform_vibrate_action(after, vibrate_step(state, outcome).1).0,
        (after, None) => after,
    }
}

/// A command from a connection that holds no session id never reaches a
/// room: the caller is sent a `Permissions` error and is disconnected, and
/// that is all.
pub proof fn lemma_vibrate_refused_when_not_in_a_session<P>(world: World, cmd: P)
    requires
        world.stored_value is None,
    ensures
        vibrate(world, cmd) == world.emit_error(ControllerErrorKind::Permissions).disconnect(),
        vibrate(world, cmd).broadcasts == world.broadcasts,
        !vibrate(world, cmd).connected,
{
}

/// A command from a connection in a session is broadcast to the room of
/// that session; nothing else changes.
pub proof fn lemma_vibrate_relayed<P>(world: World, cmd: P)
    requires
        world.stored_value is Some,
    ensures
        vibrate(world, cmd) == world.emit_to_room(world.stored_value->0, RoomEvent::Vibrate),
{
}

/// What a world in which nothing fails does with one action of a
/// disconnect.
pub open spec fn perform_disconnect_action(world: World, action: DisconnectAction) -> World {
    match action {
        DisconnectAction::EmitToRoom { room, event } => world.emit_to_room(room, event),
        DisconnectAction::UpdateSessionState { id, state } => world.with_sessions(
            update_session_state(world.sessions, id, state).0,
        ),
    }
}

/// The disconnect of the calling controller in a world in which nothing
/// fails: the world it leaves.
pub open spec fn disconnect(world: World) -> World {
    disconnect_actions(world.stored_value).fold_left(
        world,
        |w: World, action: DisconnectAction| perform_disconnect_action(w, action),
    )
}

/// A controller that is in no session disconnects without a trace.
pub proof fn lemma_disconnect_when_not_in_a_session(world: World)
    requires
        world.stored_value is None,
    ensures
        disconnect(world) == world,
{
}

/// A controller that is in a session disconnects: the room receives
/// `controller_disconnected`, and the session, which the store holds, reads
/// back as waiting for a controller.
pub proof fn lemma_disconnect_when_paired(world: World)
    requires
        world.stored_value is Some,
        world.sessions.contains_key(world.stored_value->0),
    ensures
        disconnect(world).broadcasts == world.broadcasts.push(
            (world.stored_value->0, RoomEvent::ControllerDisconnected),
        ),
        session_state(disconnect(world).sessions, world.stored_value->0) == Ok::<
            Option<SessionState>,
            GetSessionStateError,
        >(Some(SessionState::WaitingForController)),
        disconnect(world).sessions == world.sessions.insert(
            world.stored_value->0,
            SessionState::WaitingForController,
        ),
{
    let actions = disconnect_actions(world.stored_value);
    let f = |w: World, action: DisconnectAction| perform_disconnect_action(w, action);
    assert(actions.drop_last() =~= seq![actions[0]]);
    assert(actions.drop_last().drop_last() =~= Seq::<DisconnectAction>::empty());
    reveal_with_fuel(Seq::fold_left, 3);
}

} // verus!
