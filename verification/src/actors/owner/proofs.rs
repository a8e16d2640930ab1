//! What the decisions of the owner side guarantee.
//!
//! First what holds of every step, whatever the store and the socket do.
//! Then what a whole command achieves in a world in which nothing fails.

use vstd::prelude::*;
use crate::actors::owner::messages::{StartSessionError, StartSessionResponse};
use crate::actors::owner::handlers::{
    disconnect_actions, refuse, stage, stage_of, start_session_step, DisconnectAction, StartSession,
    StartSessionAction, StartSessionEvent,
};
use crate::actors::world::World;
use crate::sessions::port::{
    create_session, delete_session, exists_session, CreateSessionError, ExistsSessionError,
    SessionId, SessionState,
};
use crate::socket::port::RoomEvent;

verus! {

/// Whatever the store and the socket do, a session is asked of the store
/// only for a caller that holds no session id, and only as the first thing:
/// a caller that holds one is answered at once with `AlreadyInASession`.
pub proof fn lemma_start_creates_only_for_caller_without_session(
    state: StartSession,
    event: StartSessionEvent,
)
    ensures
        start_session_step(state, event).1 is CreateSession ==> state is Idle && event
            == (StartSessionEvent::Requested { stored_value: None }),
        state is Idle && event is Requested && event->stored_value is Some ==> start_session_step(
            state,
            event,
        ) == refuse(StartSessionError::AlreadyInASession),
{
}

/// The actions that the start of a session asks for when it stands at
/// `state` and is told `events` one after the other, in their order.
pub open spec fn start_actions(state: StartSession, events: Seq<StartSessionEvent>) -> Seq<
    StartSessionAction,
>
    decreases events.len(),
{
    if events.len() == 0 {
        Seq::empty()
    } else {
        let (next, action) = start_session_step(state, events.first());
        seq![action] + start_actions(next, events.drop_first())
    }
}

/// Whatever the runtime reports, and however long it goes on reporting, the
/// start of a session asks for its actions in their fixed order: a session
/// from the store, then the room, then the answer; and once the caller was
/// answered, nothing is asked for but to answer it. So one start asks the
/// store for one session at most.
pub proof fn lemma_start_actions_in_order(state: StartSession, events: Seq<StartSessionEvent>)
    ensures
        start_actions(state, events).len() == events.len(),
        forall|i: int|
            0 <= i < events.len() ==> {
                let action = #[trigger] start_actions(state, events)[i];
                action is Respond || stage_of(action) == stage(state) + i + 1
            },
        forall|i: int, j: int|
            0 <= i < j < events.len() && (#[trigger] start_actions(state, events)[i]) is Respond
                ==> (#[trigger] start_actions(state, events)[j]) is Respond,
    decreases events.len(),
{
    if events.len() > 0 {
        let (next, action) = start_session_step(state, events.first());
        let rest = events.drop_first();
        let actions = start_actions(state, events);
        lemma_start_actions_in_order(next, rest);
        assert forall|i: int| 0 <= i < events.len() implies {
            let action = #[trigger] actions[i];
            action is Respond || stage_of(action) == stage(state) + i + 1
        } by {
            if i > 0 {
                assert(actions[i] == start_actions(next, rest)[i - 1]);
            }
        }
        assert forall|i: int, j: int|
            0 <= i < j < events.len() && (#[trigger] actions[i]) is Respond implies (
        #[trigger] actions[j]) is Respond by {
            assert(actions[j] == start_actions(next, rest)[j - 1]);
            if i > 0 {
                assert(actions[i] == start_actions(next, rest)[i - 1]);
            }
        }
    }
}

/// Whatever the store and the socket do, the start of a session goes on
/// only where the step before succeeded, and the caller is answered with
/// success exactly when the id of the session is stored on its connection:
/// that id is the one that the store returned and whose room was joined.
pub proof fn lemma_start_goes_on_only_after_success(state: StartSession, event: StartSessionEvent)
    ensures
        ({
            let (next, action) = start_session_step(state, event);
            &&& action is Respond <==> next is Finished
            &&& action is Join ==> state is Creating && event is Created && event->Created_0
                == Ok::<SessionId, CreateSessionError>(action->room)
            &&& action is Respond ==> (action->store_value is Some <==> action->response
                is Success)
            &&& action is Respond && action->response is Success ==> {
                &&& action->store_value == Some(action->response->session_id)
                &&& state == (StartSession::JoiningRoom {
                    session_id: action->response->session_id,
                })
                &&& event is Joined
                &&& event->Joined_0 is Ok
            }
        }),
{
}

/// What a world in which nothing fails does with what the start of a
/// session asks for, and what it reports back, if the action is one to
/// report on. `fresh` is the identifier that the store picks for a new
/// session.
pub open spec fn perform_start_action(
    world: World,
    action: StartSessionAction,
    fresh: SessionId,
) -> (World, Option<StartSessionEvent>) {
    match action {
        StartSessionAction::CreateSession => (
            world.with_sessions(create_session(world.sessions, fresh).0),
            Some(StartSessionEvent::Created(create_session(world.sessions, fresh).1)),
        ),
        StartSessionAction::Join { room } => (
            world.join(room),
            Some(StartSessionEvent::Joined(Ok(()))),
        ),
        StartSessionAction::Respond { store_value, response } => (
            match store_value {
                Some(id) => world.store_value(id),
                None => world,
            },
            None,
        ),
    }
}

/// The start of a session that stands at `state` and is told `event`,
/// carried on in a world in which nothing fails until the caller has its
/// answer, for `steps` steps at most: the world it leaves, and the answer if
/// it got that far.
pub open spec fn run_start_session(
    world: World,
    state: StartSession,
    event: StartSessionEvent,
    fresh: SessionId,
    steps: nat,
) -> (World, Option<StartSessionResponse>)
    decreases steps,
{
    let (next, action) = start_session_step(state, event);
    let (after, outcome) = perform_start_action(world, action, fresh);
    match (action, outcome) {
        (StartSessionAction::Respond { store_value, response }, _) => (after, Some(response)),
        (_, Some(outcome)) if steps > 0 => run_start_session(
            after,
            next,
            outcome,
            fresh,
            (steps - 1) as nat,
        ),
        _ => (world, None),
    }
}

/// A whole start of a session in a world in which nothing fails; `fresh` is
/// the identifier that the store picks if it is asked for a session.
pub open spec fn start_session(world: World, fresh: SessionId) -> (
    World,
    Option<StartSessionResponse>,
) {
    run_start_session(
        world,
        StartSession::Idle,
        StartSessionEvent::Requested { stored_value: world.stored_value },
        fresh,
        3,
    )
}

/// A caller in no session gets one: the store holds the new session, which
/// waits for a controller; the caller is in its room; the caller's
/// connection holds its id, and the same id is sent back.
pub proof fn lemma_start_session_created(world: World, fresh: SessionId)
    requires
        world.stored_value is None,
        !world.sessions.contains_key(fresh),
    ensures
        start_session(world, fresh) == (
            World {
                sessions: world.sessions.insert(fresh, SessionState::WaitingForController),
                stored_value: Some(fresh),
                rooms: world.rooms.insert(fresh),
                ..world
            },
            Some(StartSessionResponse::Success { session_id: fresh }),
        ),
{
    reveal_with_fuel(run_start_session, 4);
}

/// A caller that already holds a session id is refused with
/// `AlreadyInASession`, and nothing is touched: the store holds what it
/// held.
pub proof fn lemma_start_session_refused_when_already_in_a_session(world: World, fresh: SessionId)
    requires
        world.stored_value is Some,
    ensures
        start_session(world, fresh) == (
            world,
            Some(StartSessionResponse::Error { kind: StartSessionError::AlreadyInASession }),
        ),
{
    reveal_with_fuel(run_start_session, 2);
}

/// After a start that succeeded, every further start from the same
/// connection is refused with `AlreadyInASession` and creates nothing,
/// whatever has happened to the store in between, for as long as the
/// connection keeps its session id.
pub proof fn lemma_second_start_session_is_refused(
    world: World,
    first: SessionId,
    later: World,
    second: SessionId,
)
    requires
        start_session(world, first).1 is Some,
        start_session(world, first).1->0 is Success,
        later.stored_value == start_session(world, first).0.stored_value,
    ensures
        start_session(later, second) == (
            later,
            Some(StartSessionResponse::Error { kind: StartSessionError::AlreadyInASession }),
        ),
{
    reveal_with_fuel(run_start_session, 4);
}

/// The store picks an identifier that is in use: the start ends with
/// `ServerError`, and nothing is touched.
pub proof fn lemma_start_session_fails_on_collision(world: World, fresh: SessionId)
    requires
        world.stored_value is None,
        world.sessions.contains_key(fresh),
    ensures
        start_session(world, fresh) == (
            world,
            Some(StartSessionResponse::Error { kind: StartSessionError::ServerError }),
        ),
{
    reveal_with_fuel(run_start_session, 3);
}

/// What a world in which nothing fails does with one action of a
/// disconnect.
pub open spec fn perform_disconnect_action(world: World, action: DisconnectAction) -> World {
    match action {
        DisconnectAction::EmitToRoom { room, event } => world.emit_to_room(room, event),
        DisconnectAction::RemoveValue => world.remove_value(),
        DisconnectAction::DeleteSession { id } => world.with_sessions(
            delete_session(world.sessions, id).0,
        ),
    }
}

/// The disconnect of the calling owner in a world in which nothing fails:
/// the world it leaves.
pub open spec fn disconnect(world: World) -> World {
    disconnect_actions(world.stored_value).fold_left(
        world,
        |w: World, action: DisconnectAction| perform_disconnect_action(w, action),
    )
}

/// An owner that is in no session disconnects without a trace.
pub proof fn lemma_disconnect_when_not_in_a_session(world: World)
    requires
        world.stored_value is None,
    ensures
        disconnect(world) == world,
{
}

/// An owner that is in a session disconnects: the room receives
/// `session_finished`, the connection holds no session id any more, and the
/// store no longer reports the session as existing.
pub proof fn lemma_disconnect_when_paired(world: World)
    requires
        world.stored_value is Some,
    ensures
        disconnect(world) == (World {
            sessions: world.sessions.remove(world.stored_value->0),
            stored_value: None,
            broadcasts: world.broadcasts.push((world.stored_value->0, RoomEvent::SessionFinished)),
            ..world
        }),
        exists_session(disconnect(world).sessions, world.stored_value->0) == Ok::<
            bool,
            ExistsSessionError,
        >(false),
{
    let actions = disconnect_actions(world.stored_value);
    assert(actions.drop_last() =~= seq![actions[0], actions[1]]);
    assert(actions.drop_last().drop_last() =~= seq![actions[0]]);
    assert(actions.drop_last().drop_last().drop_last() =~= Seq::<DisconnectAction>::empty());
    reveal_with_fuel(Seq::fold_left, 4);
}

} // verus!
