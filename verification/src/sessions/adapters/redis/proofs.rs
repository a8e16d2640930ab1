//! What the operations of the store guarantee against a backend that does
//! not fail: what each leaves in the backend and returns, and that this is
//! what the contract of the store asks for.

use vstd::prelude::*;
use crate::sessions::adapters::redis::{
    create_session_step, delete_session_step, exists_session_step, session_state_step, state_of,
    update_session_state_step, Progress, StepView,
};
use crate::sessions::adapters::redis::pool::{
    answer, expiry, is_value_of, perform, Backend, CommandView, Entry, Reply,
};
use crate::sessions::port::{
    create_session, delete_session, exists_session, session_state, update_session_state,
    CreateSessionError, DeleteSessionError, ExistsSessionError, GetSessionStateError, SessionId,
    SessionState, Sessions, UpdateSessionStateError,
};

verus! {

/// An operation of the store, given by its steps, carried on against a
/// backend that does not fail until it has its result, for `commands`
/// commands at most: what the backend holds afterwards, and the result if
/// the operation got that far. `value` is what the backend hands out where
/// the operation reads a value.
pub open spec fn run<R>(
    step: spec_fn(Progress, Option<Reply>) -> (Progress, StepView<R>),
    backend: Backend,
    progress: Progress,
    reply: Option<Reply>,
    value: Option<String>,
    commands: nat,
) -> (Backend, Option<R>)
    decreases commands,
{
    match step(progress, reply).1 {
        StepView::Done(result) => (backend, Some(result)),
        StepView::Run(command) => if commands == 0 {
            (backend, None)
        } else {
            run(
                step,
                perform(backend, command),
                step(progress, reply).0,
                Some(answer(backend, command, value)),
                value,
                (commands - 1) as nat,
            )
        },
    }
}

/// The creation of a session under `id` against a backend that does not
/// fail.
pub open spec fn create_session_in(backend: Backend, ttl: Option<i64>, id: SessionId) -> (
    Backend,
    Option<Result<SessionId, CreateSessionError>>,
) {
    run(
        |progress: Progress, reply: Option<Reply>| create_session_step(ttl, id, progress, reply),
        backend,
        Progress::Start,
        None,
        None,
        2,
    )
}

/// The deletion of the session `id` against a backend that does not fail.
pub open spec fn delete_session_in(backend: Backend, id: SessionId) -> (
    Backend,
    Option<Result<(), DeleteSessionError>>,
) {
    run(
        |progress: Progress, reply: Option<Reply>| delete_session_step(id, progress, reply),
        backend,
        Progress::Start,
        None,
        None,
        2,
    )
}

/// The reading of the state of the session `id` against a backend that does
/// not fail and hands out `value`.
pub open spec fn session_state_in(backend: Backend, id: SessionId, value: Option<String>) -> (
    Backend,
    Option<Result<Option<SessionState>, GetSessionStateError>>,
) {
    run(
        |progress: Progress, reply: Option<Reply>| session_state_step(id, progress, reply),
        backend,
        Progress::Start,
        None,
        value,
        2,
    )
}

/// The check whether the session `id` exists against a backend that does
/// not fail.
pub open spec fn exists_session_in(backend: Backend, id: SessionId) -> (
    Backend,
    Option<Result<bool, ExistsSessionError>>,
) {
    run(
        |progress: Progress, reply: Option<Reply>| exists_session_step(id, progress, reply),
        backend,
        Progress::Start,
        None,
        None,
        2,
    )
}

/// The change of the state of the session `id` to `state` against a backend
/// that does not fail.
pub open spec fn update_session_state_in(
    backend: Backend,
    ttl: Option<i64>,
    id: SessionId,
    state: SessionState,
) -> (Backend, Option<Result<(), UpdateSessionStateError>>) {
    run(
        |progress: Progress, reply: Option<Reply>|
            update_session_state_step(ttl, id, state, progress, reply),
        backend,
        Progress::Start,
        None,
        None,
        2,
    )
}

/// The entry under which a session in the given state is stored.
pub open spec fn entry_of(state: SessionState, ttl: Option<i64>) -> Entry {
    Entry { value: state.text(), expire: expiry(ttl) }
}

/// A creation under an identifier that is free writes the session as
/// waiting for a controller, with the configured expiry, and returns the
/// identifier. Under an identifier in use it reports the collision and
/// leaves the backend as it is.
pub proof fn lemma_create_session(backend: Backend, ttl: Option<i64>, id: SessionId)
    ensures
        !backend.contains_key(id.text()) ==> create_session_in(backend, ttl, id) == (
            backend.insert(id.text(), entry_of(SessionState::WaitingForController, ttl)),
            Some(Ok::<SessionId, CreateSessionError>(id)),
        ),
        backend.contains_key(id.text()) ==> create_session_in(backend, ttl, id) == (
            backend,
            Some(
                Err::<SessionId, CreateSessionError>(
                    CreateSessionError::UnexpectedSessionIdAlreadyInUse(id),
                ),
            ),
        ),
{
    reveal_with_fuel(run, 3);
}

/// A deletion removes the entry of the session.
pub proof fn lemma_delete_session(backend: Backend, id: SessionId)
    ensures
        delete_session_in(backend, id) == (
            backend.remove(id.text()),
            Some(Ok::<(), DeleteSessionError>(())),
        ),
{
    reveal_with_fuel(run, 3);
}

/// Reading the state of a session changes nothing and returns the state
/// that the value under its key stands for: none where there is no value,
/// an error where the value stands for no state.
pub proof fn lemma_session_state(backend: Backend, id: SessionId, value: Option<String>)
    requires
        is_value_of(backend, id.text(), value),
    ensures
        session_state_in(backend, id, value) == (backend, Some(state_of(value))),
        !backend.contains_key(id.text()) ==> state_of(value) == Ok::<
            Option<SessionState>,
            GetSessionStateError,
        >(None),
        forall|state: SessionState|
            backend.contains_key(id.text()) && backend[id.text()].value == state.text()
                ==> state_of(value) == Ok::<Option<SessionState>, GetSessionStateError>(
                Some(state),
            ),
        state_of(value) is Err ==> backend.contains_key(id.text()) && SessionState::parse(
            backend[id.text()].value,
        ) is None,
{
    reveal_with_fuel(run, 3);
    assert forall|state: SessionState|
        backend.contains_key(id.text()) && backend[id.text()].value == state.text()
            implies state_of(value) == Ok::<Option<SessionState>, GetSessionStateError>(
        Some(state),
    ) by {
        SessionState::lemma_text_round_trip(state);
    }
}

/// The check for a session changes nothing and tells whether there is an
/// entry under its key.
pub proof fn lemma_exists_session(backend: Backend, id: SessionId)
    ensures
        exists_session_in(backend, id) == (
            backend,
            Some(Ok::<bool, ExistsSessionError>(backend.contains_key(id.text()))),
        ),
{
    reveal_with_fuel(run, 3);
}

/// A change of state of a session that exists writes the new state, with
/// the configured expiry. A change of state of a session that does not
/// exist reports it as unknown and creates nothing.
pub proof fn lemma_update_session_state(
    backend: Backend,
    ttl: Option<i64>,
    id: SessionId,
    state: SessionState,
)
    ensures
        backend.contains_key(id.text()) ==> update_session_state_in(backend, ttl, id, state) == (
            backend.insert(id.text(), entry_of(state, ttl)),
            Some(Ok::<(), UpdateSessionStateError>(())),
        ),
        !backend.contains_key(id.text()) ==> update_session_state_in(backend, ttl, id, state) == (
            backend,
            Some(Err::<(), UpdateSessionStateError>(UpdateSessionStateError::UnknownSession(id))),
        ),
{
    reveal_with_fuel(run, 3);
}

/// Whether the backend holds for the session `id` what `sessions` says of
/// it: its state in string form if it exists, and nothing if it does not.
pub open spec fn agrees(backend: Backend, sessions: Sessions, id: SessionId) -> bool {
    if sessions.contains_key(id) {
        backend.contains_key(id.text()) && backend[id.text()].value == sessions[id].text()
    } else {
        !backend.contains_key(id.text())
    }
}

/// Against a backend that does not fail, a creation does what the contract
/// of the store says: it returns what the contract returns, and the backend
/// then holds for the session what the contract says.
pub proof fn lemma_create_session_keeps_contract(
    backend: Backend,
    sessions: Sessions,
    ttl: Option<i64>,
    id: SessionId,
)
    requires
        agrees(backend, sessions, id),
    ensures
        create_session_in(backend, ttl, id).1 == Some(
            create_session(sessions, id).1,
        ),
        agrees(
            create_session_in(backend, ttl, id).0,
            create_session(sessions, id).0,
            id,
        ),
{
    lemma_create_session(backend, ttl, id);
}

/// Against a backend that does not fail, a deletion does what the contract
/// of the store says.
pub proof fn lemma_delete_session_keeps_contract(
    backend: Backend,
    sessions: Sessions,
    id: SessionId,
)
    requires
        agrees(backend, sessions, id),
    ensures
        delete_session_in(backend, id).1 == Some(
            delete_session(sessions, id).1,
        ),
        agrees(
            delete_session_in(backend, id).0,
            delete_session(sessions, id).0,
            id,
        ),
{
    lemma_delete_session(backend, id);
}

/// Against a backend that does not fail, the state of a session is read as
/// the contract of the store says: a state that was written reads back as
/// itself.
pub proof fn lemma_session_state_keeps_contract(
    backend: Backend,
    sessions: Sessions,
    id: SessionId,
    value: Option<String>,
)
    requires
        agrees(backend, sessions, id),
        is_value_of(backend, id.text(), value),
    ensures
        session_state_in(backend, id, value) == (
            backend,
            Some(session_state(sessions, id)),
        ),
{
    lemma_session_state(backend, id, value);
    if sessions.contains_key(id) {
        SessionState::lemma_text_round_trip(sessions[id]);
    }
}

/// Against a backend that does not fail, the existence of a session is
/// reported as the contract of the store says.
pub proof fn lemma_exists_session_keeps_contract(
    backend: Backend,
    sessions: Sessions,
    id: SessionId,
)
    requires
        agrees(backend, sessions, id),
    ensures
        exists_session_in(backend, id) == (
            backend,
            Some(exists_session(sessions, id)),
        ),
{
    lemma_exists_session(backend, id);
}

/// Against a backend that does not fail, a change of state does what the
/// contract of the store says.
pub proof fn lemma_update_session_state_keeps_contract(
    backend: Backend,
    sessions: Sessions,
    ttl: Option<i64>,
    id: SessionId,
    state: SessionState,
)
    requires
        agrees(backend, sessions, id),
    ensures
        update_session_state_in(backend, ttl, id, state).1 == Some(
            update_session_state(sessions, id, state).1,
        ),
        agrees(
            update_session_state_in(backend, ttl, id, state).0,
            update_session_state(sessions, id, state).0,
            id,
        ),
{
    lemma_update_session_state(backend, ttl, id, state);
}

/// Against a backend that does not fail, an operation on one session
/// touches the entry of that session alone: what the backend holds under
/// any other key stays as it was.
pub proof fn lemma_other_entries_untouched(
    backend: Backend,
    ttl: Option<i64>,
    id: SessionId,
    state: SessionState,
    value: Option<String>,
    key: Seq<char>,
)
    requires
        key != id.text(),
    ensures
        ({
            let unchanged = |after: Backend|
                after.contains_key(key) == backend.contains_key(key) && (backend.contains_key(key)
                    ==> after[key] == backend[key]);
            &&& unchanged(create_session_in(backend, ttl, id).0)
            &&& unchanged(delete_session_in(backend, id).0)
            &&& unchanged(session_state_in(backend, id, value).0)
            &&& unchanged(exists_session_in(backend, id).0)
            &&& unchanged(update_session_state_in(backend, ttl, id, state).0)
        }),
{
    reveal_with_fuel(run, 3);
}

/// Every write of the store carries the configured time-to-live: whatever
/// the store is told, a command that writes sets the expiry that the
/// time-to-live stands for.
pub proof fn lemma_every_write_expires(
    ttl: Option<i64>,
    id: SessionId,
    state: SessionState,
    progress: Progress,
    reply: Option<Reply>,
)
    ensures
        create_session_step(ttl, id, progress, reply).1 matches StepView::Run(
            CommandView::SetStr { key, value, expire },
        ) ==> expire == expiry(ttl),
        update_session_state_step(ttl, id, state, progress, reply).1 matches StepView::Run(
            CommandView::SetStr { key, value, expire },
        ) ==> expire == expiry(ttl),
{
}

} // verus!
