//! The session store over a key-value backend.
//!
//! A session is one entry of the backend: its key is the string form of the
//! session id, its value the string form of the session's state. Every write
//! carries the configured time-to-live, so that a session that was abandoned
//! expires by itself.
//!
//! An operation of the store is made of one or two commands for the backend.
//! The store decides which; the runtime sends each and comes back with the
//! reply. Between two commands of one operation the backend may change under
//! the store's feet: nothing here is atomic.

pub mod pool;
pub mod proofs;

use vstd::prelude::*;
use crate::sessions::adapters::redis::pool::{
    delete_key, exists_key, expiry, get_str, set_str, Command, CommandView, Reply,
};
use crate::sessions::port::{
    CreateSessionError, DeleteSessionError, ExistsSessionError, GetSessionStateError, IoFailure,
    ParseSessionStateError, SessionId, SessionState, UpdateSessionStateError,
};

verus! {

/// The settings of the store.
#[derive(Clone, Copy, Debug, PartialEq, Eq, Structural)]
pub struct Config {
    /// The lifetime of a stored session in seconds. Without one, or with one
    /// that is not positive, a session never expires.
    pub session_ttl: Option<i64>,
}

/// The session store over a key-value backend. `P` is the handle through
/// which the runtime reaches the backend; the store only keeps it.
pub struct RedisSessionStore<P> {
    pool: P,
    config: Config,
}

/// How far an operation of the store has come.
#[derive(Clone, Copy, Debug, PartialEq, Eq, Structural)]
pub enum Progress {
    /// Nothing has been sent.
    Start,
    /// The backend was asked whether the session exists.
    Checking,
    /// The backend was asked for the value of the session.
    Reading,
    /// The backend was asked to write the session.
    Writing,
    /// The backend was asked to delete the session.
    Deleting,
    /// The operation has its result.
    Finished,
}

/// What an operation of the store needs next.
#[derive(Debug)]
pub enum Step<R> {
    /// The backend is to run this command.
    Run(Command),
    /// Nothing: this is the result.
    Done(R),
}

/// What a `Step` says.
pub enum StepView<R> {
    Run(CommandView),
    Done(R),
}

impl<R> View for Step<R> {
    type V = StepView<R>;

    open spec fn view(&self) -> StepView<R> {
        match *self {
            Step::Run(command) => StepView::Run(command@),
            Step::Done(result) => StepView::Done(result),
        }
    }
}

/// How the backend let an operation down, given a reply that is not the one
/// the operation waited for.
pub open spec fn failure_of(reply: Option<Reply>) -> IoFailure {
    match reply {
        Some(Reply::Failed(cause)) => IoFailure::Backend(cause),
        _ => IoFailure::UnexpectedReply,
    }
}

/// One step of the creation of a session under the identifier `id`, with
/// `ttl` as the configured time-to-live.
///
/// The backend is asked whether the key is in use. If it is, the creation
/// fails and nothing is overwritten; if not, the session is written as
/// waiting for a controller.
pub open spec fn create_session_step(
    ttl: Option<i64>,
    id: SessionId,
    progress: Progress,
    reply: Option<Reply>,
) -> (Progress, StepView<Result<SessionId, CreateSessionError>>) {
    match (progress, reply) {
        (Progress::Start, None) => (
            Progress::Checking,
            StepView::Run(CommandView::Exists { key: id.text() }),
        ),
        (Progress::Checking, Some(Reply::Exists(true))) => (
            Progress::Finished,
            StepView::Done(Err(CreateSessionError::UnexpectedSessionIdAlreadyInUse(id))),
        ),
        (Progress::Checking, Some(Reply::Exists(false))) => (
            Progress::Writing,
            StepView::Run(
                CommandView::SetStr {
                    key: id.text(),
                    value: SessionState::WaitingForController.text(),
                    expire: expiry(ttl),
                },
            ),
        ),
        (Progress::Writing, Some(Reply::Done)) => (Progress::Finished, StepView::Done(Ok(id))),
        _ => (
            Progress::Finished,
            StepView::Done(Err(CreateSessionError::IoError(failure_of(reply)))),
        ),
    }
}

/// One step of the deletion of the session `id`: the key is deleted,
/// whether or not it exists.
pub open spec fn delete_session_step(id: SessionId, progress: Progress, reply: Option<Reply>) -> (
    Progress,
    StepView<Result<(), DeleteSessionError>>,
) {
    match (progress, reply) {
        (Progress::Start, None) => (
            Progress::Deleting,
            StepView::Run(CommandView::DeleteKey { key: id.text() }),
        ),
        (Progress::Deleting, Some(Reply::Done)) => (Progress::Finished, StepView::Done(Ok(()))),
        _ => (
            Progress::Finished,
            StepView::Done(Err(DeleteSessionError::IoError(failure_of(reply)))),
        ),
    }
}

/// The state that a value read from the backend stands for. No value means
/// that there is no such session. A value that is the string form of no
/// state is an error, never a state.
pub open spec fn state_of(value: Option<String>) -> Result<
    Option<SessionState>,
    GetSessionStateError,
> {
    match value {
        None => Ok(None),
        Some(text) => match SessionState::parse(text@) {
            Some(state) => Ok(Some(state)),
            None => Err(GetSessionStateError::InvalidState(ParseSessionStateError(text))),
        },
    }
}

/// One step of the reading of the state of the session `id`.
pub open spec fn session_state_step(id: SessionId, progress: Progress, reply: Option<Reply>) -> (
    Progress,
    StepView<Result<Option<SessionState>, GetSessionStateError>>,
) {
    match (progress, reply) {
        (Progress::Start, None) => (
            Progress::Reading,
            StepView::Run(CommandView::GetStr { key: id.text() }),
        ),
        (Progress::Reading, Some(Reply::Value(value))) => (
            Progress::Finished,
            StepView::Done(state_of(value)),
        ),
        _ => (
            Progress::Finished,
            StepView::Done(Err(GetSessionStateError::IoError(failure_of(reply)))),
        ),
    }
}

/// One step of the check whether the session `id` exists.
pub open spec fn exists_session_step(id: SessionId, progress: Progress, reply: Option<Reply>) -> (
    Progress,
    StepView<Result<bool, ExistsSessionError>>,
) {
    match (progress, reply) {
        (Progress::Start, None) => (
            Progress::Checking,
            StepView::Run(CommandView::Exists { key: id.text() }),
        ),
        (Progress::Checking, Some(Reply::Exists(exists))) => (
            Progress::Finished,
            StepView::Done(Ok(exists)),
        ),
        _ => (
            Progress::Finished,
            StepView::Done(Err(ExistsSessionError::IoError(failure_of(reply)))),
        ),
    }
}

/// One step of the change of the state of the session `id` to `state`, with
/// `ttl` as the configured time-to-live.
///
/// The backend is asked whether the key exists. If it does not, the change
/// fails and no session is created; if it does, the new state is written.
pub open spec fn update_session_state_step(
    ttl: Option<i64>,
    id: SessionId,
    state: SessionState,
    progress: Progress,
    reply: Option<Reply>,
) -> (Progress, StepView<Result<(), UpdateSessionStateError>>) {
    match (progress, reply) {
        (Progress::Start, None) => (
            Progress::Checking,
            StepView::Run(CommandView::Exists { key: id.text() }),
        ),
        (Progress::Checking, Some(Reply::Exists(false))) => (
            Progress::Finished,
            StepView::Done(Err(UpdateSessionStateError::UnknownSession(id))),
        ),
        (Progress::Checking, Some(Reply::Exists(true))) => (
            Progress::Writing,
            StepView::Run(
                CommandView::SetStr { key: id.text(), value: state.text(), expire: expiry(ttl) },
            ),
        ),
        (Progress::Writing, Some(Reply::Done)) => (Progress::Finished, StepView::Done(Ok(()))),
        _ => (
            Progress::Finished,
            StepView::Done(Err(UpdateSessionStateError::IoError(failure_of(reply)))),
        ),
    }
}

/// How the backend let an operation down, given a reply that is not the one
/// the operation waited for.
fn failure(reply: Option<Reply>) -> (failure: IoFailure)
    ensures
        failure == failure_of(reply),
{
    match reply {
        Some(Reply::Failed(cause)) => IoFailure::Backend(cause),
        _ => IoFailure::UnexpectedReply,
    }
}

impl<P> RedisSessionStore<P> {
    /// The settings that the store was made with.
    pub closed spec fn config(&self) -> Config {
        self.config
    }

    /// A store with the given settings that keeps `pool` for the runtime.
    pub fn new(pool: P, config: Config) -> (store: Self)
        ensures
            store.config() == config,
            *store.pool() == pool,
    {
        Self { pool, config }
    }

    /// The handle through which the runtime reaches the backend.
    #[verifier::when_used_as_spec(spec_pool)]
    pub fn pool(&self) -> (pool: &P)
        ensures
            pool == self.spec_pool(),
    {
        &self.pool
    }

    /// The handle through which the runtime reaches the backend.
    pub closed spec fn spec_pool(&self) -> &P {
        &self.pool
    }

    /// One step of the creation of a session under `id`, an identifier that
    /// was picked for it: takes how far the creation has come and the reply
    /// to its last command, if it has sent one.
    pub fn create_session(
        &self,
        id: SessionId,
        progress: Progress,
        reply: Option<Reply>,
    ) -> (step: (Progress, Step<Result<SessionId, CreateSessionError>>))
        ensures
            step.0 == create_session_step(self.config().session_ttl, id, progress, reply).0,
            step.1@ == create_session_step(self.config().session_ttl, id, progress, reply).1,
    {
        match (progress, reply) {
            (Progress::Start, None) => (Progress::Checking, Step::Run(exists_key(id.to_string()))),
            (Progress::Checking, Some(Reply::Exists(true))) => (
                Progress::Finished,
                Step::Done(Err(CreateSessionError::UnexpectedSessionIdAlreadyInUse(id))),
            ),
            (Progress::Checking, Some(Reply::Exists(false))) => (
                Progress::Writing,
                Step::Run(
                    set_str(
                        id.to_string(),
                        SessionState::WaitingForController.to_string(),
                        self.config.session_ttl,
                    ),
                ),
            ),
            (Progress::Writing, Some(Reply::Done)) => (Progress::Finished, Step::Done(Ok(id))),
            (_, reply) => (
                Progress::Finished,
                Step::Done(Err(CreateSessionError::IoError(failure(reply)))),
            ),
        }
    }

    /// One step of the deletion of the session `id`.
    pub fn delete_session(
        &self,
        id: SessionId,
        progress: Progress,
        reply: Option<Reply>,
    ) -> (step: (Progress, Step<Result<(), DeleteSessionError>>))
        ensures
            step.0 == delete_session_step(id, progress, reply).0,
            step.1@ == delete_session_step(id, progress, reply).1,
    {
        match (progress, reply) {
            (Progress::Start, None) => (Progress::Deleting, Step::Run(delete_key(id.to_string()))),
            (Progress::Deleting, Some(Reply::Done)) => (Progress::Finished, Step::Done(Ok(()))),
            (_, reply) => (
                Progress::Finished,
                Step::Done(Err(DeleteSessionError::IoError(failure(reply)))),
            ),
        }
    }

    /// One step of the reading of the state of the session `id`.
    pub fn session_state(
        &self,
        id: SessionId,
        progress: Progress,
        reply: Option<Reply>,
    ) -> (step: (Progress, Step<Result<Option<SessionState>, GetSessionStateError>>))
        ensures
            step.0 == session_state_step(id, progress, reply).0,
            step.1@ == session_state_step(id, progress, reply).1,
    {
        match (progress, reply) {
            (Progress::Start, None) => (Progress::Reading, Step::Run(get_str(id.to_string()))),
            (Progress::Reading, Some(Reply::Value(value))) => {
                let result = match value {
                    None => Ok(None),
                    Some(text) => match SessionState::try_from(text) {
                        Ok(state) => Ok(Some(state)),
                        Err(error) => Err(GetSessionStateError::InvalidState(error)),
                    },
                };
                (Progress::Finished, Step::Done(result))
            },
            (_, reply) => (
                Progress::Finished,
                Step::Done(Err(GetSessionStateError::IoError(failure(reply)))),
            ),
        }
    }

    /// One step of the check whether the session `id` exists.
    pub fn exists_session(
        &self,
        id: SessionId,
        progress: Progress,
        reply: Option<Reply>,
    ) -> (step: (Progress, Step<Result<bool, ExistsSessionError>>))
        ensures
            step.0 == exists_session_step(id, progress, reply).0,
            step.1@ == exists_session_step(id, progress, reply).1,
    {
        match (progress, reply) {
            (Progress::Start, None) => (Progress::Checking, Step::Run(exists_key(id.to_string()))),
            (Progress::Checking, Some(Reply::Exists(exists))) => (
                Progress::Finished,
                Step::Done(Ok(exists)),
            ),
            (_, reply) => (
                Progress::Finished,
                Step::Done(Err(ExistsSessionError::IoError(failure(reply)))),
            ),
        }
    }

    /// One step of the change of the state of the session `id` to `state`.
    pub fn update_session_state(
        &self,
        id: SessionId,
        state: SessionState,
        progress: Progress,
        reply: Option<Reply>,
    ) -> (step: (Progress, Step<Result<(), UpdateSessionStateError>>))
        ensures
            step.0 == update_session_state_step(
                self.config().session_ttl,
                id,
                state,
                progress,
                reply,
            ).0,
            step.1@ == update_session_state_step(
                self.config().session_ttl,
                id,
                state,
                progress,
                reply,
            ).1,
    {
        match (progress, reply) {
            (Progress::Start, None) => (Progress::Checking, Step::Run(exists_key(id.to_string()))),
            (Progress::Checking, Some(Reply::Exists(false))) => (
                Progress::Finished,
                Step::Done(Err(UpdateSessionStateError::UnknownSession(id))),
            ),
            (Progress::Checking, Some(Reply::Exists(true))) => (
                Progress::Writing,
                Step::Run(set_str(id.to_string(), state.to_string(), self.config.session_ttl)),
            ),
            (Progress::Writing, Some(Reply::Done)) => (Progress::Finished, Step::Done(Ok(()))),
            (_, reply) => (
                Progress::Finished,
                Step::Done(Err(UpdateSessionStateError::IoError(failure(reply)))),
            ),
        }
    }
}

} // verus!
