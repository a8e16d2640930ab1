use session_relay::sessions::adapters::redis::pool::{
    delete_key, exists_key, get_str, set_str, Command, Reply,
};
use session_relay::sessions::adapters::redis::{Config, Progress, RedisSessionStore, Step};
use session_relay::sessions::port::{
    CreateSessionError, DeleteSessionError, ExistsSessionError, GetSessionStateError, IoFailure,
    ParseSessionStateError, SessionId, SessionState, UpdateSessionStateError,
};
use std::collections::HashMap;
use uuid::Uuid;

/// A key-value backend in memory that records what it was asked.
#[derive(Default)]
struct Memory {
    entries: HashMap<String, (String, Option<i64>)>,
    commands: Vec<String>,
    /// When set, every command fails with this report.
    broken: Option<String>,
}

impl Memory {
    fn perform(&mut self, command: Command) -> Reply {
        self.commands.push(format!("{command:?}"));
        if let Some(report) = &self.broken {
            return Reply::Failed(report.clone());
        }
        match command {
            Command::Exists { key } => Reply::Exists(self.entries.contains_key(&key)),
            Command::GetStr { key } => Reply::Value(self.entries.get(&key).map(|entry| entry.0.clone())),
            Command::SetStr { key, value, expire } => {
                self.entries.insert(key, (value, expire));
                Reply::Done
            }
            Command::DeleteKey { key } => {
                self.entries.remove(&key);
                Reply::Done
            }
        }
    }
}

/// A store over a backend in memory.
struct Store {
    logic: RedisSessionStore<()>,
    memory: Memory,
}

impl Store {
    fn new(session_ttl: Option<i64>) -> Store {
        Store { logic: RedisSessionStore::new((), Config { session_ttl }), memory: Memory::default() }
    }

    fn drive<R>(
        &mut self,
        step: impl Fn(&RedisSessionStore<()>, Progress, Option<Reply>) -> (Progress, Step<R>),
    ) -> R {
        let mut progress = Progress::Start;
        let mut reply = None;
        for _ in 0..8 {
            let (next, step) = step(&self.logic, progress, reply);
            progress = next;
            match step {
                Step::Run(command) => reply = Some(self.memory.perform(command)),
                Step::Done(result) => {
                    assert_eq!(progress, Progress::Finished);
                    return result;
                }
            }
        }
        panic!("the operation does not end");
    }

    fn create_session_as(&mut self, id: SessionId) -> Result<SessionId, CreateSessionError> {
        self.drive(|store, progress, reply| store.create_session(id, progress, reply))
    }

    fn create_session(&mut self) -> Result<SessionId, CreateSessionError> {
        self.create_session_as(SessionId::random())
    }

    fn delete_session(&mut self, id: SessionId) -> Result<(), DeleteSessionError> {
        self.drive(|store, progress, reply| store.delete_session(id, progress, reply))
    }

    fn session_state(&mut self, id: SessionId) -> Result<Option<SessionState>, GetSessionStateError> {
        self.drive(|store, progress, reply| store.session_state(id, progress, reply))
    }

    fn exists_session(&mut self, id: SessionId) -> Result<bool, ExistsSessionError> {
        self.drive(|store, progress, reply| store.exists_session(id, progress, reply))
    }

    fn update_session_state(&mut self, id: SessionId, state: SessionState) -> Result<(), UpdateSessionStateError> {
        self.drive(|store, progress, reply| store.update_session_state(id, state, progress, reply))
    }
}

#[test]
fn can_create_session() {
    let mut store = Store::new(None);
    let uuid = store.create_session().unwrap();
    assert!(store.exists_session(uuid).unwrap());
}

#[test]
fn can_delete_session() {
    let mut store = Store::new(None);
    let uuid = store.create_session().unwrap();
    assert!(store.exists_session(uuid).unwrap());
    assert!(store.delete_session(uuid).is_ok());
    assert!(!store.exists_session(uuid).unwrap());
}

#[test]
fn create_session_with_correct_initial_state() {
    let mut store = Store::new(None);
    let uuid = store.create_session().unwrap();
    assert_eq!(store.session_state(uuid).unwrap().unwrap(), SessionState::WaitingForController);
}

#[test]
fn can_update_session_state() {
    let mut store = Store::new(None);
    let uuid = store.create_session().unwrap();
    assert!(store.update_session_state(uuid, SessionState::InProgress).is_ok());
    assert_eq!(store.session_state(uuid).unwrap().unwrap(), SessionState::InProgress);
}

#[test]
fn session_is_stored_under_its_id_as_its_state() {
    let mut store = Store::new(Some(60));
    let id = SessionId(0x550e8400e29b41d4a716446655440000);
    assert_eq!(store.create_session_as(id).unwrap(), id);
    assert_eq!(
        store.memory.entries.get("550e8400-e29b-41d4-a716-446655440000"),
        Some(&("waiting_for_controller".to_string(), Some(60)))
    );
    store.update_session_state(id, SessionState::InProgress).unwrap();
    assert_eq!(
        store.memory.entries.get("550e8400-e29b-41d4-a716-446655440000"),
        Some(&("in_progress".to_string(), Some(60)))
    );
    assert_eq!(store.memory.entries.len(), 1);
}

#[test]
fn create_session_reports_an_id_in_use_and_overwrites_nothing() {
    let mut store = Store::new(None);
    let id = SessionId(5);
    store.create_session_as(id).unwrap();
    store.update_session_state(id, SessionState::InProgress).unwrap();

    match store.create_session_as(id) {
        Err(CreateSessionError::UnexpectedSessionIdAlreadyInUse(used)) => assert_eq!(used, id),
        other => panic!("unexpected result {other:?}"),
    }
    assert_eq!(store.session_state(id).unwrap(), Some(SessionState::InProgress));
}

#[test]
fn update_of_an_unknown_session_fails_and_creates_nothing() {
    let mut store = Store::new(None);
    let id = SessionId(77);

    match store.update_session_state(id, SessionState::InProgress) {
        Err(UpdateSessionStateError::UnknownSession(unknown)) => assert_eq!(unknown, id),
        other => panic!("unexpected result {other:?}"),
    }
    assert!(store.memory.entries.is_empty());
    assert!(!store.exists_session(id).unwrap());
}

#[test]
fn state_of_a_missing_session_is_none() {
    let mut store = Store::new(None);
    assert_eq!(store.session_state(SessionId(1)).unwrap(), None);
    assert!(!store.exists_session(SessionId(1)).unwrap());
}

#[test]
fn delete_of_a_missing_session_succeeds() {
    let mut store = Store::new(None);
    assert!(store.delete_session(SessionId(1)).is_ok());
}

#[test]
fn state_revert_reads_back_as_waiting() {
    let mut store = Store::new(None);
    let id = store.create_session().unwrap();
    store.update_session_state(id, SessionState::InProgress).unwrap();
    store.update_session_state(id, SessionState::WaitingForController).unwrap();
    assert_eq!(store.session_state(id).unwrap(), Some(SessionState::WaitingForController));
}

#[test]
fn a_stored_value_that_is_no_state_is_an_error() {
    let mut store = Store::new(None);
    let id = SessionId(3);
    store.memory.entries.insert(id.to_string(), ("paused".to_string(), None));

    match store.session_state(id) {
        Err(GetSessionStateError::InvalidState(ParseSessionStateError(value))) => assert_eq!(value, "paused"),
        other => panic!("unexpected result {other:?}"),
    }
}

#[test]
fn only_a_positive_time_to_live_makes_a_session_expire() {
    for (ttl, expire) in [(None, None), (Some(0), None), (Some(-5), None), (Some(1), Some(1)), (Some(i64::MAX), Some(i64::MAX))] {
        let mut store = Store::new(ttl);
        let id = store.create_session().unwrap();
        assert_eq!(store.memory.entries[&id.to_string()].1, expire);
        store.update_session_state(id, SessionState::InProgress).unwrap();
        assert_eq!(store.memory.entries[&id.to_string()].1, expire);
    }
}

#[test]
fn set_str_carries_the_expiry() {
    match set_str("k".into(), "v".into(), Some(10)) {
        Command::SetStr { key, value, expire } => {
            assert_eq!((key.as_str(), value.as_str(), expire), ("k", "v", Some(10)));
        }
        other => panic!("unexpected command {other:?}"),
    }
    assert!(matches!(set_str("k".into(), "v".into(), Some(0)), Command::SetStr { expire: None, .. }));
    assert!(matches!(set_str("k".into(), "v".into(), Some(-1)), Command::SetStr { expire: None, .. }));
    assert!(matches!(set_str("k".into(), "v".into(), None), Command::SetStr { expire: None, .. }));
}

#[test]
fn commands_name_their_key() {
    assert!(matches!(get_str("a".into()), Command::GetStr { key } if key == "a"));
    assert!(matches!(exists_key("b".into()), Command::Exists { key } if key == "b"));
    assert!(matches!(delete_key("c".into()), Command::DeleteKey { key } if key == "c"));
}

#[test]
fn operations_send_their_commands_in_order() {
    let mut store = Store::new(Some(30));
    let id = SessionId(Uuid::nil().as_u128());
    let key = Uuid::nil().to_string();
    store.create_session_as(id).unwrap();
    store.update_session_state(id, SessionState::InProgress).unwrap();
    store.session_state(id).unwrap();
    store.exists_session(id).unwrap();
    store.delete_session(id).unwrap();
    assert_eq!(
        store.memory.commands,
        vec![
            format!("Exists {{ key: {key:?} }}"),
            format!("SetStr {{ key: {key:?}, value: \"waiting_for_controller\", expire: Some(30) }}"),
            format!("Exists {{ key: {key:?} }}"),
            format!("SetStr {{ key: {key:?}, value: \"in_progress\", expire: Some(30) }}"),
            format!("GetStr {{ key: {key:?} }}"),
            format!("Exists {{ key: {key:?} }}"),
            format!("DeleteKey {{ key: {key:?} }}"),
        ]
    );
}

#[test]
fn a_failing_backend_fails_every_operation_with_its_report() {
    let mut store = Store::new(None);
    store.memory.broken = Some("connection reset".to_string());
    let id = SessionId(8);

    assert!(matches!(
        store.create_session_as(id),
        Err(CreateSessionError::IoError(IoFailure::Backend(report))) if report == "connection reset"
    ));
    assert!(matches!(
        store.delete_session(id),
        Err(DeleteSessionError::IoError(IoFailure::Backend(report))) if report == "connection reset"
    ));
    assert!(matches!(
        store.session_state(id),
        Err(GetSessionStateError::IoError(IoFailure::Backend(report))) if report == "connection reset"
    ));
    assert!(matches!(
        store.exists_session(id),
        Err(ExistsSessionError::IoError(IoFailure::Backend(report))) if report == "connection reset"
    ));
    assert!(matches!(
        store.update_session_state(id, SessionState::InProgress),
        Err(UpdateSessionStateError::IoError(IoFailure::Backend(report))) if report == "connection reset"
    ));
    assert_eq!(store.memory.commands.len(), 5);
}

#[test]
fn a_failing_write_fails_the_operation() {
    let store = RedisSessionStore::new((), Config { session_ttl: None });
    let id = SessionId(8);
    let (progress, step) = store.create_session(id, Progress::Start, None);
    assert!(matches!(step, Step::Run(Command::Exists { .. })));
    let (progress, step) = store.create_session(id, progress, Some(Reply::Exists(false)));
    assert_eq!(progress, Progress::Writing);
    assert!(matches!(step, Step::Run(Command::SetStr { .. })));
    let (progress, step) = store.create_session(id, progress, Some(Reply::Failed("read only".into())));
    assert_eq!(progress, Progress::Finished);
    assert!(matches!(
        step,
        Step::Done(Err(CreateSessionError::IoError(IoFailure::Backend(report)))) if report == "read only"
    ));
}

#[test]
fn a_reply_that_answers_nothing_fails_the_operation() {
    let store = RedisSessionStore::new((), Config { session_ttl: None });
    let id = SessionId(8);

    let (progress, step) = store.exists_session(id, Progress::Checking, Some(Reply::Done));
    assert_eq!(progress, Progress::Finished);
    assert!(matches!(step, Step::Done(Err(ExistsSessionError::IoError(IoFailure::UnexpectedReply)))));

    let (progress, step) = store.session_state(id, Progress::Reading, Some(Reply::Exists(true)));
    assert_eq!(progress, Progress::Finished);
    assert!(matches!(step, Step::Done(Err(GetSessionStateError::IoError(IoFailure::UnexpectedReply)))));

    let (progress, step) = store.delete_session(id, Progress::Deleting, None);
    assert_eq!(progress, Progress::Finished);
    assert!(matches!(step, Step::Done(Err(DeleteSessionError::IoError(IoFailure::UnexpectedReply)))));

    let (progress, step) =
        store.update_session_state(id, SessionState::InProgress, Progress::Start, Some(Reply::Done));
    assert_eq!(progress, Progress::Finished);
    assert!(matches!(step, Step::Done(Err(UpdateSessionStateError::IoError(IoFailure::UnexpectedReply)))));

    let (progress, step) = store.create_session(id, Progress::Finished, None);
    assert_eq!(progress, Progress::Finished);
    assert!(matches!(step, Step::Done(Err(CreateSessionError::IoError(IoFailure::UnexpectedReply)))));
}

#[test]
fn the_store_keeps_its_pool() {
    let store = RedisSessionStore::new("handle", Config { session_ttl: Some(5) });
    assert_eq!(*store.pool(), "handle");
}
