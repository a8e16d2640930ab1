//! The vocabulary of the session store: the identifier and the states of a
//! session, their string forms, the errors of each operation of a store,
//! and what a store owes its callers.

use vstd::prelude::*;
use vstd::std_specs::convert::TryFromSpecImpl;

verus! {

/// The textual form of the identifier with the given 128-bit value: the
/// hyphenated form that the `uuid` crate prints.
pub uninterp spec fn hyphenated(value: u128) -> Seq<char>;

/// The 128-bit value of the identifier that the `uuid` crate reads from a
/// text, if it reads one.
pub uninterp spec fn parsed(text: Seq<char>) -> Option<u128>;

/// `uuid::Error`: why the `uuid` crate could not read an identifier.
/// Nothing is known of a value of it.
#[verifier::external_type_specification]
#[verifier::external_body]
pub struct ExUuidError(uuid::Error);

/// The identifier of a session: opaque, and never reused.
#[derive(Clone, Copy, Debug, PartialEq, Eq, Hash, Structural)]
pub struct SessionId(pub u128);

/// Whether the 128-bit value of an identifier carries the marks of a random
/// one: version 4 and the standard variant.
pub open spec fn is_version_four(value: u128) -> bool {
    value & 0x0000_0000_0000_f000_c000_0000_0000_0000
        == 0x0000_0000_0000_4000_8000_0000_0000_0000
}

/// `uuid::Uuid::new_v4`: a random identifier. Of the value only the marks
/// of version and variant are claimed, which the crate sets on every one.
/// The call panics only where the operating system hands out no random
/// bytes.
#[verifier::external_body]
fn uuid_new_v4() -> (value: u128)
    ensures
        is_version_four(value),
{
    uuid::Uuid::new_v4().as_u128()
}

/// `ToString::to_string` on a `uuid::Uuid`: the identifier in its hyphenated
/// form, which depends on the value alone, and which `uuid::Uuid::parse_str`
/// reads back as the same identifier.
#[verifier::external_body]
fn uuid_to_string(value: u128) -> (text: String)
    ensures
        text@ == hyphenated(value),
        parsed(text@) == Some(value),
{
    uuid::Uuid::from_u128(value).to_string()
}

/// `uuid::Uuid::parse_str`: the identifier that a text stands for, which
/// depends on the text alone, or the crate's error where it stands for none.
#[verifier::external_body]
fn uuid_parse_str(text: &str) -> (value: Result<u128, uuid::Error>)
    ensures
        match value {
            Ok(value) => parsed(text@) == Some(value),
            Err(_) => parsed(text@) is None,
        },
{
    match uuid::Uuid::parse_str(text) {
        Ok(id) => Ok(id.as_u128()),
        Err(error) => Err(error),
    }
}

impl SessionId {
    /// The string form of the identifier. It names the room of the session
    /// and is the key under which the session is stored.
    pub open spec fn text(self) -> Seq<char> {
        hyphenated(self.0)
    }

    /// The identifier that a text stands for, if it stands for one.
    pub open spec fn from_text(text: Seq<char>) -> Option<SessionId> {
        match parsed(text) {
            Some(value) => Some(SessionId(value)),
            None => None,
        }
    }

    /// A new random identifier. Which one is left to chance; it carries the
    /// marks of a random identifier.
    pub fn random() -> (id: SessionId)
        ensures
            is_version_four(id.0),
    {
        SessionId(uuid_new_v4())
    }

    /// The string form of the identifier, from which `parse` gives the
    /// identifier back.
    pub fn to_string(&self) -> (text: String)
        ensures
            text@ == self.text(),
            SessionId::from_text(text@) == Some(*self),
    {
        uuid_to_string(self.0)
    }

    /// Reads an identifier from a text.
    pub fn parse(text: &str) -> (id: Option<SessionId>)
        ensures
            id == SessionId::from_text(text@),
    {
        match uuid_parse_str(text) {
            Ok(value) => Some(SessionId(value)),
            Err(_) => None,
        }
    }
}

/// Where a session stands in its lifecycle.
#[derive(Clone, Copy, Debug, PartialEq, Eq, Structural)]
pub enum SessionState {
    /// The owner waits; no controller has been admitted.
    WaitingForController,
    /// A controller has been admitted.
    InProgress,
}

/// A stored value that is the string form of no session state. The field
/// holds the offending value.
#[derive(Debug)]
pub struct ParseSessionStateError(pub String);

impl SessionState {
    /// The string form under which a state is stored.
    pub open spec fn text(self) -> Seq<char> {
        match self {
            SessionState::WaitingForController => "waiting_for_controller"@,
            SessionState::InProgress => "in_progress"@,
        }
    }

    /// The state that a stored string stands for, if it stands for one.
    pub open spec fn parse(s: Seq<char>) -> Option<SessionState> {
        if s == SessionState::WaitingForController.text() {
            Some(SessionState::WaitingForController)
        } else if s == SessionState::InProgress.text() {
            Some(SessionState::InProgress)
        } else {
            None
        }
    }

    /// The string form of the state, borrowed.
    pub fn as_str(&self) -> (s: &'static str)
        ensures
            s@ == self.text(),
    {
        match self {
            SessionState::WaitingForController => "waiting_for_controller",
            SessionState::InProgress => "in_progress",
        }
    }

    /// The string form of the state, owned.
    pub fn to_string(&self) -> (s: String)
        ensures
            s@ == self.text(),
    {
        self.as_str().to_owned()
    }

    /// Every state parses back from its own string form.
    pub proof fn lemma_text_round_trip(state: SessionState)
        ensures
            SessionState::parse(state.text()) == Some(state),
    {
        reveal_strlit("waiting_for_controller");
        reveal_strlit("in_progress");
        assert("waiting_for_controller"@.len() != "in_progress"@.len());
    }

    /// A string parses only if it is the string form of the state it parses
    /// to: any other string fails.
    pub proof fn lemma_parse_is_exact(s: Seq<char>)
        ensures
            SessionState::parse(s) matches Some(state) ==> s == state.text(),
            (forall|state: SessionState| s != state.text()) ==> SessionState::parse(s) is None,
    {
    }

    /// Two states with the same string form are the same state.
    pub proof fn lemma_text_is_injective(a: SessionState, b: SessionState)
        requires
            a.text() == b.text(),
        ensures
            a == b,
    {
        Self::lemma_text_round_trip(a);
        Self::lemma_text_round_trip(b);
    }
}

impl TryFrom<String> for SessionState {
    type Error = ParseSessionStateError;

    /// Reads a state from its string form. Any other string is handed back
    /// in the error.
    fn try_from(s: String) -> (result: Result<SessionState, ParseSessionStateError>) {
        if s == "waiting_for_controller".to_owned() {
            Ok(SessionState::WaitingForController)
        } else if s == "in_progress".to_owned() {
            Ok(SessionState::InProgress)
        } else {
            Err(ParseSessionStateError(s))
        }
    }
}

impl TryFromSpecImpl<String> for SessionState {
    open spec fn obeys_try_from_spec() -> bool {
        true
    }

    /// What `try_from` returns: the state that the string stands for, or
    /// the string itself as the error.
    open spec fn try_from_spec(s: String) -> Result<SessionState, ParseSessionStateError> {
        match SessionState::parse(s@) {
            Some(state) => Ok(state),
            None => Err(ParseSessionStateError(s)),
        }
    }
}

/// How the backend of a store let an operation down.
#[derive(Debug)]
pub enum IoFailure {
    /// The backend, or the way to it, failed; the field holds what was
    /// reported.
    Backend(String),
    /// The backend gave a reply that does not answer what it was asked.
    UnexpectedReply,
}

/// Why a session could not be created.
#[derive(Debug)]
pub enum CreateSessionError {
    /// The identifier picked for the new session is already in use.
    UnexpectedSessionIdAlreadyInUse(SessionId),
    IoError(IoFailure),
}

/// Why the state of a session could not be changed.
#[derive(Debug)]
pub enum UpdateSessionStateError {
    /// There is no session with this identifier.
    UnknownSession(SessionId),
    IoError(IoFailure),
}

/// Why a session could not be deleted.
#[derive(Debug)]
pub enum DeleteSessionError {
    IoError(IoFailure),
}

/// Why the state of a session could not be read.
#[derive(Debug)]
pub enum GetSessionStateError {
    IoError(IoFailure),
    /// The stored value is the string form of no state: the store is
    /// corrupted.
    InvalidState(ParseSessionStateError),
}

/// Why the existence of a session could not be checked.
#[derive(Debug)]
pub enum ExistsSessionError {
    IoError(IoFailure),
}

/// What a session store holds: the state of each session that exists.
pub type Sessions = Map<SessionId, SessionState>;

/// What a store that does not fail does when it is asked for a new session
/// and picks the identifier `id` for it: an identifier in use is reported,
/// and nothing is overwritten; a free one is taken by a session that waits
/// for a controller.
pub open spec fn create_session(sessions: Sessions, id: SessionId) -> (
    Sessions,
    Result<SessionId, CreateSessionError>,
) {
    if sessions.contains_key(id) {
        (sessions, Err(CreateSessionError::UnexpectedSessionIdAlreadyInUse(id)))
    } else {
        (sessions.insert(id, SessionState::WaitingForController), Ok(id))
    }
}

/// What a store that does not fail holds after it was asked to delete a
/// session.
pub open spec fn delete_session(sessions: Sessions, id: SessionId) -> (
    Sessions,
    Result<(), DeleteSessionError>,
) {
    (sessions.remove(id), Ok(()))
}

/// What a store that does not fail reports as the state of a session:
/// nothing where there is no such session.
pub open spec fn session_state(sessions: Sessions, id: SessionId) -> Result<
    Option<SessionState>,
    GetSessionStateError,
> {
    if sessions.contains_key(id) {
        Ok(Some(sessions[id]))
    } else {
        Ok(None)
    }
}

/// What a store that does not fail reports of the existence of a session.
pub open spec fn exists_session(sessions: Sessions, id: SessionId) -> Result<
    bool,
    ExistsSessionError,
> {
    Ok(sessions.contains_key(id))
}

/// What a store that does not fail does when it is asked to change the
/// state of a session: an unknown session is reported, and is not created.
pub open spec fn update_session_state(sessions: Sessions, id: SessionId, state: SessionState) -> (
    Sessions,
    Result<(), UpdateSessionStateError>,
) {
    if sessions.contains_key(id) {
        (sessions.insert(id, state), Ok(()))
    } else {
        (sessions, Err(UpdateSessionStateError::UnknownSession(id)))
    }
}

} // verus!
