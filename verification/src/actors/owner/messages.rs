//! The messages of the owner side.

use vstd::prelude::*;
use crate::sessions::port::SessionId;
use crate::socket::wire::{members, Field};

verus! {

/// Why a session was not started.
#[derive(Clone, Copy, Debug, PartialEq, Eq, Structural)]
pub enum StartSessionError {
    AlreadyInASession,
    ServerError,
}

impl StartSessionError {
    /// The name of the error on the wire.
    pub open spec fn name(self) -> Seq<char> {
        match self {
            StartSessionError::AlreadyInASession => "already_in_a_session"@,
            StartSessionError::ServerError => "server_error"@,
        }
    }

    /// The name of the error on the wire.
    pub fn as_str(&self) -> (s: &'static str)
        ensures
            s@ == self.name(),
    {
        match self {
            StartSessionError::AlreadyInASession => "already_in_a_session",
            StartSessionError::ServerError => "server_error",
        }
    }
}

/// The answer to a request to start a session.
#[derive(Clone, Copy, Debug, PartialEq, Eq, Structural)]
pub enum StartSessionResponse {
    /// No session was started.
    Error { kind: StartSessionError },
    /// The session was started under this identifier.
    Success { session_id: SessionId },
}

impl StartSessionResponse {
    /// The refusal of the given kind.
    pub fn error(kind: StartSessionError) -> (response: Self)
        ensures
            response == (StartSessionResponse::Error { kind }),
    {
        Self::Error { kind }
    }

    /// The members of the answer on the wire: its type, and the kind of the
    /// refusal or the id of the session in its string form.
    pub open spec fn wire(self) -> Seq<(Seq<char>, Seq<char>)> {
        match self {
            StartSessionResponse::Error { kind } => seq![
                ("type"@, "error"@),
                ("kind"@, kind.name()),
            ],
            StartSessionResponse::Success { session_id } => seq![
                ("type"@, "ok"@),
                ("session_id"@, session_id.text()),
            ],
        }
    }

    /// The members of the answer on the wire.
    pub fn fields(&self) -> (fields: Vec<Field>)
        ensures
            members(fields@) == self.wire(),
    {
        let mut fields = Vec::new();
        match self {
            StartSessionResponse::Error { kind } => {
                fields.push(Field::new("type", "error"));
                fields.push(Field::new("kind", kind.as_str()));
            },
            StartSessionResponse::Success { session_id } => {
                let id = session_id.to_string();
                fields.push(Field::new("type", "ok"));
                fields.push(Field::new("session_id", id.as_str()));
            },
        }
        assert(members(fields@) =~= self.wire());
        fields
    }
}

} // verus!
