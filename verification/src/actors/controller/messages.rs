//! The messages of the controller side.

use vstd::prelude::*;
use crate::sessions::port::SessionId;
use crate::socket::wire::{find, member, members, same_text, Field};

verus! {

/// A controller asks to join a session.
#[derive(Debug, PartialEq, Eq)]
pub struct JoinSessionRequest {
    pub session_id: SessionId,
    /// Shown to the owner with the request for permission.
    pub message: String,
}

impl JoinSessionRequest {
    /// The request that arrives on the wire with the members `session_id`
    /// and `message`: there is one if `session_id` is the text of an
    /// identifier.
    pub fn from_wire(session_id: &str, message: String) -> (request: Option<JoinSessionRequest>)
        ensures
            match SessionId::from_text(session_id@) {
                Some(id) => request == Some(JoinSessionRequest { session_id: id, message }),
                None => request is None,
            },
    {
        match SessionId::parse(session_id) {
            Some(session_id) => Some(JoinSessionRequest { session_id, message }),
            None => None,
        }
    }

    /// What the members of a request on the wire say: the session, if the
    /// member `session_id` is there and is the text of an identifier, and
    /// the message, if the member `message` is there.
    pub open spec fn read(fields: Seq<(Seq<char>, Seq<char>)>) -> Option<(SessionId, Seq<char>)> {
        match (member(fields, "session_id"@), member(fields, "message"@)) {
            (Some(id), Some(message)) => match SessionId::from_text(id) {
                Some(session_id) => Some((session_id, message)),
                None => None,
            },
            _ => None,
        }
    }

    /// Reads a request from its members on the wire. Members that it does
    /// not know are passed over.
    pub fn from_fields(fields: &Vec<Field>) -> (request: Option<JoinSessionRequest>)
        ensures
            match JoinSessionRequest::read(members(fields@)) {
                Some((session_id, message)) => request is Some && request->0.session_id
                    == session_id && request->0.message@ == message,
                None => request is None,
            },
    {
        let session_id = find(fields, "session_id");
        let message = find(fields, "message");
        match (session_id, message) {
            (Some(session_id), Some(message)) => JoinSessionRequest::from_wire(
                session_id,
                message.to_owned(),
            ),
            _ => None,
        }
    }
}

/// Why a join was not granted.
#[derive(Clone, Copy, Debug, PartialEq, Eq, Structural)]
pub enum JoinSessionErrorKind {
    AlreadyInASession,
    SessionNotFound,
    SessionFull,
    ServerError,
    HubResponseTimeout,
    Rejected,
}

impl JoinSessionErrorKind {
    /// The name of the kind on the wire.
    pub open spec fn name(self) -> Seq<char> {
        match self {
            JoinSessionErrorKind::AlreadyInASession => "already_in_a_session"@,
            JoinSessionErrorKind::SessionNotFound => "session_not_found"@,
            JoinSessionErrorKind::SessionFull => "session_full"@,
            JoinSessionErrorKind::ServerError => "server_error"@,
            JoinSessionErrorKind::HubResponseTimeout => "hub_response_timeout"@,
            JoinSessionErrorKind::Rejected => "rejected"@,
        }
    }

    /// The name of the kind on the wire.
    pub fn as_str(&self) -> (s: &'static str)
        ensures
            s@ == self.name(),
    {
        match self {
            JoinSessionErrorKind::AlreadyInASession => "already_in_a_session",
            JoinSessionErrorKind::SessionNotFound => "session_not_found",
            JoinSessionErrorKind::SessionFull => "session_full",
            JoinSessionErrorKind::ServerError => "server_error",
            JoinSessionErrorKind::HubResponseTimeout => "hub_response_timeout",
            JoinSessionErrorKind::Rejected => "rejected",
        }
    }
}

/// The answer to a join request.
#[derive(Clone, Copy, Debug, PartialEq, Eq, Structural)]
pub enum JoinSessionResponse {
    /// The join was not granted.
    Error { kind: JoinSessionErrorKind },
    /// The controller is in the session.
    Success {  },
}

impl JoinSessionResponse {
    /// The refusal of the given kind.
    pub fn with_err(kind: JoinSessionErrorKind) -> (response: Self)
        ensures
            response == (JoinSessionResponse::Error { kind }),
    {
        Self::Error { kind }
    }

    /// The members of the answer on the wire: its type, and for a refusal
    /// its kind.
    pub open spec fn wire(self) -> Seq<(Seq<char>, Seq<char>)> {
        match self {
            JoinSessionResponse::Error { kind } => seq![
                ("type"@, "error"@),
                ("kind"@, kind.name()),
            ],
            JoinSessionResponse::Success {  } => seq![("type"@, "ok"@)],
        }
    }

    /// The members of the answer on the wire.
    pub fn fields(&self) -> (fields: Vec<Field>)
        ensures
            members(fields@) == self.wire(),
    {
        let mut fields = Vec::new();
        match self {
            JoinSessionResponse::Error { kind } => {
                fields.push(Field::new("type", "error"));
                fields.push(Field::new("kind", kind.as_str()));
            },
            JoinSessionResponse::Success {  } => {
                fields.push(Field::new("type", "ok"));
            },
        }
        assert(members(fields@) =~= self.wire());
        fields
    }
}

/// The owner is asked whether a controller may join.
#[derive(Debug, PartialEq, Eq)]
pub struct JoinSessionPermissionRequest {
    /// The message that the controller sent with its request.
    pub message: String,
}

impl JoinSessionPermissionRequest {
    /// The members of the request on the wire: its message.
    pub open spec fn wire(self) -> Seq<(Seq<char>, Seq<char>)> {
        seq![("message"@, self.message@)]
    }

    /// The members of the request on the wire.
    pub fn fields(&self) -> (fields: Vec<Field>)
        ensures
            members(fields@) == self.wire(),
    {
        let mut fields = Vec::new();
        fields.push(Field::new("message", self.message.as_str()));
        assert(members(fields@) =~= self.wire());
        fields
    }
}

/// The owner's answer to a request for permission.
#[derive(Clone, Copy, Debug, PartialEq, Eq, Structural)]
pub enum JoinSessionPermissionResponse {
    Accept,
    Reject,
}

impl JoinSessionPermissionResponse {
    /// The type under which the answer travels on the wire.
    pub open spec fn name(self) -> Seq<char> {
        match self {
            JoinSessionPermissionResponse::Accept => "accept"@,
            JoinSessionPermissionResponse::Reject => "reject"@,
        }
    }

    /// The answer that travels under the given type, if there is one.
    pub open spec fn from_name(name: Seq<char>) -> Option<JoinSessionPermissionResponse> {
        if name == JoinSessionPermissionResponse::Accept.name() {
            Some(JoinSessionPermissionResponse::Accept)
        } else if name == JoinSessionPermissionResponse::Reject.name() {
            Some(JoinSessionPermissionResponse::Reject)
        } else {
            None
        }
    }

    /// The type under which the answer travels on the wire.
    pub fn as_str(&self) -> (s: &'static str)
        ensures
            s@ == self.name(),
    {
        match self {
            JoinSessionPermissionResponse::Accept => "accept",
            JoinSessionPermissionResponse::Reject => "reject",
        }
    }

    /// Reads the answer that arrived on the wire with the given type.
    pub fn parse(name: &str) -> (response: Option<JoinSessionPermissionResponse>)
        ensures
            response == JoinSessionPermissionResponse::from_name(name@),
    {
        if same_text(name, "accept") {
            Some(JoinSessionPermissionResponse::Accept)
        } else if same_text(name, "reject") {
            Some(JoinSessionPermissionResponse::Reject)
        } else {
            None
        }
    }

    /// Reads the answer from its members on the wire: the member `type`
    /// says which it is.
    pub fn from_fields(fields: &Vec<Field>) -> (response: Option<JoinSessionPermissionResponse>)
        ensures
            response == match member(members(fields@), "type"@) {
                Some(name) => JoinSessionPermissionResponse::from_name(name),
                None => None,
            },
    {
        match find(fields, "type") {
            Some(name) => JoinSessionPermissionResponse::parse(name),
            None => None,
        }
    }

    /// Every answer is read back from the type under which it travels.
    pub proof fn lemma_name_round_trip(response: JoinSessionPermissionResponse)
        ensures
            JoinSessionPermissionResponse::from_name(response.name()) == Some(response),
    {
        reveal_strlit("accept");
        reveal_strlit("reject");
        assert("accept"@[0] != "reject"@[0]);
    }
}

/// Why a command of the controller was not served.
#[derive(Clone, Copy, Debug, PartialEq, Eq, Structural)]
pub enum ControllerErrorKind {
    /// The controller is in no session.
    Permissions,
    /// The command could not be relayed to the room.
    VibrateCmdSendError,
}

impl ControllerErrorKind {
    /// The name of the kind on the wire.
    pub open spec fn name(self) -> Seq<char> {
        match self {
            ControllerErrorKind::Permissions => "permissions"@,
            ControllerErrorKind::VibrateCmdSendError => "vibrate_cmd_send_error"@,
        }
    }

    /// The name of the kind on the wire.
    pub fn as_str(&self) -> (s: &'static str)
        ensures
            s@ == self.name(),
    {
        match self {
            ControllerErrorKind::Permissions => "permissions",
            ControllerErrorKind::VibrateCmdSendError => "vibrate_cmd_send_error",
        }
    }
}

/// An error reported to the controller.
#[derive(Debug)]
pub struct ControllerErrorMsg {
    kind: ControllerErrorKind,
    message: String,
}

/// What a `ControllerErrorMsg` says.
pub struct ControllerErrorMsgView {
    pub kind: ControllerErrorKind,
    pub message: Seq<char>,
}

impl View for ControllerErrorMsg {
    type V = ControllerErrorMsgView;

    closed spec fn view(&self) -> ControllerErrorMsgView {
        ControllerErrorMsgView { kind: self.kind, message: self.message@ }
    }
}

impl ControllerErrorMsg {
    /// The error of the given kind with the given explanation.
    pub fn new(kind: ControllerErrorKind, message: &str) -> (msg: Self)
        ensures
            msg@ == (ControllerErrorMsgView { kind, message: message@ }),
    {
        Self { kind, message: message.to_owned() }
    }

    /// The kind of the error.
    pub fn kind(&self) -> (kind: ControllerErrorKind)
        ensures
            kind == self@.kind,
    {
        self.kind
    }

    /// The explanation that goes with the error.
    pub fn message(&self) -> (message: &str)
        ensures
            message@ == self@.message,
    {
        self.message.as_str()
    }

    /// The members of the error on the wire.
    pub fn fields(&self) -> (fields: Vec<Field>)
        ensures
            members(fields@) == self@.wire(),
    {
        let mut fields = Vec::new();
        fields.push(Field::new("kind", self.kind.as_str()));
        fields.push(Field::new("message", self.message.as_str()));
        assert(members(fields@) =~= self@.wire());
        fields
    }
}

impl ControllerErrorMsgView {
    /// The members of the error on the wire: its kind and its explanation.
    pub open spec fn wire(self) -> Seq<(Seq<char>, Seq<char>)> {
        seq![("kind"@, self.kind.name()), ("message"@, self.message)]
    }
}

} // verus!
