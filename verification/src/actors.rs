//! The two sides of a session and the choice between them.

pub mod controller;
pub mod owner;
pub mod world;

use vstd::prelude::*;
use crate::socket::port::CallerEvent;
use crate::socket::wire::{find, member, members, same_text, Field};

verus! {

/// The side of a session that a connection takes.
#[derive(Clone, Copy, Debug, PartialEq, Eq, Structural)]
pub enum Role {
    /// The side that creates the session and is controlled.
    Owner,
    /// The side that joins the session and sends commands.
    Controller,
}

impl Role {
    /// The name of the role in the credentials of a connection.
    pub open spec fn name(self) -> Seq<char> {
        match self {
            Role::Owner => "owner"@,
            Role::Controller => "controller"@,
        }
    }

    /// The role that the given name stands for, if it stands for one.
    pub open spec fn from_name(name: Seq<char>) -> Option<Role> {
        if name == Role::Owner.name() {
            Some(Role::Owner)
        } else if name == Role::Controller.name() {
            Some(Role::Controller)
        } else {
            None
        }
    }

    /// The name of the role in the credentials of a connection.
    pub fn as_str(&self) -> (s: &'static str)
        ensures
            s@ == self.name(),
    {
        match self {
            Role::Owner => "owner",
            Role::Controller => "controller",
        }
    }

    /// Reads a role from its name.
    pub fn parse(name: &str) -> (role: Option<Role>)
        ensures
            role == Role::from_name(name@),
    {
        if same_text(name, "owner") {
            Some(Role::Owner)
        } else if same_text(name, "controller") {
            Some(Role::Controller)
        } else {
            None
        }
    }

    /// Every role is read back from its name.
    pub proof fn lemma_name_round_trip(role: Role)
        ensures
            Role::from_name(role.name()) == Some(role),
    {
        reveal_strlit("owner");
        reveal_strlit("controller");
        assert("owner"@.len() != "controller"@.len());
    }
}

/// The credentials that a connection presents.
#[derive(Clone, Copy, Debug, PartialEq, Eq, Structural)]
pub struct Auth {
    pub role: Role,
}

impl Auth {
    /// Reads credentials from their members on the wire: the member `role`
    /// names the role.
    pub fn from_fields(fields: &Vec<Field>) -> (auth: Option<Auth>)
        ensures
            auth == match member(members(fields@), "role"@) {
                Some(name) => match Role::from_name(name) {
                    Some(role) => Some(Auth { role }),
                    None => None,
                },
                None => None,
            },
    {
        match find(fields, "role") {
            Some(name) => match Role::parse(name) {
                Some(role) => Some(Auth { role }),
                None => None,
            },
            None => None,
        }
    }
}

/// Why a connection is refused.
#[derive(Clone, Copy, Debug, PartialEq, Eq, Structural)]
pub enum ConnectError {
    Unauthorized,
}

impl ConnectError {
    /// The name of the reason on the wire.
    pub open spec fn name(self) -> Seq<char> {
        match self {
            ConnectError::Unauthorized => "unauthorized"@,
        }
    }

    /// The name of the reason on the wire.
    pub fn as_str(&self) -> (s: &'static str)
        ensures
            s@ == self.name(),
    {
        match self {
            ConnectError::Unauthorized => "unauthorized",
        }
    }
}

/// What a refused connection is told.
#[derive(Clone, Copy, Debug, PartialEq, Eq, Structural)]
pub struct ConnectErrorResponse {
    pub reason: ConnectError,
}

impl ConnectErrorResponse {
    /// The refusal for the given reason.
    pub fn with_reason(reason: ConnectError) -> (response: Self)
        ensures
            response == (ConnectErrorResponse { reason }),
    {
        ConnectErrorResponse { reason }
    }

    /// The members of the refusal on the wire: its reason.
    pub open spec fn wire(self) -> Seq<(Seq<char>, Seq<char>)> {
        seq![("reason"@, self.reason.name())]
    }

    /// The members of the refusal on the wire.
    pub fn fields(&self) -> (fields: Vec<Field>)
        ensures
            members(fields@) == self.wire(),
    {
        let mut fields = Vec::new();
        fields.push(Field::new("reason", self.reason.as_str()));
        assert(members(fields@) =~= self.wire());
        fields
    }
}

/// What is to be done with a new connection.
#[derive(Clone, Copy, Debug, PartialEq, Eq, Structural)]
pub enum ConnectAction {
    /// Send `response` under the name `name` to the connection, whether or
    /// not that succeeds, and close it.
    Reject { name: CallerEvent, response: ConnectErrorResponse },
    /// Serve the connection in the given role, and in no other.
    Serve { role: Role },
}

/// What becomes of a connection whose credentials were read as `auth`:
/// credentials that could not be read are refused as unauthorized; valid
/// ones select the one side that they name.
pub open spec fn route<E>(auth: Result<Auth, E>) -> ConnectAction {
    match auth {
        Ok(auth) => ConnectAction::Serve { role: auth.role },
        Err(_) => ConnectAction::Reject {
            name: CallerEvent::ConnectError,
            response: ConnectErrorResponse { reason: ConnectError::Unauthorized },
        },
    }
}

/// Decides what to do with a new connection from the credentials that it
/// presented; `auth` is an error when they could not be read.
pub fn on_connect<E>(auth: Result<Auth, E>) -> (action: ConnectAction)
    ensures
        action == route(auth),
{
    let role = match auth {
        Ok(data) => data.role,
        Err(_) => {
            return ConnectAction::Reject {
                name: CallerEvent::ConnectError,
                response: ConnectErrorResponse::with_reason(ConnectError::Unauthorized),
            };
        },
    };
    ConnectAction::Serve { role }
}

} // verus!
