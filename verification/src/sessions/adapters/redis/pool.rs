//! The commands that the session store sends to its key-value backend, the
//! replies that it takes, and a model of the backend.

use vstd::prelude::*;

verus! {

/// One command for the key-value backend.
#[derive(Debug)]
pub enum Command {
    /// Does a value exist under `key`?
    Exists { key: String },
    /// Read the value under `key`.
    GetStr { key: String },
    /// Write `value` under `key`. With `expire` the value is to expire after
    /// that many seconds; without, it never expires.
    SetStr { key: String, value: String, expire: Option<i64> },
    /// Delete what is under `key`.
    DeleteKey { key: String },
}

/// What a `Command` says.
pub enum CommandView {
    Exists { key: Seq<char> },
    GetStr { key: Seq<char> },
    SetStr { key: Seq<char>, value: Seq<char>, expire: Option<i64> },
    DeleteKey { key: Seq<char> },
}

impl View for Command {
    type V = CommandView;

    open spec fn view(&self) -> CommandView {
        match *self {
            Command::Exists { key } => CommandView::Exists { key: key@ },
            Command::GetStr { key } => CommandView::GetStr { key: key@ },
            Command::SetStr { key, value, expire } => CommandView::SetStr {
                key: key@,
                value: value@,
                expire,
            },
            Command::DeleteKey { key } => CommandView::DeleteKey { key: key@ },
        }
    }
}

/// What the backend answered to a command.
#[derive(Debug)]
pub enum Reply {
    /// To `Exists`: whether there is a value.
    Exists(bool),
    /// To `GetStr`: the value, if there is one.
    Value(Option<String>),
    /// To `SetStr` and `DeleteKey`: it is done.
    Done,
    /// To any command: it failed, and this is what was reported.
    Failed(String),
}

/// The expiry that goes with a write under a time-to-live of `ttl_seconds`:
/// only a positive time-to-live makes a value expire.
pub open spec fn expiry(ttl_seconds: Option<i64>) -> Option<i64> {
    match ttl_seconds {
        Some(seconds) if seconds > 0 => Some(seconds),
        _ => None,
    }
}

/// The command that writes `value` under `key`, to expire as `ttl_seconds`
/// says.
pub fn set_str(key: String, value: String, ttl_seconds: Option<i64>) -> (command: Command)
    ensures
        command@ == (CommandView::SetStr { key: key@, value: value@, expire: expiry(ttl_seconds) }),
{
    let expire = match ttl_seconds {
        Some(seconds) if seconds > 0 => Some(seconds),
        _ => None,
    };
    Command::SetStr { key, value, expire }
}

/// The command that reads the value under `key`.
pub fn get_str(key: String) -> (command: Command)
    ensures
        command@ == (CommandView::GetStr { key: key@ }),
{
    Command::GetStr { key }
}

/// The command that asks whether a value exists under `key`.
pub fn exists_key(key: String) -> (command: Command)
    ensures
        command@ == (CommandView::Exists { key: key@ }),
{
    Command::Exists { key }
}

/// The command that deletes what is under `key`.
pub fn delete_key(key: String) -> (command: Command)
    ensures
        command@ == (CommandView::DeleteKey { key: key@ }),
{
    Command::DeleteKey { key }
}

/// What the backend holds under one key.
pub struct Entry {
    pub value: Seq<char>,
    /// After how many seconds the value expires, if it does.
    pub expire: Option<i64>,
}

/// A backend at one moment, before anything in it has expired: what it
/// holds under each key.
pub type Backend = Map<Seq<char>, Entry>;

/// What a backend that does not fail holds after a command.
pub open spec fn perform(backend: Backend, command: CommandView) -> Backend {
    match command {
        CommandView::Exists { key } => backend,
        CommandView::GetStr { key } => backend,
        CommandView::SetStr { key, value, expire } => backend.insert(key, Entry { value, expire }),
        CommandView::DeleteKey { key } => backend.remove(key),
    }
}

/// Whether `value` is what the backend holds under `key`: the value there,
/// or nothing where there is none.
pub open spec fn is_value_of(backend: Backend, key: Seq<char>, value: Option<String>) -> bool {
    match value {
        Some(text) => backend.contains_key(key) && backend[key].value == text@,
        None => !backend.contains_key(key),
    }
}

/// What a backend that does not fail answers to a command; `value` is what
/// it hands out where the command asks for a value.
pub open spec fn answer(backend: Backend, command: CommandView, value: Option<String>) -> Reply {
    match command {
        CommandView::Exists { key } => Reply::Exists(backend.contains_key(key)),
        CommandView::GetStr { key } => Reply::Value(value),
        CommandView::SetStr { key, value, expire } => Reply::Done,
        CommandView::DeleteKey { key } => Reply::Done,
    }
}

} // verus!
