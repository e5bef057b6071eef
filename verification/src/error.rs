//! The closed set of failure kinds, and the single message that a caller
//! outside gets to see.

use vstd::prelude::*;

verus! {

/// Why a command failed.
#[derive(Clone, Copy, Debug, PartialEq, Eq, Structural)]
pub enum ErrorKind {
    /// A task, user or session that had to be there is absent.
    NotFound,
    /// The timer was to be changed while no session is active.
    NoActiveSession,
    /// The store refused a write for the sake of its integrity rules.
    ConstraintViolation,
    /// The store could not be reached or is damaged.
    IOFailure,
}

/// Which integrity rule of the store a write would have broken, as the
/// store's driver tells them apart.
#[derive(Clone, Copy, Debug, PartialEq, Eq, Structural)]
pub enum RuleKind {
    Unique,
    ForeignKey,
    NotNull,
    Check,
    /// No rule that the driver knows by name.
    Other,
}

/// What a failure of the store amounts to.
#[derive(Clone, Copy, Debug, PartialEq, Eq, Structural)]
pub enum StoreFault {
    /// A query that had to give a row gave none.
    MissingRow,
    /// The database itself reported an error.
    Database(RuleKind),
    /// Anything else: the store could not be reached, or what it holds
    /// could not be read.
    Other,
}

impl StoreFault {
    /// The failure kind that a fault of the store is reported under: a
    /// missing row is `NotFound`, a broken rule that the driver knows by
    /// name is `ConstraintViolation`, everything else is `IOFailure`.
    pub open spec fn kind(self) -> ErrorKind {
        match self {
            StoreFault::MissingRow => ErrorKind::NotFound,
            StoreFault::Database(RuleKind::Other) => ErrorKind::IOFailure,
            StoreFault::Database(_) => ErrorKind::ConstraintViolation,
            StoreFault::Other => ErrorKind::IOFailure,
        }
    }

    /// The failure kind that a fault of the store is reported under.
    pub fn to_kind(self) -> (r: ErrorKind)
        ensures
            r == self.kind(),
    {
        match self {
            StoreFault::MissingRow => ErrorKind::NotFound,
            StoreFault::Database(rule) => match rule {
                RuleKind::Other => ErrorKind::IOFailure,
                _ => ErrorKind::ConstraintViolation,
            },
            StoreFault::Other => ErrorKind::IOFailure,
        }
    }
}

/// A failed command: its kind, and the message handed to the caller.
#[derive(Debug, PartialEq, Eq)]
pub struct CommandError {
    pub kind: ErrorKind,
    pub message: String,
}

/// Mathematical content of a [`CommandError`].
pub struct CommandErrorView {
    pub kind: ErrorKind,
    pub message: Seq<char>,
}

impl View for CommandError {
    type V = CommandErrorView;

    open spec fn view(&self) -> CommandErrorView {
        CommandErrorView { kind: self.kind, message: self.message@ }
    }
}

impl CommandErrorView {
    /// The failure of a timer change that found no active session.
    pub open spec fn no_active_session() -> CommandErrorView {
        CommandErrorView { kind: ErrorKind::NoActiveSession, message: "No active session"@ }
    }

    /// The failure of an update that found no row to update.
    pub open spec fn not_found() -> CommandErrorView {
        CommandErrorView {
            kind: ErrorKind::NotFound,
            message: "no rows returned by a query that expected to return at least one row"@,
        }
    }
}

impl CommandError {
    /// The failure of a timer change that found no active session.
    pub fn no_active_session() -> (r: CommandError)
        ensures
            r@ == CommandErrorView::no_active_session(),
    {
        CommandError { kind: ErrorKind::NoActiveSession, message: "No active session".to_owned() }
    }

    /// The failure of an update that found no row to update.
    pub fn not_found() -> (r: CommandError)
        ensures
            r@ == CommandErrorView::not_found(),
    {
        CommandError {
            kind: ErrorKind::NotFound,
            message: "no rows returned by a query that expected to return at least one row".to_owned(),
        }
    }

    /// A failure of the store: the fault that the driver's error amounts
    /// to, under the kind it is reported as, with the driver's own words.
    pub fn storage(fault: StoreFault, message: String) -> (r: CommandError)
        ensures
            r.kind == fault.kind(),
            r.message == message,
    {
        CommandError { kind: fault.to_kind(), message }
    }

    /// The one message that crosses to the caller: no kind, only words.
    pub fn to_string(&self) -> (r: String)
        ensures
            r@ == self@.message,
    {
        self.message.clone()
    }
}

} // verus!
