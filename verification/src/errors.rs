//! The error taxonomy of the system.
//!
//! A caller must always be able to tell "the server ran the handler and the
//! handler failed" (an application error) from "the call never reached or
//! never returned from the server" (a transport failure).

use vstd::prelude::*;

verus! {

/// Why schema bootstrap failed.  Fatal at startup: the server must not
/// accept procedure calls after such a failure.
#[derive(Clone, Copy, Debug, PartialEq, Eq, Structural)]
pub enum SchemaError {
    /// The store could not be reached at all.
    StoreUnreachable,
    /// The recorded migration history does not match the ordered migration
    /// plan, so applying the remaining steps would corrupt the schema.
    MigrationStepFailed,
}

/// An application-level failure: the server executed a procedure and the
/// procedure reported failure.
#[derive(Clone, Copy, Debug, PartialEq, Eq, Structural)]
pub enum AppError {
    /// The store was unreachable when the procedure opened its connection.
    Connection,
    /// A positional statement parameter had the wrong shape or type.
    Bind,
    /// The store executed the statement and refused it (its row-id space
    /// is exhausted).
    Storage,
}

/// What one remote procedure call looks like from the client: either the
/// server answered (possibly with an application error), or the transport
/// itself failed and nothing is known about server-side execution.
#[derive(Clone, Copy, Debug, PartialEq, Eq, Structural)]
pub enum CallError {
    /// The server executed the procedure and reported this failure.
    Application(AppError),
    /// The request never completed; the server may or may not have run.
    Transport,
}

impl AppError {
    /// The diagnostic text of this error, as a sequence of characters.
    pub open spec fn message_view(self) -> Seq<char> {
        match self {
            AppError::Connection => "store unreachable"@,
            AppError::Bind => "bind type mismatch"@,
            AppError::Storage => "store refused the statement"@,
        }
    }

    /// Renders the diagnostic text shown to the user for this error.
    pub fn message(&self) -> (r: String)
        ensures
            r@ == self.message_view(),
    {
        match self {
            AppError::Connection => String::from_str("store unreachable"),
            AppError::Bind => String::from_str("bind type mismatch"),
            AppError::Storage => String::from_str("store refused the statement"),
        }
    }
}

impl CallError {
    /// The diagnostic text of this error, as a sequence of characters.
    pub open spec fn message_view(self) -> Seq<char> {
        match self {
            CallError::Application(e) => e.message_view(),
            CallError::Transport => "transport failure"@,
        }
    }

    /// Renders the diagnostic text shown to the user for this error.
    pub fn message(&self) -> (r: String)
        ensures
            r@ == self.message_view(),
    {
        match self {
            CallError::Application(e) => e.message(),
            CallError::Transport => String::from_str("transport failure"),
        }
    }

    /// True exactly of the errors that mean the server ran the procedure.
    pub fn is_application(&self) -> (r: bool)
        ensures
            r == (self matches CallError::Application(_)),
    {
        match self {
            CallError::Application(_) => true,
            CallError::Transport => false,
        }
    }
}

} // verus!
