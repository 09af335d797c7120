//! Command failures with their stable codes, exit codes and payloads.

use vstd::prelude::*;

use crate::control_api::ErrorPayload;

verus! {

/// Why a command failed.
#[derive(Debug)]
pub enum CommandError {
    /// The request was malformed or names something that does not exist.
    InvalidInput(String),
    /// The daemon or the recorder control plane could not be reached.
    NotAvailable(String),
    /// Anything else; the text is the full error chain.
    Internal(String),
}

/// The process exit code of each kind of failure.
pub open spec fn exit_code_of(e: CommandError) -> i32 {
    match e {
        CommandError::Internal(_) => 1,
        CommandError::InvalidInput(_) => 2,
        CommandError::NotAvailable(_) => 3,
    }
}

/// The stable error code of each kind of failure.
pub open spec fn code_of(e: CommandError) -> Seq<char> {
    match e {
        CommandError::InvalidInput(_) => "InvalidInput"@,
        CommandError::NotAvailable(_) => "NotAvailable"@,
        CommandError::Internal(_) => "Internal"@,
    }
}

/// The text a failure carries.
pub open spec fn message_of(e: CommandError) -> Seq<char> {
    match e {
        CommandError::InvalidInput(m) => m@,
        CommandError::NotAvailable(m) => m@,
        CommandError::Internal(m) => m@,
    }
}

/// The kind of failure that an error payload's exit code stands for: 2 and 3
/// are the two expected kinds, every other code is an internal failure.
pub open spec fn kind_of_exit_code(code: i32, message: Seq<char>, e: CommandError) -> bool {
    &&& message_of(e) == message
    &&& (code == 2 ==> e is InvalidInput)
    &&& (code == 3 ==> e is NotAvailable)
    &&& (code != 2 && code != 3 ==> e is Internal)
}

impl CommandError {
    /// Process exit code: 1 internal, 2 invalid input, 3 not available.
    pub fn exit_code(&self) -> (r: i32)
        ensures
            r == exit_code_of(*self),
    {
        match self {
            CommandError::Internal(_) => 1,
            CommandError::InvalidInput(_) => 2,
            CommandError::NotAvailable(_) => 3,
        }
    }

    /// Stable machine-readable code.
    pub fn code(&self) -> (r: &'static str)
        ensures
            r@ == code_of(*self),
    {
        match self {
            CommandError::InvalidInput(_) => "InvalidInput",
            CommandError::NotAvailable(_) => "NotAvailable",
            CommandError::Internal(_) => "Internal",
        }
    }

    /// Human-readable text.
    pub fn message(&self) -> (r: String)
        ensures
            r@ == message_of(*self),
    {
        match self {
            CommandError::InvalidInput(m) => m.clone(),
            CommandError::NotAvailable(m) => m.clone(),
            CommandError::Internal(m) => m.clone(),
        }
    }

    /// The payload the daemon answers a failed command with.
    pub fn to_payload(&self) -> (p: ErrorPayload)
        ensures
            p.error_code@ == code_of(*self),
            p.message@ == message_of(*self),
            p.exit_code == exit_code_of(*self),
    {
        ErrorPayload {
            error_code: String::from_str(self.code()),
            message: self.message(),
            exit_code: self.exit_code(),
        }
    }

    /// The failure a client reports for an error payload from the daemon,
    /// chosen by the payload's exit code.
    pub fn from_payload(p: ErrorPayload) -> (e: CommandError)
        ensures
            kind_of_exit_code(p.exit_code, p.message@, e),
    {
        if p.exit_code == 2 {
            CommandError::InvalidInput(p.message)
        } else if p.exit_code == 3 {
            CommandError::NotAvailable(p.message)
        } else {
            CommandError::Internal(p.message)
        }
    }
}

/// A failure travels unchanged from daemon to client: the payload the daemon
/// sends makes the client report the same kind of failure with the same text,
/// and so the same exit code.
pub proof fn lemma_error_payload_round_trip(e: CommandError, p: ErrorPayload, back: CommandError)
    requires
        p.error_code@ == code_of(e),
        p.message@ == message_of(e),
        p.exit_code == exit_code_of(e),
        kind_of_exit_code(p.exit_code, p.message@, back),
    ensures
        exit_code_of(back) == exit_code_of(e),
        code_of(back) == code_of(e),
        message_of(back) == message_of(e),
{
}

} // verus!
