//! The failures of a command, their kinds, and the exit code of the process.

use crate::graphroot::GraphrootError;
use crate::launch::LaunchError;
use crate::pipeline::AcquireError;
use vstd::prelude::*;

verus! {

/// The kind of a failure, for callers that tell failures apart without
/// reading messages.
#[derive(Clone, Copy, Debug, PartialEq, Eq, Structural)]
pub enum ErrorKind {
    /// The environment definition is malformed.
    Parse,
    /// No read-only image store was configured.
    Config,
    /// Engine output is not valid text.
    Decode,
    /// An engine invocation failed or ended abnormally.
    Engine,
    /// The migration tool reported failure.
    Migration,
    /// The migration tool reported success, but the image is missing.
    Consistency,
}

/// Why a command failed.
#[derive(Clone, Copy, Debug, PartialEq, Eq, Structural)]
pub enum CommandError {
    /// The environment definition could not be rendered.
    Parse,
    /// No read-only image store was configured.
    MissingImageStore,
    /// The storage contexts could not be built.
    Contexts(GraphrootError),
    /// The image could not be acquired.
    Acquire(AcquireError),
    /// The container gave no exit code.
    Launch(LaunchError),
}

/// The kind of each failure. A failed pull and a container that a signal
/// ended are engine errors.
pub open spec fn kind_of(e: CommandError) -> ErrorKind {
    match e {
        CommandError::Parse => ErrorKind::Parse,
        CommandError::MissingImageStore => ErrorKind::Config,
        CommandError::Contexts(GraphrootError::Engine) => ErrorKind::Engine,
        CommandError::Contexts(GraphrootError::Decode) => ErrorKind::Decode,
        CommandError::Acquire(AcquireError::Pull) => ErrorKind::Engine,
        CommandError::Acquire(AcquireError::Migration) => ErrorKind::Migration,
        CommandError::Acquire(AcquireError::Consistency) => ErrorKind::Consistency,
        CommandError::Launch(LaunchError::Signalled) => ErrorKind::Engine,
    }
}

/// The message of each failure.
pub open spec fn message_of(e: CommandError) -> Seq<char> {
    match e {
        CommandError::Parse => "Failed rendering EDF"@,
        CommandError::MissingImageStore => "Could not retrieve value from PARALLAX_IMAGESTORE"@,
        CommandError::Contexts(GraphrootError::Engine) =>
            "Failed to generate Podman contexts: the engine reported failure"@,
        CommandError::Contexts(GraphrootError::Decode) =>
            "Failed to generate Podman contexts: the engine output is not valid UTF-8"@,
        CommandError::Acquire(AcquireError::Pull) => "Failed pulling image with Podman"@,
        CommandError::Acquire(AcquireError::Migration) => "Failed migrating parallax"@,
        CommandError::Acquire(AcquireError::Consistency) =>
            "Image is missing from the run context after a successful migration"@,
        CommandError::Launch(LaunchError::Signalled) => "Container was terminated by a signal"@,
    }
}

/// The exit code of the process: the container's own code where it gave
/// one, and 1 after any failure.
pub open spec fn exit_code_of(result: Result<i32, CommandError>) -> i32 {
    match result {
        Ok(code) => code,
        Err(_) => 1,
    }
}

impl CommandError {
    /// The kind of this failure.
    pub fn kind(self) -> (k: ErrorKind)
        ensures
            k == kind_of(self),
    {
        match self {
            CommandError::Parse => ErrorKind::Parse,
            CommandError::MissingImageStore => ErrorKind::Config,
            CommandError::Contexts(GraphrootError::Engine) => ErrorKind::Engine,
            CommandError::Contexts(GraphrootError::Decode) => ErrorKind::Decode,
            CommandError::Acquire(AcquireError::Pull) => ErrorKind::Engine,
            CommandError::Acquire(AcquireError::Migration) => ErrorKind::Migration,
            CommandError::Acquire(AcquireError::Consistency) => ErrorKind::Consistency,
            CommandError::Launch(LaunchError::Signalled) => ErrorKind::Engine,
        }
    }

    /// A message for the user.
    pub fn message(self) -> (m: &'static str)
        ensures
            m@ == message_of(self),
    {
        match self {
            CommandError::Parse => "Failed rendering EDF",
            CommandError::MissingImageStore => "Could not retrieve value from PARALLAX_IMAGESTORE",
            CommandError::Contexts(GraphrootError::Engine) =>
                "Failed to generate Podman contexts: the engine reported failure",
            CommandError::Contexts(GraphrootError::Decode) =>
                "Failed to generate Podman contexts: the engine output is not valid UTF-8",
            CommandError::Acquire(AcquireError::Pull) => "Failed pulling image with Podman",
            CommandError::Acquire(AcquireError::Migration) => "Failed migrating parallax",
            CommandError::Acquire(AcquireError::Consistency) =>
                "Image is missing from the run context after a successful migration",
            CommandError::Launch(LaunchError::Signalled) => "Container was terminated by a signal",
        }
    }
}

/// The exit code of the process for the result of a command.
pub fn exit_code(result: Result<i32, CommandError>) -> (code: i32)
    ensures
        code == exit_code_of(result),
{
    match result {
        Ok(code) => code,
        Err(_) => 1,
    }
}

} // verus!
