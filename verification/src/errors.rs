//! The faults the service can hit while handling one request.
//!
//! Every local fault — workspace allocation, file I/O, or the container
//! runtime refusing to start — is surfaced to the caller through one flat
//! envelope with a short message; no fault class is distinguished on the
//! wire. A toolchain run that merely exits non-zero or writes to stderr is
//! not a fault: its output is returned as ordinary content.

use vstd::prelude::*;

verus! {

/// One local fault, with the message the caller sees.
#[derive(Clone, Copy, PartialEq, Eq, Structural, Debug)]
pub enum AppError {
    /// The host could not allocate the workspace directory.
    CreateFailed,
    /// The source file could not be written.
    WriteSourceFailed,
    /// The auxiliary parameter file could not be written.
    WriteProverFailed,
    /// The source file could not be read back.
    ReadSourceFailed,
    /// The container runtime itself could not be invoked.
    StartFailed,
    /// A version query produced stderr output.
    UnknownError,
}

/// The message of each fault.
pub open spec fn spec_message(e: AppError) -> Seq<char> {
    match e {
        AppError::CreateFailed => "failed to create temporary directory"@,
        AppError::WriteSourceFailed => "failed to write source code"@,
        AppError::WriteProverFailed => "failed to write Prover.toml"@,
        AppError::ReadSourceFailed => "failed to read source code"@,
        AppError::StartFailed => "failed to start docker container"@,
        AppError::UnknownError => "unknown error"@,
    }
}

impl AppError {
    /// The short human-readable message placed in the error envelope.
    pub fn message(&self) -> (r: &'static str)
        ensures
            r@ == spec_message(*self),
    {
        match self {
            AppError::CreateFailed => "failed to create temporary directory",
            AppError::WriteSourceFailed => "failed to write source code",
            AppError::WriteProverFailed => "failed to write Prover.toml",
            AppError::ReadSourceFailed => "failed to read source code",
            AppError::StartFailed => "failed to start docker container",
            AppError::UnknownError => "unknown error",
        }
    }
}

} // verus!
