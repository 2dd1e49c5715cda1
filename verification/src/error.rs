//! The ways in which a run can fail.

use vstd::prelude::*;

verus! {

/// Why a run did not end with an exit code.
///
/// The variants that carry an `i32` hold what the failing system call
/// returned.
#[derive(Debug, Clone, Copy, PartialEq, Eq, Structural)]
pub enum RunError {
    /// `memfd_create` failed.
    FdCreationFailed(i32),
    /// `write` did not take the whole image: what it returned, and the length
    /// of the image.
    BytesNotWritten(usize, usize),
    /// `execve` came back.
    ExecError(i32),
    /// `fork` failed.
    ForkError(i32),
    /// `wait4` failed.
    WaitError(i32),
    /// The image is shorter than an ELF identification or does not start with
    /// the ELF magic bytes.
    InvalidElfFormat,
    /// More arguments than the argument vector has room for.
    TooManyArgs,
    /// More environment entries than the environment vector has room for.
    TooManyEnvVars,
    /// An argument, or the program name, does not fit in one slot.
    ArgTooLong,
    /// An environment entry does not fit in one slot.
    EnvVarTooLong,
}

} // verus!
