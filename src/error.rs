//! The ways in which an invocation is rejected.
use vstd::prelude::*;

verus! {

/// Why an invocation was rejected.
#[derive(Debug, Clone, Copy, PartialEq, Eq, Structural)]
pub enum CounterError {
    /// No account was supplied.
    MissingAccount,
    /// The account is not owned by the invoking program.
    IncorrectOwner,
    /// The account's bytes are not exactly one encoded record.
    DecodeError,
    /// The account's buffer is too small for one encoded record.
    EncodeError,
}

} // verus!
