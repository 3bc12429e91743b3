//! The ways in which an invocation can fail.

use vstd::prelude::*;

verus! {

/// Why an invocation, or one of its steps, was refused.
#[derive(Debug, Clone, Copy, PartialEq, Eq, Structural)]
pub enum CounterError {
    /// The invocation listed no account.
    MissingAccount,
    /// The first account belongs to another program.
    IncorrectOwner,
    /// The account's bytes are not a stored count: there are not exactly four.
    DecodeError,
    /// The destination has no room for the four bytes of a count.
    BufferTooSmall,
}

} // verus!
