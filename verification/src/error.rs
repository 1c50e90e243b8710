//! The error taxonomy of the mailbox protocol.  Every failed operation
//! surfaces exactly one of these kinds, never a generic failure.

use vstd::prelude::*;

verus! {

/// Why a mailbox operation was rejected.  Each operation's contract states
/// exactly which inputs produce which variant.
#[derive(Clone, Copy, PartialEq, Eq, Structural, Debug)]
pub enum MemoError {
    /// The ciphertext exceeds the 500-byte cell reservation.
    MessageTooLong,
    /// The recipient equals the sender.
    InvalidRecipient,
    /// The caller supplied a record cell at an address other than the one
    /// derived from (sender, recipient, counter).
    AddressDerivationFailed,
    /// No collision-avoidance bump in the valid range yields a key-less
    /// address for the given seeds.
    AddressDerivationExhausted,
    /// The sender's per-user counter is at the maximum representable value
    /// and must not wrap.
    CounterOverflow,
    /// Someone other than the message's sender asked to delete it.
    UnauthorizedDeletion,
    /// The message was already soft-deleted.
    MessageAlreadyDeleted,
    /// The mint registry was already initialized; a second initialization
    /// is an error, not a no-op.
    AlreadyInitialized,
    /// The mint registry is uninitialized, or its mint identity does not
    /// match the one supplied by the caller.
    InvalidMintConfiguration,
}

} // verus!
