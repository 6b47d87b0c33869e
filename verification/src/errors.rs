//! Error taxonomy of the engine.
//!
//! Length-validation failures are recoverable by resubmitting corrected
//! input.  Authorization and address failures are terminal for the operation
//! and never mutate a record.  Counter underflow and overflow signal an
//! invariant violation and also leave every record untouched.

use vstd::prelude::*;

verus! {

/// One error kind per named failure of the social operations, the layout
/// codec, the address deriver and the record store.
#[derive(Clone, Copy, Debug, PartialEq, Eq, Structural)]
pub enum ErrorCode {
    /// A profile name longer than twenty characters.
    NameTooLong,
    /// A handle longer than twenty characters.
    HandleTooLong,
    /// A post topic longer than fifty characters.
    TopicTooLong,
    /// A post body longer than three hundred characters.
    ContentTooLong,
    /// A comment text longer than one hundred and fifty characters.
    CommentTooLong,
    /// The store already holds a record at the target address.
    AlreadyExists,
    /// A like by this liker for this post already exists.
    AlreadyLiked,
    /// A follow for this ordered pair already exists.
    AlreadyFollowing,
    /// The caller's identity does not match the stored owner field.
    Unauthorized,
    /// Re-derivation with the stored disambiguator did not reproduce the
    /// expected address, or no viable disambiguator exists for the seeds.
    AddressMismatch,
    /// A counter that should be decremented is already zero.
    CounterUnderflow,
    /// A counter that should be incremented is already at its maximum.
    CounterOverflow,
    /// No record exists at the given address.
    NotFound,
    /// The record at the address carries a different type tag than expected.
    TypeMismatch,
    /// The bytes to store exceed the record's fixed capacity.
    CapacityExceeded,
    /// The bytes at the address do not decode as the expected record kind.
    LayoutError,
}

} // verus!
