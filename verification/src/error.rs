use vstd::prelude::*;

verus! {

/// Why an invocation was rejected. Every rejection is final: the accounts
/// are left as they were handed in.
#[derive(Clone, Copy, Debug, PartialEq, Eq, Structural)]
pub enum ErrorKind {
    /// The instruction payload has the wrong length or an unknown tag.
    InvalidInstruction,
    /// Fewer accounts were supplied than the operation reads.
    MissingAccount,
    /// The user did not sign.
    Unauthorized,
    /// The vault account is not at the address derived for the user.
    AddressMismatch,
    /// The user is not the owner written in the vault record.
    IllegalOwner,
    /// The withdrawal asks for more than the vault holds.
    InsufficientFunds,
    /// A balance would pass the largest 64-bit value.
    Overflow,
    /// The vault account's data is not a vault record, or has no room for
    /// one.
    MalformedRecord,
}

/// Why a buffer could not be read as, or filled with, a vault record.
#[derive(Clone, Copy, Debug, PartialEq, Eq, Structural)]
pub enum DecodeError {
    /// The buffer does not have the record's width.
    Malformed,
}

} // verus!
