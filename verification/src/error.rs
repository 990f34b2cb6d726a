//! The failure kinds an instruction can end in.

use vstd::prelude::*;

verus! {

/// Why an instruction was rejected. The kinds are flat: each names the one
/// check that failed, and nothing was changed when any of them is returned.
#[derive(Clone, Copy, Debug, PartialEq, Eq, Structural)]
pub enum PriceError {
    /// The payload is shorter than the instruction needs.
    MalformedPayload,
    /// The slot is too short to hold a record.
    MalformedRecord,
    /// The account list does not have the shape the instruction expects.
    MalformedAccounts,
    /// The designated account did not sign the transaction.
    Unauthorized,
    /// The slot's address is not the one derived from the identifier.
    AddressMismatch,
    /// The slot already holds data.
    AlreadyInitialized,
    /// The slot is still empty.
    NotInitialized,
    /// The first payload byte names no instruction, or the payload is empty.
    UnknownOpcode,
    /// No bump yields a valid derived address.
    AddressSpaceExhausted,
}

} // verus!
