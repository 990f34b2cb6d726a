//! The address deriver: where the record for an identifier lives.
//!
//! A record's address is found from a fixed tag, the identifier's eight
//! little-endian bytes and the identity of the program, by the ledger's own
//! search for a bump that gives a valid derived address.

use crate::account::{same_address, Pubkey};
use crate::error::PriceError;
use crate::wire::{u64_le, u64_le_bytes};
use vstd::prelude::*;

verus! {

/// The tag that every record's address is derived under: the bytes of
/// `price_feed_account`.
pub const ADDRESS_TAG: [u8; 18] = [
    0x70, 0x72, 0x69, 0x63, 0x65, 0x5f, 0x66, 0x65, 0x65, 0x64, 0x5f, 0x61, 0x63, 0x63, 0x6f, 0x75,
    0x6e, 0x74,
];

/// The most bytes a seed may have.
pub const MAX_SEED_LEN: usize = 32;

/// What the ledger's search finds for two seeds under a program: the address
/// and the bump it was found with, or nothing when no bump gives a valid
/// address.
pub uninterp spec fn program_address(first: Seq<u8>, second: Seq<u8>, program_id: Seq<u8>) -> Option<
    (Pubkey, u8),
>;

/// Calls `pinocchio::pubkey::try_find_program_address` with two seeds.
///
/// Trusted, not proved. The contract claims one thing of that function: what
/// it finds depends on the seeds and the program alone, as its documentation
/// says of the search. Which address and which bump it finds is left to the
/// ledger. Built for any target but the ledger's, the function has no search
/// to call and finds nothing, whatever it is given. A seed is at most
/// `MAX_SEED_LEN` bytes long, the limit the function documents.
#[verifier::external_body]
fn try_find_program_address(first: &[u8], second: &[u8], program_id: &Pubkey) -> (found: Option<
    (Pubkey, u8),
>)
    requires
        first@.len() <= MAX_SEED_LEN,
        second@.len() <= MAX_SEED_LEN,
    ensures
        found == program_address(first@, second@, program_id@),
{
    pinocchio::pubkey::try_find_program_address(&[first, second], program_id)
}

/// Derives record addresses for one program.
#[derive(Clone, Copy, Debug, PartialEq, Eq)]
pub struct AddressDeriver {
    /// The identity of the program whose records these are.
    pub program_id: Pubkey,
}

impl AddressDeriver {
    /// The deriver for the records of `program_id`.
    pub open spec fn for_program(program_id: Pubkey) -> AddressDeriver {
        AddressDeriver { program_id }
    }

    /// A deriver for the records of `program_id`.
    pub fn new(program_id: Pubkey) -> (deriver: AddressDeriver)
        ensures
            deriver == AddressDeriver::for_program(program_id),
    {
        AddressDeriver { program_id }
    }

    /// The address and bump of the record for `identifier`, if the search
    /// finds one.
    pub open spec fn derived(self, identifier: u64) -> Option<(Pubkey, u8)> {
        program_address(ADDRESS_TAG@, u64_le(identifier), self.program_id@)
    }

    /// What `derive` returns for `identifier`.
    pub open spec fn derivation(self, identifier: u64) -> Result<(Pubkey, u8), PriceError> {
        match self.derived(identifier) {
            Some(found) => Ok(found),
            None => Err(PriceError::AddressSpaceExhausted),
        }
    }

    /// Finds the address of the record for `identifier` and the bump that
    /// gives it. That no bump gives one should never happen; it is reported
    /// and not survived.
    pub fn derive(&self, identifier: u64) -> (found: Result<(Pubkey, u8), PriceError>)
        ensures
            found == self.derivation(identifier),
    {
        let tag = ADDRESS_TAG;
        let seed = u64_le_bytes(identifier);
        match try_find_program_address(tag.as_slice(), seed.as_slice(), &self.program_id) {
            Some(found) => Ok(found),
            None => Err(PriceError::AddressSpaceExhausted),
        }
    }

    /// Whether `candidate` is the address of the record for `identifier`.
    /// Where the search finds no address, no candidate is.
    pub fn verify(&self, candidate: &Pubkey, identifier: u64) -> (matches: bool)
        ensures
            matches == (self.derived(identifier) matches Some(found) && found.0 == *candidate),
    {
        match self.derive(identifier) {
            Ok(found) => same_address(&found.0, candidate),
            Err(_) => false,
        }
    }
}

/// Deriving is deterministic: whatever two calls of `derive` return for one
/// identifier under one program, they return the same address and bump, or
/// both fail.
pub proof fn lemma_derive_deterministic(
    deriver: AddressDeriver,
    identifier: u64,
    first: Result<(Pubkey, u8), PriceError>,
    second: Result<(Pubkey, u8), PriceError>,
)
    requires
        first == deriver.derivation(identifier),
        second == deriver.derivation(identifier),
    ensures
        first == second,
{
}

} // verus!
