//! Create: decide whether a record may be created, say what the ledger has
//! to allocate for it, and write the first record into the allocated slot.
//!
//! Allocating and funding a slot is the ledger's work. Creation therefore
//! comes in two steps with that work between them: the checks, which end in
//! an `Allocation`, and `Allocation::initialize` on the slot once it exists.
//!
//! The checks look at the accounts before they look at the payload: a slot
//! that holds data is reported as initialized whatever the payload is.

use crate::account::{same_address, AccountInfo, Pubkey};
use crate::address::{AddressDeriver, ADDRESS_TAG};
use crate::error::PriceError;
use crate::instructions::{identifier_of, ACCOUNTS, SIGNER, SLOT};
use crate::states::price_account::{lemma_decode_encode, PriceAccount};
use crate::validation::{
    address_check, check_address, require_address_matches, require_payload_length, require_signer,
    require_uninitialized,
};
use crate::wire::{read_u64_le, u64_le, u64_le_bytes};
use vstd::prelude::*;
use vstd::slice::slice_to_vec;

verus! {

/// The bytes a Create payload must at least have: the identifier.
pub const CREATE_PAYLOAD: usize = 8;

/// What the ledger is asked to do for an accepted Create: allocate a slot of
/// `PriceAccount::SIZE` bytes at `address`, owned by the program that accepted
/// the Create, funded by `payer` to the minimum balance for that size, and
/// signed for with `signer_seeds`.
#[derive(Clone, Copy, Debug, PartialEq, Eq)]
pub struct Allocation {
    /// The identifier the record is created for.
    pub identifier: u64,
    /// The bump with which the slot's address was derived.
    pub bump: u8,
    /// The address of the slot: the one that was derived and checked.
    pub address: Pubkey,
    /// The address of the account that signed and pays.
    pub payer: Pubkey,
}

/// The check a Create fails before any address is derived, if it fails one:
/// the shape of the account list, the signer, the slot's emptiness, the
/// payload's length, in this order.
pub open spec fn create_rejection_locally(accounts: Seq<AccountInfo>, payload: Seq<u8>) -> Option<
    PriceError,
> {
    if accounts.len() != ACCOUNTS {
        Some(PriceError::MalformedAccounts)
    } else if !accounts[SIGNER as int].is_signer {
        Some(PriceError::Unauthorized)
    } else if accounts[SLOT as int].data@.len() != 0 {
        Some(PriceError::AlreadyInitialized)
    } else if payload.len() < CREATE_PAYLOAD {
        Some(PriceError::MalformedPayload)
    } else {
        None
    }
}

/// What the checks of a Create end in: the first failure, or the allocation
/// for the payload's identifier, at the slot's address, with the bump that
/// was derived for it.
pub open spec fn create_outcome(
    accounts: Seq<AccountInfo>,
    payload: Seq<u8>,
    derived: Option<(Pubkey, u8)>,
) -> Result<Allocation, PriceError> {
    match create_rejection_locally(accounts, payload) {
        Some(kind) => Err(kind),
        None => match address_check(accounts[SLOT as int].key, derived) {
            Err(kind) => Err(kind),
            Ok(bump) => Ok(
                Allocation {
                    identifier: identifier_of(payload),
                    bump,
                    address: accounts[SLOT as int].key,
                    payer: accounts[SIGNER as int].key,
                },
            ),
        },
    }
}

impl Allocation {
    /// The seeds the allocation is signed with: the tag, the identifier's
    /// eight little-endian bytes, and the bump.
    pub open spec fn spec_signer_seeds(self) -> Seq<Seq<u8>> {
        seq![ADDRESS_TAG@, u64_le(self.identifier), seq![self.bump]]
    }

    /// The record that a new slot is given at time `now`: a price of zero.
    pub open spec fn first_record(self, now: i64) -> PriceAccount {
        PriceAccount { price_bits: 0, last_updated_timestamp: now, price_account_bump: self.bump }
    }

    /// Why `slot` cannot be initialized, if it cannot: it is not the account
    /// at the allocation's address, or it is too short to hold a record.
    pub open spec fn initialize_rejection(self, slot: AccountInfo) -> Option<PriceError> {
        if slot.key != self.address {
            Some(PriceError::AddressMismatch)
        } else if slot.data@.len() < PriceAccount::SIZE {
            Some(PriceError::MalformedRecord)
        } else {
            None
        }
    }

    /// The number of bytes to allocate.
    pub fn space(&self) -> (bytes: u64)
        ensures
            bytes == PriceAccount::SIZE,
    {
        PriceAccount::SIZE as u64
    }

    /// The seeds the allocation is signed with.
    pub fn signer_seeds(&self) -> (seeds: Vec<Vec<u8>>)
        ensures
            seeds@.len() == 3,
            seeds@.map_values(|seed: Vec<u8>| seed@) == self.spec_signer_seeds(),
    {
        let tag = ADDRESS_TAG;
        let first = slice_to_vec(tag.as_slice());
        let mut last: Vec<u8> = Vec::new();
        last.push(self.bump);
        assert(last@ =~= seq![self.bump]);
        let mut seeds: Vec<Vec<u8>> = Vec::new();
        seeds.push(first);
        seeds.push(u64_le_bytes(self.identifier));
        seeds.push(last);
        assert(seeds@.map_values(|seed: Vec<u8>| seed@) =~= self.spec_signer_seeds());
        seeds
    }

    /// Writes the first record into the slot that the ledger has allocated:
    /// a price of zero, the time `now`, and the bump. An account at another
    /// address than the allocation's, or a slot too short to hold a record,
    /// is refused and not touched; bytes behind the record stay.
    pub fn initialize(&self, slot: &mut AccountInfo, now: i64) -> (done: Result<(), PriceError>)
        ensures
            match self.initialize_rejection(*old(slot)) {
                Some(kind) => done == Err::<(), PriceError>(kind) && *final(slot) == *old(slot),
                None => done == Ok::<(), PriceError>(()) && final(slot).is_with_data(
                    *old(slot),
                    self.first_record(now).encoding() + old(slot).data@.subrange(
                        PriceAccount::SIZE as int,
                        old(slot).data@.len() as int,
                    ),
                ),
            },
    {
        if !same_address(&slot.key, &self.address) {
            return Err(PriceError::AddressMismatch);
        }
        let ghost before = slot.data@;
        let mut record = PriceAccount::from_account_info_mut(slot)?;
        record.set_price(0);
        record.set_last_updated_timestamp(now);
        record.set_price_account_bump(self.bump);
        assert(record.slot@ =~= self.first_record(now).encoding() + before.subrange(
            PriceAccount::SIZE as int,
            before.len() as int,
        ));
        Ok(())
    }
}

/// Runs the checks that need no address.
fn check_create_locally(accounts: &[AccountInfo], instruction_data: &[u8]) -> (checked: Result<
    (),
    PriceError,
>)
    ensures
        checked == match create_rejection_locally(accounts@, instruction_data@) {
            Some(kind) => Err::<(), PriceError>(kind),
            None => Ok::<(), PriceError>(()),
        },
{
    if accounts.len() != ACCOUNTS {
        return Err(PriceError::MalformedAccounts);
    }
    require_signer(&accounts[SIGNER])?;
    require_uninitialized(&accounts[SLOT])?;
    require_payload_length(instruction_data, CREATE_PAYLOAD)
}

/// Create for a caller that holds what the search found for the payload's
/// identifier: `derived`. The payload is the instruction's data behind the
/// opcode. Nothing is changed: the answer says what to allocate.
pub fn create_price_account_at(
    accounts: &[AccountInfo],
    instruction_data: &[u8],
    derived: Option<(Pubkey, u8)>,
) -> (allocation: Result<Allocation, PriceError>)
    ensures
        allocation == create_outcome(accounts@, instruction_data@, derived),
{
    check_create_locally(accounts, instruction_data)?;
    let bump = check_address(&accounts[SLOT].key, &derived)?;
    Ok(
        Allocation {
            identifier: read_u64_le(instruction_data, 0),
            bump,
            address: accounts[SLOT].key,
            payer: accounts[SIGNER].key,
        },
    )
}

/// Create: checks that a record for the payload's identifier may be created
/// in the slot, and says what to allocate for it. The address is derived
/// only after the checks that need none have passed. Nothing is changed.
pub fn process_create_price_account(
    deriver: &AddressDeriver,
    accounts: &[AccountInfo],
    instruction_data: &[u8],
) -> (allocation: Result<Allocation, PriceError>)
    ensures
        allocation == create_outcome(
            accounts@,
            instruction_data@,
            deriver.derived(identifier_of(instruction_data@)),
        ),
{
    check_create_locally(accounts, instruction_data)?;
    let identifier = read_u64_le(instruction_data, 0);
    let bump = require_address_matches(deriver, &accounts[SLOT].key, identifier)?;
    Ok(Allocation { identifier, bump, address: accounts[SLOT].key, payer: accounts[SIGNER].key })
}

/// Create is refused as unauthorized whenever the signer's flag is not set,
/// whatever the slot and the payload hold.
pub proof fn lemma_create_requires_signer(
    accounts: Seq<AccountInfo>,
    payload: Seq<u8>,
    derived: Option<(Pubkey, u8)>,
)
    requires
        accounts.len() == ACCOUNTS,
        !accounts[SIGNER as int].is_signer,
    ensures
        create_outcome(accounts, payload, derived) == Err::<Allocation, PriceError>(
            PriceError::Unauthorized,
        ),
{
}

/// Create is refused for a slot that already holds data, whatever the
/// payload is: of any length, naming any identifier. Only a missing
/// signature is reported before it.
pub proof fn lemma_create_requires_empty_slot(
    accounts: Seq<AccountInfo>,
    payload: Seq<u8>,
    derived: Option<(Pubkey, u8)>,
)
    requires
        accounts.len() == ACCOUNTS,
        accounts[SIGNER as int].is_signer,
        accounts[SLOT as int].data@.len() > 0,
    ensures
        create_outcome(accounts, payload, derived) == Err::<Allocation, PriceError>(
            PriceError::AlreadyInitialized,
        ),
{
}

/// A signed Create for an empty slot whose payload is shorter than the
/// identifier is refused as malformed.
pub proof fn lemma_create_requires_payload(
    accounts: Seq<AccountInfo>,
    payload: Seq<u8>,
    derived: Option<(Pubkey, u8)>,
)
    requires
        accounts.len() == ACCOUNTS,
        accounts[SIGNER as int].is_signer,
        accounts[SLOT as int].data@.len() == 0,
        payload.len() < CREATE_PAYLOAD,
    ensures
        create_outcome(accounts, payload, derived) == Err::<Allocation, PriceError>(
            PriceError::MalformedPayload,
        ),
{
}

/// A Create that passes the local checks is refused with an address mismatch
/// whenever the slot's address is not the one derived for the payload's
/// identifier.
pub proof fn lemma_create_requires_derived_address(
    accounts: Seq<AccountInfo>,
    payload: Seq<u8>,
    address: Pubkey,
    bump: u8,
)
    requires
        create_rejection_locally(accounts, payload) is None,
        accounts[SLOT as int].key != address,
    ensures
        create_outcome(accounts, payload, Some((address, bump))) == Err::<Allocation, PriceError>(
            PriceError::AddressMismatch,
        ),
{
}

/// A Create is accepted only for an empty slot at the address derived for the
/// payload's identifier. The allocation names that address and the signer's,
/// and carries the bump of the address.
pub proof fn lemma_created_at_derived_address(
    accounts: Seq<AccountInfo>,
    payload: Seq<u8>,
    derived: Option<(Pubkey, u8)>,
    allocation: Allocation,
)
    requires
        create_outcome(accounts, payload, derived) == Ok::<Allocation, PriceError>(allocation),
    ensures
        accounts.len() == ACCOUNTS,
        accounts[SIGNER as int].is_signer,
        accounts[SLOT as int].data@.len() == 0,
        derived == Some((allocation.address, allocation.bump)),
        allocation.address == accounts[SLOT as int].key,
        allocation.payer == accounts[SIGNER as int].key,
        allocation.identifier == identifier_of(payload),
{
}

/// Where a check that needs no address fails, that failure is the answer,
/// whatever was derived for the payload.
pub proof fn lemma_create_checks_locally_first(
    accounts: Seq<AccountInfo>,
    payload: Seq<u8>,
    derived: Option<(Pubkey, u8)>,
    kind: PriceError,
)
    requires
        create_rejection_locally(accounts, payload) == Some(kind),
    ensures
        create_outcome(accounts, payload, derived) == Err::<Allocation, PriceError>(kind),
{
}

/// The record read back from a newly initialized slot has a price of zero, the time
/// of its creation and the allocation's bump.
pub proof fn lemma_first_record_reads_back(allocation: Allocation, now: i64, rest: Seq<u8>)
    ensures
        PriceAccount::decoding(allocation.first_record(now).encoding() + rest)
            == allocation.first_record(now),
{
    lemma_decode_encode(allocation.first_record(now), rest);
}

} // verus!
