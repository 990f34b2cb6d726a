//! SetPrice: overwrite the price of an existing record.

use crate::account::{AccountInfo, Pubkey};
use crate::address::AddressDeriver;
use crate::error::PriceError;
use crate::instructions::{identifier_of, price_of, ACCOUNTS, SIGNER, SLOT};
use crate::states::price_account::{lemma_decode_encode, PriceAccount};
use crate::validation::{
    address_check, check_address, require_address_matches, require_initialized,
    require_payload_length, require_signer,
};
use crate::wire::read_u64_le;
use vstd::prelude::*;

verus! {

/// The bytes a price update's payload must at least have: the identifier and
/// the price.
pub const UPDATE_PAYLOAD: usize = 16;

/// The check a price update fails before any address is derived, if it fails
/// one: the payload's length, the shape of the account list, the signer, the
/// record's existence, in this order.
pub open spec fn update_rejection_locally(accounts: Seq<AccountInfo>, payload: Seq<u8>) -> Option<
    PriceError,
> {
    if payload.len() < UPDATE_PAYLOAD {
        Some(PriceError::MalformedPayload)
    } else if accounts.len() != ACCOUNTS {
        Some(PriceError::MalformedAccounts)
    } else if !accounts[SIGNER as int].is_signer {
        Some(PriceError::Unauthorized)
    } else if accounts[SLOT as int].data@.len() == 0 {
        Some(PriceError::NotInitialized)
    } else {
        None
    }
}

/// The first check a price update fails, if it fails one. After the local
/// checks come the slot's address, held against what was derived for the
/// payload's identifier, and the slot's length.
pub open spec fn update_rejection(
    accounts: Seq<AccountInfo>,
    payload: Seq<u8>,
    derived: Option<(Pubkey, u8)>,
) -> Option<PriceError> {
    if update_rejection_locally(accounts, payload) is Some {
        update_rejection_locally(accounts, payload)
    } else if address_check(accounts[SLOT as int].key, derived) is Err {
        Some(address_check(accounts[SLOT as int].key, derived)->Err_0)
    } else if accounts[SLOT as int].data@.len() < PriceAccount::SIZE {
        Some(PriceError::MalformedRecord)
    } else {
        None
    }
}

/// The record a slot holds after an accepted price update at time `now`: the
/// payload's price, the time, and the bump it had.
pub open spec fn updated_record(slot: Seq<u8>, payload: Seq<u8>, now: i64) -> PriceAccount {
    PriceAccount {
        price_bits: price_of(payload),
        last_updated_timestamp: now,
        price_account_bump: PriceAccount::decoding(slot).price_account_bump,
    }
}

/// The bytes of a slot after an accepted price update: the new record, and
/// behind it what was there.
pub open spec fn updated_slot(slot: Seq<u8>, payload: Seq<u8>, now: i64) -> Seq<u8> {
    updated_record(slot, payload, now).encoding() + slot.subrange(
        PriceAccount::SIZE as int,
        slot.len() as int,
    )
}

/// What a price update does: all or nothing. Either a check fails, the
/// failure is returned and no account has changed; or the record in the slot
/// is overwritten and every other account, and everything else about the
/// slot's account, is as it was.
pub open spec fn price_update(
    before: Seq<AccountInfo>,
    payload: Seq<u8>,
    derived: Option<(Pubkey, u8)>,
    now: i64,
    after: Seq<AccountInfo>,
    done: Result<(), PriceError>,
) -> bool {
    match update_rejection(before, payload, derived) {
        Some(kind) => done == Err::<(), PriceError>(kind) && after == before,
        None => {
            &&& done == Ok::<(), PriceError>(())
            &&& after.len() == before.len()
            &&& forall|k: int| 0 <= k < before.len() && k != SLOT ==> after[k] == before[k]
            &&& after[SLOT as int].is_with_data(
                before[SLOT as int],
                updated_slot(before[SLOT as int].data@, payload, now),
            )
        },
    }
}

/// Runs the checks that need no address.
fn check_update_locally(accounts: &[AccountInfo], instruction_data: &[u8]) -> (checked: Result<
    (),
    PriceError,
>)
    ensures
        checked == match update_rejection_locally(accounts@, instruction_data@) {
            Some(kind) => Err::<(), PriceError>(kind),
            None => Ok::<(), PriceError>(()),
        },
{
    require_payload_length(instruction_data, UPDATE_PAYLOAD)?;
    if accounts.len() != ACCOUNTS {
        return Err(PriceError::MalformedAccounts);
    }
    require_signer(&accounts[SIGNER])?;
    require_initialized(&accounts[SLOT])
}

/// Writes the price and the time into the record, for an update that has
/// passed every check but the one on the slot's length.
fn write_update(
    accounts: &mut [AccountInfo],
    instruction_data: &[u8],
    now: i64,
) -> (done: Result<(), PriceError>)
    requires
        update_rejection_locally(old(accounts)@, instruction_data@) is None,
    ensures
        old(accounts)@[SLOT as int].data@.len() < PriceAccount::SIZE ==> done == Err::<
            (),
            PriceError,
        >(PriceError::MalformedRecord) && final(accounts)@ == old(accounts)@,
        old(accounts)@[SLOT as int].data@.len() >= PriceAccount::SIZE ==> {
            &&& done == Ok::<(), PriceError>(())
            &&& final(accounts)@.len() == old(accounts)@.len()
            &&& forall|k: int|
                0 <= k < old(accounts)@.len() && k != SLOT ==> final(accounts)@[k] == old(
                    accounts,
                )@[k]
            &&& final(accounts)@[SLOT as int].is_with_data(
                old(accounts)@[SLOT as int],
                updated_slot(old(accounts)@[SLOT as int].data@, instruction_data@, now),
            )
        },
{
    let price_bits = read_u64_le(instruction_data, 8);
    let ghost slot = accounts@[SLOT as int].data@;
    match PriceAccount::from_account_info_mut(&mut accounts[SLOT]) {
        Ok(mut record) => {
            record.set_price(price_bits);
            record.set_last_updated_timestamp(now);
            assert(record.slot@ =~= updated_slot(slot, instruction_data@, now));
            Ok(())
        },
        Err(kind) => {
            assert(accounts@ =~= old(accounts)@);
            Err(kind)
        },
    }
}

/// SetPrice for a caller that holds what the search found for the payload's
/// identifier: `derived`. The payload is the instruction's data behind the
/// opcode, `now` the ledger's clock.
pub fn set_price_at(
    accounts: &mut [AccountInfo],
    instruction_data: &[u8],
    derived: Option<(Pubkey, u8)>,
    now: i64,
) -> (done: Result<(), PriceError>)
    ensures
        price_update(old(accounts)@, instruction_data@, derived, now, final(accounts)@, done),
{
    check_update_locally(accounts, instruction_data)?;
    check_address(&accounts[SLOT].key, &derived)?;
    write_update(accounts, instruction_data, now)
}

/// SetPrice: overwrites the price of the record for the payload's identifier
/// and stamps it with `now`, the ledger's clock. The address is derived only
/// after the checks that need none have passed.
pub fn process_set_price(
    deriver: &AddressDeriver,
    accounts: &mut [AccountInfo],
    instruction_data: &[u8],
    now: i64,
) -> (done: Result<(), PriceError>)
    ensures
        price_update(
            old(accounts)@,
            instruction_data@,
            deriver.derived(identifier_of(instruction_data@)),
            now,
            final(accounts)@,
            done,
        ),
{
    check_update_locally(accounts, instruction_data)?;
    require_address_matches(deriver, &accounts[SLOT].key, read_u64_le(instruction_data, 0))?;
    write_update(accounts, instruction_data, now)
}

/// A price update whose payload is shorter than the identifier and the
/// price together is refused as malformed, and nothing has changed. This is
/// what SetPrice and ModifyPrice both answer, as in the laws below.
pub proof fn lemma_update_requires_payload(
    before: Seq<AccountInfo>,
    payload: Seq<u8>,
    derived: Option<(Pubkey, u8)>,
    now: i64,
    after: Seq<AccountInfo>,
    done: Result<(), PriceError>,
)
    requires
        price_update(before, payload, derived, now, after, done),
        payload.len() < UPDATE_PAYLOAD,
    ensures
        done == Err::<(), PriceError>(PriceError::MalformedPayload),
        after == before,
{
}

/// A price update is refused as unauthorized whenever the signer's flag is
/// not set, once its payload is long enough, and nothing has changed.
pub proof fn lemma_update_requires_signer(
    before: Seq<AccountInfo>,
    payload: Seq<u8>,
    derived: Option<(Pubkey, u8)>,
    now: i64,
    after: Seq<AccountInfo>,
    done: Result<(), PriceError>,
)
    requires
        price_update(before, payload, derived, now, after, done),
        payload.len() >= UPDATE_PAYLOAD,
        before.len() == ACCOUNTS,
        !before[SIGNER as int].is_signer,
    ensures
        done == Err::<(), PriceError>(PriceError::Unauthorized),
        after == before,
{
}

/// A price update is refused for an empty slot, whatever else the
/// instruction holds, once its payload is long enough and its signer signed,
/// and nothing has changed.
pub proof fn lemma_update_requires_record(
    before: Seq<AccountInfo>,
    payload: Seq<u8>,
    derived: Option<(Pubkey, u8)>,
    now: i64,
    after: Seq<AccountInfo>,
    done: Result<(), PriceError>,
)
    requires
        price_update(before, payload, derived, now, after, done),
        payload.len() >= UPDATE_PAYLOAD,
        before.len() == ACCOUNTS,
        before[SIGNER as int].is_signer,
        before[SLOT as int].data@.len() == 0,
    ensures
        done == Err::<(), PriceError>(PriceError::NotInitialized),
        after == before,
{
}

/// A price update that passes the local checks is refused with an address
/// mismatch whenever the slot's address is not the one derived for the
/// payload's identifier, and nothing has changed.
pub proof fn lemma_update_requires_derived_address(
    before: Seq<AccountInfo>,
    payload: Seq<u8>,
    address: Pubkey,
    bump: u8,
    now: i64,
    after: Seq<AccountInfo>,
    done: Result<(), PriceError>,
)
    requires
        price_update(before, payload, Some((address, bump)), now, after, done),
        update_rejection_locally(before, payload) is None,
        before[SLOT as int].key != address,
    ensures
        done == Err::<(), PriceError>(PriceError::AddressMismatch),
        after == before,
{
}

/// A price update is accepted only for a slot at the address derived for the
/// payload's identifier.
pub proof fn lemma_updated_at_derived_address(
    before: Seq<AccountInfo>,
    payload: Seq<u8>,
    derived: Option<(Pubkey, u8)>,
    now: i64,
    after: Seq<AccountInfo>,
)
    requires
        price_update(before, payload, derived, now, after, Ok(())),
    ensures
        derived matches Some(found) && found.0 == before[SLOT as int].key,
{
}

/// An accepted price update changes the record and nothing about its
/// length, its address, or any other account; a refused one changes nothing
/// at all.
pub proof fn lemma_update_is_all_or_nothing(
    before: Seq<AccountInfo>,
    payload: Seq<u8>,
    derived: Option<(Pubkey, u8)>,
    now: i64,
    after: Seq<AccountInfo>,
    done: Result<(), PriceError>,
)
    requires
        price_update(before, payload, derived, now, after, done),
    ensures
        done is Err ==> after == before,
        done is Ok ==> {
            &&& before.len() == ACCOUNTS
            &&& after.len() == ACCOUNTS
            &&& after[SIGNER as int] == before[SIGNER as int]
            &&& after[SLOT as int].key == before[SLOT as int].key
            &&& after[SLOT as int].data@.len() == before[SLOT as int].data@.len()
            &&& PriceAccount::decoding(after[SLOT as int].data@) == updated_record(
                before[SLOT as int].data@,
                payload,
                now,
            )
        },
{
    if done is Ok {
        lemma_updated_record_reads_back(before[SLOT as int].data@, payload, now);
    }
}

/// The record read back after an accepted price update holds the payload's
/// price and the time of the update, and the bump it had before.
pub proof fn lemma_updated_record_reads_back(slot: Seq<u8>, payload: Seq<u8>, now: i64)
    requires
        slot.len() >= PriceAccount::SIZE,
    ensures
        updated_slot(slot, payload, now).len() == slot.len(),
        PriceAccount::decoding(updated_slot(slot, payload, now)) == updated_record(
            slot,
            payload,
            now,
        ),
        updated_record(slot, payload, now).price_account_bump == slot[16],
{
    lemma_decode_encode(
        updated_record(slot, payload, now),
        slot.subrange(PriceAccount::SIZE as int, slot.len() as int),
    );
}

} // verus!
