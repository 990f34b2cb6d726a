//! ModifyPrice: overwrite the price of an existing record. Today it accepts
//! what SetPrice accepts and does what SetPrice does; it is kept as an
//! instruction of its own, with its own opcode, so that the two can part.

use crate::account::{AccountInfo, Pubkey};
use crate::address::AddressDeriver;
use crate::error::PriceError;
use crate::instructions::set_price::{
    price_update, update_rejection_locally, updated_slot, UPDATE_PAYLOAD,
};
use crate::instructions::{identifier_of, ACCOUNTS, SIGNER, SLOT};
use crate::states::price_account::PriceAccount;
use crate::validation::{
    check_address, require_address_matches, require_initialized,
    require_payload_length, require_signer,
};
use crate::wire::read_u64_le;
use vstd::prelude::*;

verus! {

/// Runs the checks that need no address.
fn check_modify_locally(accounts: &[AccountInfo], instruction_data: &[u8]) -> (checked: Result<
    (),
    PriceError,
>)
    ensures
        checked == match update_rejection_locally(accounts@, instruction_data@) {
            Some(kind) => Err::<(), PriceError>(kind),
            None => Ok::<(), PriceError>(()),
        },
{
    require_payload_length(instruction_data, UPDATE_PAYLOAD)?;
    if accounts.len() != ACCOUNTS {
        return Err(PriceError::MalformedAccounts);
    }
    require_signer(&accounts[SIGNER])?;
    require_initialized(&accounts[SLOT])
}

/// Writes the modified price and the time into the record, for an update
/// that has passed every check but the one on the slot's length.
fn write_modified(
    accounts: &mut [AccountInfo],
    instruction_data: &[u8],
    now: i64,
) -> (done: Result<(), PriceError>)
    requires
        update_rejection_locally(old(accounts)@, instruction_data@) is None,
    ensures
        old(accounts)@[SLOT as int].data@.len() < PriceAccount::SIZE ==> done == Err::<
            (),
            PriceError,
        >(PriceError::MalformedRecord) && final(accounts)@ == old(accounts)@,
        old(accounts)@[SLOT as int].data@.len() >= PriceAccount::SIZE ==> {
            &&& done == Ok::<(), PriceError>(())
            &&& final(accounts)@.len() == old(accounts)@.len()
            &&& forall|k: int|
                0 <= k < old(accounts)@.len() && k != SLOT ==> final(accounts)@[k] == old(
                    accounts,
                )@[k]
            &&& final(accounts)@[SLOT as int].is_with_data(
                old(accounts)@[SLOT as int],
                updated_slot(old(accounts)@[SLOT as int].data@, instruction_data@, now),
            )
        },
{
    let modified_price = read_u64_le(instruction_data, 8);
    let ghost slot = accounts@[SLOT as int].data@;
    match PriceAccount::from_account_info_mut(&mut accounts[SLOT]) {
        Ok(mut record) => {
            record.set_price(modified_price);
            record.set_last_updated_timestamp(now);
            assert(record.slot@ =~= updated_slot(slot, instruction_data@, now));
            Ok(())
        },
        Err(kind) => {
            assert(accounts@ =~= old(accounts)@);
            Err(kind)
        },
    }
}

/// ModifyPrice for a caller that holds what the search found for the
/// payload's identifier: `derived`. The payload is the instruction's data
/// behind the opcode, `now` the ledger's clock.
pub fn modify_price_at(
    accounts: &mut [AccountInfo],
    instruction_data: &[u8],
    derived: Option<(Pubkey, u8)>,
    now: i64,
) -> (done: Result<(), PriceError>)
    ensures
        price_update(old(accounts)@, instruction_data@, derived, now, final(accounts)@, done),
{
    check_modify_locally(accounts, instruction_data)?;
    check_address(&accounts[SLOT].key, &derived)?;
    write_modified(accounts, instruction_data, now)
}

/// ModifyPrice: overwrites the price of the record for the payload's
/// identifier and stamps it with `now`, the ledger's clock. The address is
/// derived only after the checks that need none have passed.
pub fn process_modify_price(
    deriver: &AddressDeriver,
    accounts: &mut [AccountInfo],
    instruction_data: &[u8],
    now: i64,
) -> (done: Result<(), PriceError>)
    ensures
        price_update(
            old(accounts)@,
            instruction_data@,
            deriver.derived(identifier_of(instruction_data@)),
            now,
            final(accounts)@,
            done,
        ),
{
    check_modify_locally(accounts, instruction_data)?;
    require_address_matches(deriver, &accounts[SLOT].key, read_u64_le(instruction_data, 0))?;
    write_modified(accounts, instruction_data, now)
}

} // verus!
