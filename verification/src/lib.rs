//! A minimal on-ledger price oracle: one fixed-layout record per derived
//! address, created once and overwritten by authorized callers.
//!
//! The ledger hands an instruction its accounts and its data. The first byte
//! of the data names the instruction, the rest is its payload.
//! `process_instruction` routes the payload to its handler; the handlers are
//! built from the checks in `validation`, the deriver in `address` and the
//! record layout in `states`.

pub mod account;
pub mod address;
pub mod error;
pub mod instructions;
pub mod states;
pub mod validation;
pub mod wire;

use crate::account::{AccountInfo, Pubkey};
use crate::address::AddressDeriver;
use crate::error::PriceError;
use crate::instructions::create_price_account::{
    create_outcome, create_price_account_at, process_create_price_account, Allocation,
};
use crate::instructions::get_price::{get_price_outcome, process_get_price};
use crate::instructions::modify_price::{modify_price_at, process_modify_price};
use crate::instructions::set_price::{price_update, process_set_price, set_price_at};
use crate::instructions::{identifier_of, PriceInstructions};
use vstd::prelude::*;
use vstd::slice::slice_subrange;

verus! {

/// The payload of an instruction: its data behind the opcode.
pub open spec fn payload_of(instruction_data: Seq<u8>) -> Seq<u8> {
    instruction_data.subrange(1, instruction_data.len() as int)
}

/// The answer of a handler that leaves nothing to do, as the dispatcher
/// gives it.
pub open spec fn finished(outcome: Result<(), PriceError>) -> Result<
    Option<Allocation>,
    PriceError,
> {
    match outcome {
        Ok(_) => Ok(None),
        Err(kind) => Err(kind),
    }
}

/// The answer of Create, as the dispatcher gives it: the allocation that has
/// to come before the record can be written.
pub open spec fn pending(outcome: Result<Allocation, PriceError>) -> Result<
    Option<Allocation>,
    PriceError,
> {
    match outcome {
        Ok(allocation) => Ok(Some(allocation)),
        Err(kind) => Err(kind),
    }
}

/// The dispatcher's answer without the allocation: whether the instruction
/// was accepted, and why not.
pub open spec fn acceptance(done: Result<Option<Allocation>, PriceError>) -> Result<(), PriceError> {
    match done {
        Ok(_) => Ok(()),
        Err(kind) => Err(kind),
    }
}

/// What an instruction does to the accounts and what it answers, given what
/// the search found for the identifier in its payload.
///
/// Data without an opcode, or with one that names no instruction, is refused
/// and changes nothing. Otherwise the named handler decides: an accepted
/// Create changes nothing yet and answers with the allocation that has to
/// come first; SetPrice and ModifyPrice update the record or fail, and
/// GetPrice checks its signer; these three leave nothing to do.
pub open spec fn instruction_effect(
    before: Seq<AccountInfo>,
    instruction_data: Seq<u8>,
    derived: Option<(Pubkey, u8)>,
    now: i64,
    after: Seq<AccountInfo>,
    done: Result<Option<Allocation>, PriceError>,
) -> bool {
    let payload = payload_of(instruction_data);
    let opcode = if instruction_data.len() == 0 {
        None
    } else {
        PriceInstructions::of_opcode(instruction_data[0])
    };
    match opcode {
        None => {
            &&& done == Err::<Option<Allocation>, PriceError>(PriceError::UnknownOpcode)
            &&& after == before
        },
        Some(PriceInstructions::CreatePriceAccount) => {
            &&& done == pending(create_outcome(before, payload, derived))
            &&& after == before
        },
        Some(PriceInstructions::SetPrice) | Some(PriceInstructions::ModifyPrice) => {
            &&& done == finished(acceptance(done))
            &&& price_update(before, payload, derived, now, after, acceptance(done))
        },
        Some(PriceInstructions::GetPrice) => {
            &&& done == finished(get_price_outcome(before))
            &&& after == before
        },
    }
}

/// The one way in: reads the opcode, strips it, and hands the payload and the
/// accounts to the handler it names. `program_id` is the identity that the
/// record addresses are derived under, `now` the ledger's clock.
///
/// `Ok(Some(allocation))` answers an accepted Create: the ledger has to
/// allocate the slot, and `Allocation::initialize` then writes the record.
pub fn process_instruction(
    program_id: &Pubkey,
    accounts: &mut [AccountInfo],
    instruction_data: &[u8],
    now: i64,
) -> (done: Result<Option<Allocation>, PriceError>)
    ensures
        instruction_effect(
            old(accounts)@,
            instruction_data@,
            AddressDeriver::for_program(*program_id).derived(
                identifier_of(payload_of(instruction_data@)),
            ),
            now,
            final(accounts)@,
            done,
        ),
{
    if instruction_data.len() == 0 {
        return Err(PriceError::UnknownOpcode);
    }
    let deriver = AddressDeriver::new(*program_id);
    let payload = slice_subrange(instruction_data, 1, instruction_data.len());
    match PriceInstructions::try_from(&instruction_data[0])? {
        PriceInstructions::CreatePriceAccount => {
            let allocation = process_create_price_account(&deriver, accounts, payload)?;
            Ok(Some(allocation))
        },
        PriceInstructions::SetPrice => {
            process_set_price(&deriver, accounts, payload, now)?;
            Ok(None)
        },
        PriceInstructions::ModifyPrice => {
            process_modify_price(&deriver, accounts, payload, now)?;
            Ok(None)
        },
        PriceInstructions::GetPrice => {
            process_get_price(accounts)?;
            Ok(None)
        },
    }
}

/// `process_instruction` for a caller that holds what the search found for
/// the identifier in the payload: `derived`.
pub fn process_instruction_at(
    accounts: &mut [AccountInfo],
    instruction_data: &[u8],
    derived: Option<(Pubkey, u8)>,
    now: i64,
) -> (done: Result<Option<Allocation>, PriceError>)
    ensures
        instruction_effect(
            old(accounts)@,
            instruction_data@,
            derived,
            now,
            final(accounts)@,
            done,
        ),
{
    if instruction_data.len() == 0 {
        return Err(PriceError::UnknownOpcode);
    }
    let payload = slice_subrange(instruction_data, 1, instruction_data.len());
    match PriceInstructions::try_from(&instruction_data[0])? {
        PriceInstructions::CreatePriceAccount => {
            let allocation = create_price_account_at(accounts, payload, derived)?;
            Ok(Some(allocation))
        },
        PriceInstructions::SetPrice => {
            set_price_at(accounts, payload, derived, now)?;
            Ok(None)
        },
        PriceInstructions::ModifyPrice => {
            modify_price_at(accounts, payload, derived, now)?;
            Ok(None)
        },
        PriceInstructions::GetPrice => {
            process_get_price(accounts)?;
            Ok(None)
        },
    }
}

/// A refused instruction changes nothing, whichever instruction it was and
/// whichever check refused it.
pub proof fn lemma_refused_instruction_changes_nothing(
    before: Seq<AccountInfo>,
    instruction_data: Seq<u8>,
    derived: Option<(Pubkey, u8)>,
    now: i64,
    after: Seq<AccountInfo>,
    done: Result<Option<Allocation>, PriceError>,
)
    requires
        instruction_effect(before, instruction_data, derived, now, after, done),
        done is Err,
    ensures
        after == before,
{
}

} // verus!
