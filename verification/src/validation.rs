//! The precondition checks that the handlers are built from. Each stands on
//! its own and fails with its own kind.

use crate::account::{same_address, AccountInfo, Pubkey};
use crate::address::AddressDeriver;
use crate::error::PriceError;
use vstd::prelude::*;

verus! {

/// What the address check says of a slot at `slot_address`, given what the
/// search found for the identifier: the bump when the addresses agree.
pub open spec fn address_check(slot_address: Pubkey, derived: Option<(Pubkey, u8)>) -> Result<
    u8,
    PriceError,
> {
    match derived {
        None => Err(PriceError::AddressSpaceExhausted),
        Some(found) => if found.0 == slot_address {
            Ok(found.1)
        } else {
            Err(PriceError::AddressMismatch)
        },
    }
}

/// Fails with `Unauthorized` unless the transaction was signed for `actor`.
pub fn require_signer(actor: &AccountInfo) -> (checked: Result<(), PriceError>)
    ensures
        checked == if actor.is_signer {
            Ok::<(), PriceError>(())
        } else {
            Err::<(), PriceError>(PriceError::Unauthorized)
        },
{
    if actor.is_signer {
        Ok(())
    } else {
        Err(PriceError::Unauthorized)
    }
}

/// Fails with `AlreadyInitialized` unless the slot is empty.
pub fn require_uninitialized(slot: &AccountInfo) -> (checked: Result<(), PriceError>)
    ensures
        checked == if slot.data@.len() == 0 {
            Ok::<(), PriceError>(())
        } else {
            Err::<(), PriceError>(PriceError::AlreadyInitialized)
        },
{
    if slot.data_len() == 0 {
        Ok(())
    } else {
        Err(PriceError::AlreadyInitialized)
    }
}

/// Fails with `NotInitialized` if the slot is empty.
pub fn require_initialized(slot: &AccountInfo) -> (checked: Result<(), PriceError>)
    ensures
        checked == if slot.data@.len() == 0 {
            Err::<(), PriceError>(PriceError::NotInitialized)
        } else {
            Ok::<(), PriceError>(())
        },
{
    if slot.data_len() == 0 {
        Err(PriceError::NotInitialized)
    } else {
        Ok(())
    }
}

/// Fails with `MalformedPayload` if the payload has fewer than `minimum`
/// bytes.
pub fn require_payload_length(payload: &[u8], minimum: usize) -> (checked: Result<(), PriceError>)
    ensures
        checked == if payload@.len() < minimum {
            Err::<(), PriceError>(PriceError::MalformedPayload)
        } else {
            Ok::<(), PriceError>(())
        },
{
    if payload.len() < minimum {
        Err(PriceError::MalformedPayload)
    } else {
        Ok(())
    }
}

/// Holds the slot's address against what the search found for the
/// identifier, and gives the bump when they agree.
pub fn check_address(slot_address: &Pubkey, derived: &Option<(Pubkey, u8)>) -> (checked: Result<
    u8,
    PriceError,
>)
    ensures
        checked == address_check(*slot_address, *derived),
{
    match derived {
        None => Err(PriceError::AddressSpaceExhausted),
        Some(found) => if same_address(&found.0, slot_address) {
            Ok(found.1)
        } else {
            Err(PriceError::AddressMismatch)
        },
    }
}

/// Derives the address for `identifier` and holds the slot's address against
/// it; gives the bump when they agree.
pub fn require_address_matches(
    deriver: &AddressDeriver,
    slot_address: &Pubkey,
    identifier: u64,
) -> (checked: Result<u8, PriceError>)
    ensures
        checked == address_check(*slot_address, deriver.derived(identifier)),
{
    match deriver.derive(identifier) {
        Ok(found) => check_address(slot_address, &Some(found)),
        Err(kind) => Err(kind),
    }
}

} // verus!
