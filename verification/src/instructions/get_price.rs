//! GetPrice: the read path. It checks who asks and changes nothing.

use crate::account::AccountInfo;
use crate::error::PriceError;
use crate::instructions::{ACCOUNTS, SIGNER};
use crate::validation::require_signer;
use vstd::prelude::*;

verus! {

/// What GetPrice answers for `accounts`.
pub open spec fn get_price_outcome(accounts: Seq<AccountInfo>) -> Result<(), PriceError> {
    if accounts.len() != ACCOUNTS {
        Err(PriceError::MalformedAccounts)
    } else if !accounts[SIGNER as int].is_signer {
        Err(PriceError::Unauthorized)
    } else {
        Ok(())
    }
}

/// Accepts the instruction when the first of its three accounts signed. No
/// record is read and none is returned.
pub fn process_get_price(accounts: &[AccountInfo]) -> (done: Result<(), PriceError>)
    ensures
        done == get_price_outcome(accounts@),
{
    if accounts.len() != ACCOUNTS {
        return Err(PriceError::MalformedAccounts);
    }
    require_signer(&accounts[SIGNER])
}

/// GetPrice is refused as unauthorized whenever the signer's flag is not set.
pub proof fn lemma_get_price_requires_signer(accounts: Seq<AccountInfo>)
    requires
        accounts.len() == ACCOUNTS,
        !accounts[SIGNER as int].is_signer,
    ensures
        get_price_outcome(accounts) == Err::<(), PriceError>(PriceError::Unauthorized),
{
}

} // verus!
