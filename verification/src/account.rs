//! The account handles an instruction is given.

use vstd::prelude::*;

verus! {

/// A storage address, or the identity of a program or of a signer.
pub type Pubkey = [u8; 32];

/// One account as the ledger hands it to an instruction: plain values, so
/// that every rule can be stated over them.
#[derive(Clone, Debug, PartialEq, Eq)]
pub struct AccountInfo {
    /// The address the account lives at.
    pub key: Pubkey,
    /// Whether the transaction was signed for this account.
    pub is_signer: bool,
    /// The slot: the raw bytes stored at the address.
    pub data: Vec<u8>,
    /// The program that owns the account.
    pub owner: Pubkey,
    /// The account's balance.
    pub lamports: u64,
}

impl AccountInfo {
    /// The number of bytes in the slot.
    pub fn data_len(&self) -> (length: usize)
        ensures
            length == self.data@.len(),
    {
        self.data.len()
    }

    /// Whether `self` is `before` with `bytes` in its slot and nothing else
    /// changed.
    pub open spec fn is_with_data(self, before: AccountInfo, bytes: Seq<u8>) -> bool {
        &&& self.key == before.key
        &&& self.is_signer == before.is_signer
        &&& self.data@ == bytes
        &&& self.owner == before.owner
        &&& self.lamports == before.lamports
    }
}

/// Whether two addresses are the same.
pub fn same_address(left: &Pubkey, right: &Pubkey) -> (same: bool)
    ensures
        same == (*left == *right),
{
    let mut at: usize = 0;
    while at < 32
        invariant
            at <= 32,
            forall|k: int| 0 <= k < at ==> left@[k] == right@[k],
        decreases 32 - at,
    {
        if left[at] != right[at] {
            return false;
        }
        at = at + 1;
    }
    assert(*left =~= *right);
    true
}

} // verus!
