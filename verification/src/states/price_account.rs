//! The price record and its fixed byte layout.
//!
//! A record is seventeen bytes with no padding: the price as the bit pattern
//! of a 64-bit float, the time of the last update as a signed 64-bit number
//! of seconds, both little-endian, and the bump of the record's address.

use crate::account::AccountInfo;
use crate::error::PriceError;
use crate::wire::{
    from_twos_complement, i64_from_bits, i64_to_bits, le_u64,
    lemma_from_twos_complement_of_twos_complement, lemma_le_u64_of_u64_le,
    lemma_twos_complement_of_from_twos_complement, lemma_u64_le_of_le_u64, read_u64_le,
    twos_complement, u64_le, write_u64_le,
};
use vstd::prelude::*;

verus! {

/// The one record this program stores.
#[derive(Clone, Copy, Debug, PartialEq, Eq, Structural)]
pub struct PriceAccount {
    /// The current price, as the bit pattern of a 64-bit float.
    pub price_bits: u64,
    /// The ledger's clock, in seconds, when the record was last written.
    pub last_updated_timestamp: i64,
    /// The bump with which the record's address was derived.
    pub price_account_bump: u8,
}

impl PriceAccount {
    /// The number of bytes a record takes in its slot.
    pub const SIZE: usize = 17;

    /// The seventeen bytes that hold this record.
    pub open spec fn encoding(self) -> Seq<u8> {
        u64_le(self.price_bits) + u64_le(twos_complement(self.last_updated_timestamp))
            + seq![self.price_account_bump]
    }

    /// The record that the first seventeen bytes of `bytes` hold.
    pub open spec fn decoding(bytes: Seq<u8>) -> PriceAccount {
        PriceAccount {
            price_bits: le_u64(bytes.subrange(0, 8)),
            last_updated_timestamp: from_twos_complement(le_u64(bytes.subrange(8, 16))),
            price_account_bump: bytes[16],
        }
    }

    /// Reads the record at the start of `buffer`. Only the length is checked:
    /// any seventeen bytes are a record.
    pub fn decode(buffer: &[u8]) -> (read: Result<PriceAccount, PriceError>)
        ensures
            buffer@.len() < PriceAccount::SIZE ==> read == Err::<PriceAccount, PriceError>(
                PriceError::MalformedRecord,
            ),
            buffer@.len() >= PriceAccount::SIZE ==> read == Ok::<PriceAccount, PriceError>(
                PriceAccount::decoding(buffer@),
            ),
    {
        if buffer.len() < PriceAccount::SIZE {
            return Err(PriceError::MalformedRecord);
        }
        let price_bits = read_u64_le(buffer, 0);
        let timestamp_bits = read_u64_le(buffer, 8);
        Ok(
            PriceAccount {
                price_bits,
                last_updated_timestamp: i64_from_bits(timestamp_bits),
                price_account_bump: buffer[16],
            },
        )
    }

    /// Writes the record over the first seventeen bytes of `buffer` and leaves
    /// the bytes behind them alone. A buffer too short to hold a record is
    /// refused and not touched.
    pub fn encode(&self, buffer: &mut [u8]) -> (written: Result<(), PriceError>)
        ensures
            old(buffer)@.len() < PriceAccount::SIZE ==> written == Err::<(), PriceError>(
                PriceError::MalformedRecord,
            ) && final(buffer)@ == old(buffer)@,
            old(buffer)@.len() >= PriceAccount::SIZE ==> written == Ok::<(), PriceError>(())
                && final(buffer)@ == self.encoding() + old(buffer)@.subrange(
                PriceAccount::SIZE as int,
                old(buffer)@.len() as int,
            ),
    {
        if buffer.len() < PriceAccount::SIZE {
            return Err(PriceError::MalformedRecord);
        }
        write_u64_le(buffer, 0, self.price_bits);
        write_u64_le(buffer, 8, i64_to_bits(self.last_updated_timestamp));
        buffer[16] = self.price_account_bump;
        assert(buffer@ =~= self.encoding() + old(buffer)@.subrange(
            PriceAccount::SIZE as int,
            old(buffer)@.len() as int,
        ));
        Ok(())
    }

    /// The exclusive mutable view of the record in the account's slot. A slot
    /// too short to hold a record is refused, and the account is given back
    /// as it was.
    pub fn from_account_info_mut<'a>(account: &'a mut AccountInfo) -> (view: Result<
        PriceAccountMut<'a>,
        PriceError,
    >)
        ensures
            old(account).data@.len() < PriceAccount::SIZE ==> view is Err && view->Err_0
                == PriceError::MalformedRecord && *final(account) == *old(account),
            old(account).data@.len() >= PriceAccount::SIZE ==> view is Ok && view->Ok_0.slot@
                == old(account).data@ && final(account).is_with_data(
                *old(account),
                final(view->Ok_0.slot)@,
            ),
    {
        if account.data.len() < PriceAccount::SIZE {
            return Err(PriceError::MalformedRecord);
        }
        Ok(PriceAccountMut { slot: account.data.as_mut_slice() })
    }

    /// The read-only view: the record in the account's slot.
    pub fn from_account_info(account: &AccountInfo) -> (read: Result<PriceAccount, PriceError>)
        ensures
            account.data@.len() < PriceAccount::SIZE ==> read == Err::<PriceAccount, PriceError>(
                PriceError::MalformedRecord,
            ),
            account.data@.len() >= PriceAccount::SIZE ==> read == Ok::<PriceAccount, PriceError>(
                PriceAccount::decoding(account.data@),
            ),
    {
        PriceAccount::decode(account.data.as_slice())
    }
}

/// The exclusive mutable view of the record in a slot. While it lives, the
/// slot can be reached through it alone; every change to a record's fields
/// goes through one of its setters.
pub struct PriceAccountMut<'a> {
    /// The slot the view is open on.
    pub slot: &'a mut [u8],
}

impl<'a> PriceAccountMut<'a> {
    /// A view is only ever open on a slot that holds a whole record.
    pub open spec fn wf(&self) -> bool {
        self.slot@.len() >= PriceAccount::SIZE
    }

    /// The record as it stands now.
    pub open spec fn record(&self) -> PriceAccount {
        PriceAccount::decoding(self.slot@)
    }

    /// Reads the record.
    pub fn get(&self) -> (record: PriceAccount)
        requires
            self.wf(),
        ensures
            record == self.record(),
    {
        let price_bits = read_u64_le(self.slot, 0);
        let timestamp_bits = read_u64_le(self.slot, 8);
        PriceAccount {
            price_bits,
            last_updated_timestamp: i64_from_bits(timestamp_bits),
            price_account_bump: self.slot[16],
        }
    }

    /// Overwrites the price and nothing else. The view stays open on the
    /// same slot.
    pub fn set_price(&mut self, price_bits: u64)
        requires
            old(self).wf(),
        ensures
            final(self).slot@ == u64_le(price_bits) + old(self).slot@.subrange(
                8,
                old(self).slot@.len() as int,
            ),
            final(self).record() == (PriceAccount { price_bits, ..old(self).record() }),
            final(final(self).slot)@ == final(old(self).slot)@,
    {
        write_u64_le(self.slot, 0, price_bits);
        proof {
            lemma_le_u64_of_u64_le(price_bits);
            assert(self.slot@ =~= u64_le(price_bits) + old(self).slot@.subrange(
                8,
                old(self).slot@.len() as int,
            ));
            assert(self.slot@.subrange(0, 8) =~= u64_le(price_bits));
            assert(self.slot@.subrange(8, 16) =~= old(self).slot@.subrange(8, 16));
        }
    }

    /// Overwrites the time of the last update and nothing else. The view
    /// stays open on the same slot.
    pub fn set_last_updated_timestamp(&mut self, timestamp: i64)
        requires
            old(self).wf(),
        ensures
            final(self).slot@ == old(self).slot@.subrange(0, 8) + u64_le(twos_complement(timestamp))
                + old(self).slot@.subrange(16, old(self).slot@.len() as int),
            final(self).record() == (PriceAccount {
                last_updated_timestamp: timestamp,
                ..old(self).record()
            }),
            final(final(self).slot)@ == final(old(self).slot)@,
    {
        write_u64_le(self.slot, 8, i64_to_bits(timestamp));
        proof {
            lemma_le_u64_of_u64_le(twos_complement(timestamp));
            lemma_from_twos_complement_of_twos_complement(timestamp);
            assert(self.slot@.subrange(0, 8) =~= old(self).slot@.subrange(0, 8));
            assert(self.slot@.subrange(8, 16) =~= u64_le(twos_complement(timestamp)));
        }
    }

    /// Overwrites the bump and nothing else. The view stays open on the same
    /// slot.
    pub fn set_price_account_bump(&mut self, bump: u8)
        requires
            old(self).wf(),
        ensures
            final(self).slot@ == old(self).slot@.update(16, bump),
            final(self).record() == (PriceAccount { price_account_bump: bump, ..old(self).record() }),
            final(final(self).slot)@ == final(old(self).slot)@,
    {
        self.slot[16] = bump;
        proof {
            assert(self.slot@.subrange(0, 8) =~= old(self).slot@.subrange(0, 8));
            assert(self.slot@.subrange(8, 16) =~= old(self).slot@.subrange(8, 16));
        }
    }
}

/// A record read back from the bytes it was written to is the same record,
/// whatever follows those bytes.
pub proof fn lemma_decode_encode(record: PriceAccount, rest: Seq<u8>)
    ensures
        record.encoding().len() == PriceAccount::SIZE,
        PriceAccount::decoding(record.encoding() + rest) == record,
{
    let bytes = record.encoding() + rest;
    lemma_le_u64_of_u64_le(record.price_bits);
    lemma_le_u64_of_u64_le(twos_complement(record.last_updated_timestamp));
    lemma_from_twos_complement_of_twos_complement(record.last_updated_timestamp);
    assert(bytes.subrange(0, 8) =~= u64_le(record.price_bits));
    assert(bytes.subrange(8, 16) =~= u64_le(twos_complement(record.last_updated_timestamp)));
}

/// Writing back the record that a slot holds changes none of its bytes.
pub proof fn lemma_encode_decode(bytes: Seq<u8>)
    requires
        bytes.len() >= PriceAccount::SIZE,
    ensures
        PriceAccount::decoding(bytes).encoding() == bytes.subrange(0, PriceAccount::SIZE as int),
{
    let record = PriceAccount::decoding(bytes);
    lemma_u64_le_of_le_u64(bytes.subrange(0, 8));
    lemma_u64_le_of_le_u64(bytes.subrange(8, 16));
    lemma_twos_complement_of_from_twos_complement(le_u64(bytes.subrange(8, 16)));
    assert(bytes.subrange(0, 8).subrange(0, 8) =~= bytes.subrange(0, 8));
    assert(bytes.subrange(8, 16).subrange(0, 8) =~= bytes.subrange(8, 16));
    assert(record.encoding() =~= bytes.subrange(0, PriceAccount::SIZE as int));
}

} // verus!
