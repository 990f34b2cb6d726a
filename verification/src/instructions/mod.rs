//! The instructions the program accepts, and what each payload carries.

pub mod create_price_account;
pub mod get_price;
pub mod modify_price;
pub mod set_price;

use crate::error::PriceError;
use crate::wire::le_u64;
use vstd::prelude::*;

verus! {

/// The instructions, in the order of their opcodes: the first byte of an
/// instruction's data is 0, 1, 2 or 3.
#[derive(Clone, Copy, Debug, PartialEq, Eq, Structural)]
pub enum PriceInstructions {
    /// Opcode 0. Accounts: the payer, who signs; the record's slot; the
    /// system program. Payload: the identifier.
    CreatePriceAccount,
    /// Opcode 1. Accounts: the signer; the record's slot; the system
    /// program. Payload: the identifier, then the price.
    SetPrice,
    /// Opcode 2. Accounts and payload as for `SetPrice`.
    ModifyPrice,
    /// Opcode 3. Accounts: the signer; the record's slot; the system
    /// program. No payload.
    GetPrice,
}

impl PriceInstructions {
    /// The instruction that `opcode` names, if it names one.
    pub open spec fn of_opcode(opcode: u8) -> Option<PriceInstructions> {
        if opcode == 0 {
            Some(PriceInstructions::CreatePriceAccount)
        } else if opcode == 1 {
            Some(PriceInstructions::SetPrice)
        } else if opcode == 2 {
            Some(PriceInstructions::ModifyPrice)
        } else if opcode == 3 {
            Some(PriceInstructions::GetPrice)
        } else {
            None
        }
    }

    /// The opcode that names this instruction.
    pub open spec fn spec_opcode(self) -> u8 {
        match self {
            PriceInstructions::CreatePriceAccount => 0,
            PriceInstructions::SetPrice => 1,
            PriceInstructions::ModifyPrice => 2,
            PriceInstructions::GetPrice => 3,
        }
    }

    /// The opcode that names this instruction.
    #[verifier::when_used_as_spec(spec_opcode)]
    pub fn opcode(self) -> (opcode: u8)
        ensures
            opcode == self.spec_opcode(),
    {
        match self {
            PriceInstructions::CreatePriceAccount => 0,
            PriceInstructions::SetPrice => 1,
            PriceInstructions::ModifyPrice => 2,
            PriceInstructions::GetPrice => 3,
        }
    }
}

impl TryFrom<&u8> for PriceInstructions {
    type Error = PriceError;

    /// Reads an opcode. Any byte but 0, 1, 2 and 3 is refused.
    fn try_from(value: &u8) -> (read: Result<PriceInstructions, PriceError>)
        ensures
            read == match PriceInstructions::of_opcode(*value) {
                Some(instruction) => Ok::<PriceInstructions, PriceError>(instruction),
                None => Err::<PriceInstructions, PriceError>(PriceError::UnknownOpcode),
            },
    {
        match *value {
            0 => Ok(PriceInstructions::CreatePriceAccount),
            1 => Ok(PriceInstructions::SetPrice),
            2 => Ok(PriceInstructions::ModifyPrice),
            3 => Ok(PriceInstructions::GetPrice),
            _ => Err(PriceError::UnknownOpcode),
        }
    }
}

impl vstd::std_specs::convert::TryFromSpecImpl<&u8> for PriceInstructions {
    open spec fn obeys_try_from_spec() -> bool {
        true
    }

    open spec fn try_from_spec(value: &u8) -> Result<PriceInstructions, PriceError> {
        match PriceInstructions::of_opcode(*value) {
            Some(instruction) => Ok(instruction),
            None => Err(PriceError::UnknownOpcode),
        }
    }
}

/// Every instruction is read back from its own opcode, and no other byte
/// names it.
pub proof fn lemma_opcode_names_one_instruction(instruction: PriceInstructions, opcode: u8)
    ensures
        PriceInstructions::of_opcode(instruction.spec_opcode()) == Some(instruction),
        PriceInstructions::of_opcode(opcode) == Some(instruction) ==> opcode
            == instruction.spec_opcode(),
{
}

/// The number of accounts every instruction is given: the signer, the
/// record's slot and the system program, in this order.
pub const ACCOUNTS: usize = 3;

/// Where the signer stands among the accounts.
pub const SIGNER: usize = 0;

/// Where the record's slot stands among the accounts.
pub const SLOT: usize = 1;

/// The identifier a payload carries: its first eight bytes, little-endian.
pub open spec fn identifier_of(payload: Seq<u8>) -> u64 {
    le_u64(payload.subrange(0, 8))
}

/// The price a payload carries, as the bit pattern of a 64-bit float: its
/// second eight bytes, little-endian.
pub open spec fn price_of(payload: Seq<u8>) -> u64 {
    le_u64(payload.subrange(8, 16))
}

} // verus!
