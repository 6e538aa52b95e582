//! Decoding of instruction bytes.
//!
//! The first byte of an instruction selects the operation; the bytes after
//! it are the operation's parameters, fixed-width little-endian integers.
//! Decoding has no effect on any account.

use vstd::prelude::*;
use crate::bytes::{le_u64, read_u64_le};
use crate::error::CustodyError;

verus! {

/// The discriminator of `make`.
pub const MAKE: u8 = 0;

/// The discriminator of `take`.
pub const TAKE: u8 = 1;

/// The discriminator of `refund`.
pub const REFUND: u8 = 2;

/// The discriminator of `deposit`.
pub const DEPOSIT: u8 = 0;

/// The discriminator of `withdraw`.
pub const WITHDRAW: u8 = 1;

/// The number of parameter bytes of `make`: three 64-bit integers.
pub const MAKE_PARAMS_LEN: usize = 24;

/// The number of parameter bytes of `deposit`: one 64-bit integer.
pub const DEPOSIT_PARAMS_LEN: usize = 8;

/// An operation of the escrow program with its parameters.
#[derive(Clone, Copy, Debug, PartialEq, Eq)]
pub enum EscrowInstruction {
    /// Create a record and lock the offered amount.
    Make { seed: u64, receive: u64, amount: u64 },
    /// Pay the requested amount and receive what is locked.
    Take,
    /// Cancel the record and return what is locked to the maker.
    Refund,
}

/// An operation of the vault program with its parameters.
#[derive(Clone, Copy, Debug, PartialEq, Eq)]
pub enum VaultInstruction {
    /// Move an amount from the owner into the vault.
    Deposit { amount: u64 },
    /// Move everything the vault holds back to the owner.
    Withdraw,
}

/// The 64-bit integer that the eight bytes of `data` from `at` on hold.
pub open spec fn u64_at(data: Seq<u8>, at: int) -> u64 {
    le_u64(data.subrange(at, at + 8)) as u64
}

/// The operation that the bytes of an escrow instruction stand for.
///
/// Decoding fails where there is no discriminator, where the discriminator
/// is unknown, and where the parameters do not have exactly the width that
/// the operation asks for.
pub open spec fn decode_escrow_spec(data: Seq<u8>) -> Result<EscrowInstruction, CustodyError> {
    if data.len() == 0 {
        Err(CustodyError::InvalidInstructionData)
    } else if data[0] == MAKE && data.len() == 1 + MAKE_PARAMS_LEN {
        Ok(
            EscrowInstruction::Make {
                seed: u64_at(data, 1),
                receive: u64_at(data, 9),
                amount: u64_at(data, 17),
            },
        )
    } else if data[0] == TAKE && data.len() == 1 {
        Ok(EscrowInstruction::Take)
    } else if data[0] == REFUND && data.len() == 1 {
        Ok(EscrowInstruction::Refund)
    } else {
        Err(CustodyError::InvalidInstructionData)
    }
}

/// The operation that the bytes of a vault instruction stand for.
pub open spec fn decode_vault_spec(data: Seq<u8>) -> Result<VaultInstruction, CustodyError> {
    if data.len() == 0 {
        Err(CustodyError::InvalidInstructionData)
    } else if data[0] == DEPOSIT && data.len() == 1 + DEPOSIT_PARAMS_LEN {
        Ok(VaultInstruction::Deposit { amount: u64_at(data, 1) })
    } else if data[0] == WITHDRAW && data.len() == 1 {
        Ok(VaultInstruction::Withdraw)
    } else {
        Err(CustodyError::InvalidInstructionData)
    }
}

/// Decodes the bytes of an escrow instruction.
pub fn decode_escrow(data: &[u8]) -> (r: Result<EscrowInstruction, CustodyError>)
    ensures
        r == decode_escrow_spec(data@),
{
    if data.len() == 0 {
        return Err(CustodyError::InvalidInstructionData);
    }
    let discriminator: u8 = data[0];
    if discriminator == MAKE && data.len() == 1 + MAKE_PARAMS_LEN {
        Ok(
            EscrowInstruction::Make {
                seed: read_u64_le(data, 1),
                receive: read_u64_le(data, 9),
                amount: read_u64_le(data, 17),
            },
        )
    } else if discriminator == TAKE && data.len() == 1 {
        Ok(EscrowInstruction::Take)
    } else if discriminator == REFUND && data.len() == 1 {
        Ok(EscrowInstruction::Refund)
    } else {
        Err(CustodyError::InvalidInstructionData)
    }
}

/// Decodes the bytes of a vault instruction.
pub fn decode_vault(data: &[u8]) -> (r: Result<VaultInstruction, CustodyError>)
    ensures
        r == decode_vault_spec(data@),
{
    if data.len() == 0 {
        return Err(CustodyError::InvalidInstructionData);
    }
    let discriminator: u8 = data[0];
    if discriminator == DEPOSIT && data.len() == 1 + DEPOSIT_PARAMS_LEN {
        Ok(VaultInstruction::Deposit { amount: read_u64_le(data, 1) })
    } else if discriminator == WITHDRAW && data.len() == 1 {
        Ok(VaultInstruction::Withdraw)
    } else {
        Err(CustodyError::InvalidInstructionData)
    }
}

/// Decoding succeeds exactly on a known discriminator followed by
/// parameters of the right width.
pub proof fn lemma_decode_escrow_accepts(data: Seq<u8>)
    ensures
        decode_escrow_spec(data) is Ok <==> data.len() > 0 && ((data[0] == MAKE && data.len() == 25)
            || (data[0] == TAKE && data.len() == 1) || (data[0] == REFUND && data.len() == 1)),
        decode_escrow_spec(data) is Err ==> decode_escrow_spec(data) == Err::<
            EscrowInstruction,
            CustodyError,
        >(CustodyError::InvalidInstructionData),
{
}

/// Decoding succeeds exactly on a known discriminator followed by
/// parameters of the right width.
pub proof fn lemma_decode_vault_accepts(data: Seq<u8>)
    ensures
        decode_vault_spec(data) is Ok <==> data.len() > 0 && ((data[0] == DEPOSIT && data.len()
            == 9) || (data[0] == WITHDRAW && data.len() == 1)),
        decode_vault_spec(data) is Err ==> decode_vault_spec(data) == Err::<
            VaultInstruction,
            CustodyError,
        >(CustodyError::InvalidInstructionData),
{
}

} // verus!
