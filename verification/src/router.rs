//! A program with two operations that are told apart by the first byte of
//! the instruction.

use vstd::prelude::*;
use vstd::slice::slice_subrange;
use crate::account::Account;
use crate::address::Address;
use crate::error::CustodyError;

verus! {

/// The discriminator of `mint`.
pub const MINT: u8 = 0;

/// The discriminator of `transfer`.
pub const TRANSFER: u8 = 1;

/// The `mint` operation. It accepts every invocation.
pub fn process_instruction_mint(
    _program_id: &Address,
    _accounts: &Vec<Account>,
    _data: &[u8],
) -> (r: Result<(), CustodyError>)
    ensures
        r is Ok,
{
    Ok(())
}

/// The `transfer` operation. It accepts every invocation.
pub fn process_instruction_transfer(
    _program_id: &Address,
    _accounts: &Vec<Account>,
    _data: &[u8],
) -> (r: Result<(), CustodyError>)
    ensures
        r is Ok,
{
    Ok(())
}

/// Whether the instruction names one of the two operations.
pub open spec fn routable(data: Seq<u8>) -> bool {
    data.len() >= 1 && (data[0] == MINT || data[0] == TRANSFER)
}

/// Hands the invocation to the operation that the first byte names, with
/// the bytes after it. An instruction without a first byte, or with one
/// that names no operation, is rejected.
pub fn process_instruction(program_id: &Address, accounts: &Vec<Account>, data: &[u8]) -> (r:
    Result<(), CustodyError>)
    ensures
        routable(data@) ==> r is Ok,
        !routable(data@) ==> r == Err::<(), CustodyError>(CustodyError::InvalidInstructionData),
{
    if data.len() < 1 {
        return Err(CustodyError::InvalidInstructionData);
    }
    let discriminator: u8 = data[0];
    let rest = slice_subrange(data, 1, data.len());
    if discriminator == MINT {
        process_instruction_mint(program_id, accounts, rest)
    } else if discriminator == TRANSFER {
        process_instruction_transfer(program_id, accounts, rest)
    } else {
        Err(CustodyError::InvalidInstructionData)
    }
}

} // verus!
