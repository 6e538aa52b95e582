//! The error kinds with which the custody core rejects an invocation.

use vstd::prelude::*;

verus! {

/// Why an invocation was rejected.
///
/// Every validator, decoder and handler stops at the first rule that is
/// broken and reports it with one of these kinds, so that a caller can tell
/// bad input from missing authorization from an operation that has already
/// been carried out.
#[derive(Clone, Copy, Debug, PartialEq, Eq, Structural)]
pub enum CustodyError {
    /// The account list does not have exactly the length the operation asks for.
    NotEnoughAccounts,
    /// An account that has to sign did not sign.
    MissingSignature,
    /// A supplied address differs from the derived or stored one, or one
    /// account was supplied under two roles.
    AddressMismatch,
    /// An account is not owned by the program that has to own it.
    WrongOwner,
    /// A program reference does not name the expected program.
    WrongProgram,
    /// An account that is to be created already holds data.
    AlreadyInitialized,
    /// An account that has to hold a record holds no data.
    Uninitialized,
    /// An account holds data of another size or kind than expected.
    WrongLayout,
    /// The instruction bytes have no discriminator, an unknown one, or a
    /// parameter block of the wrong width.
    InvalidInstructionData,
    /// An amount is zero, or a balance computation would go below zero.
    InvalidAmount,
    /// A transfer or an allocation was refused by the ledger.
    TransferFailed,
}

} // verus!
