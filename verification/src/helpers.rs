//! The rules on single accounts that the escrow operations share.

use vstd::prelude::*;
use crate::account::{Account, Environment};
use crate::address::Address;
use crate::error::CustodyError;
use crate::ledger::{holding_address, holding_in, HOLDING_LEN};
use crate::schema::{
    anything, check_account, Content, Pin, pin_of, pin_to, program_reference, program_requirement,
    Requirement, Role, verdict,
};

verus! {

/// The least number of bytes that the account of an asset type holds.
pub const MINT_MIN_LEN: usize = 8;

/// Validates that the maker authorizes the operation: the account has to
/// have signed.
pub fn validate_maker_account(maker: &Account) -> (r: Result<(), CustodyError>)
    ensures
        r == verdict(maker@, signer_requirement()),
        maker.is_signer ==> r is Ok,
        !maker.is_signer ==> r == Err::<(), CustodyError>(CustodyError::MissingSignature),
{
    check_account(maker, &signer())
}

/// What `validate_mint_account` and `validate_mint_interface` answer.
pub open spec fn mint_verdict(mint: Account, env: Environment) -> Result<(), CustodyError> {
    if mint.owner != env.token_program {
        Err(CustodyError::WrongOwner)
    } else if mint.data@.len() < MINT_MIN_LEN {
        Err(CustodyError::WrongLayout)
    } else {
        Ok(())
    }
}

/// Validates that the account can be the record of an asset type: the
/// token program owns it, and it holds at least `MINT_MIN_LEN` bytes.
pub fn validate_mint_account(mint: &Account, env: &Environment) -> (r: Result<(), CustodyError>)
    ensures
        r == verdict(mint@, mint_requirement(*env)),
        r == mint_verdict(*mint, *env),
{
    check_account(mint, &self::mint(env))
}

/// Validates that the account can be the record of an asset type in the
/// form that every token program shares.
pub fn validate_mint_interface(mint: &Account, env: &Environment) -> (r: Result<(), CustodyError>)
    ensures
        r == verdict(mint@, mint_requirement(*env)),
        r == mint_verdict(*mint, *env),
{
    check_account(mint, &self::mint(env))
}

/// What is required of the holding of `asset` for `holder`: it is a
/// holding, and it lives at the address derived for the two.
pub open spec fn holding_of_requirement(
    env: Environment,
    holder: Address,
    asset: Address,
) -> Requirement {
    Requirement { pin: pin_of(holding_in(env, holder, asset)), ..holding_requirement(env) }
}

/// What `validate_associated_token_account` answers.
pub open spec fn holding_verdict(
    ata: Account,
    owner: Account,
    mint: Account,
    env: Environment,
) -> Result<(), CustodyError> {
    if holding_in(env, owner.address, mint.address) != Some(ata.address) {
        Err(CustodyError::AddressMismatch)
    } else if ata.owner != env.token_program {
        Err(CustodyError::WrongOwner)
    } else if ata.data@.len() < HOLDING_LEN {
        Err(CustodyError::WrongLayout)
    } else {
        Ok(())
    }
}

/// Validates that the account is the holding of the asset type `mint` for
/// `owner`: it lives at the address derived for them under the programs of
/// the environment, the token program owns it, and it holds at least the
/// bytes of a holding.
pub fn validate_associated_token_account(
    ata: &Account,
    owner: &Account,
    mint: &Account,
    env: &Environment,
) -> (r: Result<(), CustodyError>)
    ensures
        r == verdict(ata@, holding_of_requirement(*env, owner.address, mint.address)),
        r == holding_verdict(*ata, *owner, *mint, *env),
{
    let mut requirement = holding(env);
    requirement.pin = pin_to(holding_of(env, &owner.address, &mint.address));
    check_account(ata, &requirement)
}

/// Validates that the account names the system program.
pub fn validate_system_program(system_program: &Account, env: &Environment) -> (r: Result<
    (),
    CustodyError,
>)
    ensures
        r == verdict(system_program@, program_requirement(env.system_program)),
        system_program.address == env.system_program ==> r is Ok,
        system_program.address != env.system_program ==> r == Err::<(), CustodyError>(
            CustodyError::WrongProgram,
        ),
{
    check_account(system_program, &program_reference(env.system_program))
}

/// Validates that the account names the token program.
pub fn validate_token_program(token_program: &Account, env: &Environment) -> (r: Result<
    (),
    CustodyError,
>)
    ensures
        r == verdict(token_program@, program_requirement(env.token_program)),
        token_program.address == env.token_program ==> r is Ok,
        token_program.address != env.token_program ==> r == Err::<(), CustodyError>(
            CustodyError::WrongProgram,
        ),
{
    check_account(token_program, &program_reference(env.token_program))
}

/// Validates that the account names the associated token program.
pub fn validate_associated_token_program(program: &Account, env: &Environment) -> (r: Result<
    (),
    CustodyError,
>)
    ensures
        r == verdict(program@, program_requirement(env.associated_token_program)),
        program.address == env.associated_token_program ==> r is Ok,
        program.address != env.associated_token_program ==> r == Err::<(), CustodyError>(
            CustodyError::WrongProgram,
        ),
{
    check_account(program, &program_reference(env.associated_token_program))
}

/// A writable holding: an account of the token program with at least the
/// bytes of a holding.
pub open spec fn holding_requirement(env: Environment) -> Requirement {
    Requirement {
        role: Role::Writable,
        pin: Pin::Anywhere,
        content: Content::AtLeast(HOLDING_LEN),
        owner: Some(env.token_program),
    }
}

/// The record of an asset type: an account of the token program with at
/// least `MINT_MIN_LEN` bytes.
pub open spec fn mint_requirement(env: Environment) -> Requirement {
    Requirement {
        role: Role::ReadOnly,
        pin: Pin::Anywhere,
        content: Content::AtLeast(MINT_MIN_LEN),
        owner: Some(env.token_program),
    }
}

/// A custody record of the program.
pub open spec fn record_requirement(env: Environment) -> Requirement {
    Requirement {
        role: Role::Writable,
        pin: Pin::Anywhere,
        content: Content::Record,
        owner: Some(env.program_id),
    }
}

/// The address of the holding of `asset` for `holder` under the programs of
/// the environment.
pub fn holding_of(env: &Environment, holder: &Address, asset: &Address) -> (r: Option<Address>)
    ensures
        r == holding_in(*env, *holder, *asset),
{
    holding_address(&env.token_program, &env.associated_token_program, holder, asset)
}

/// The requirement on an account that has to sign.
pub open spec fn signer_requirement() -> Requirement {
    Requirement { role: Role::Signer, ..anything() }
}

/// The requirement on an account that has to sign.
pub fn signer() -> (r: Requirement)
    ensures
        r == signer_requirement(),
{
    Requirement { role: Role::Signer, pin: Pin::Anywhere, content: Content::Any, owner: None }
}

/// The requirement on a writable holding.
pub fn holding(env: &Environment) -> (r: Requirement)
    ensures
        r == holding_requirement(*env),
{
    Requirement {
        role: Role::Writable,
        pin: Pin::Anywhere,
        content: Content::AtLeast(HOLDING_LEN),
        owner: Some(env.token_program),
    }
}

/// The requirement on the record of an asset type.
pub fn mint(env: &Environment) -> (r: Requirement)
    ensures
        r == mint_requirement(*env),
{
    Requirement {
        role: Role::ReadOnly,
        pin: Pin::Anywhere,
        content: Content::AtLeast(MINT_MIN_LEN),
        owner: Some(env.token_program),
    }
}

/// The requirement on a custody record of the program.
pub fn record_of(env: &Environment) -> (r: Requirement)
    ensures
        r == record_requirement(*env),
{
    Requirement {
        role: Role::Writable,
        pin: Pin::Anywhere,
        content: Content::Record,
        owner: Some(env.program_id),
    }
}

} // verus!
