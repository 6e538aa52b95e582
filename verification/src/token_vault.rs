//! The token vault program: asset units are moved into a vault holding and
//! out of it again. The vault holding belongs to a derived address, so only
//! the program can move units out.

use vstd::prelude::*;
use crate::account::{Account, AccountState, Environment};
use crate::address::{Address, derive_address, derive_address_spec, seed_bytes, with_bump};
use crate::calls::{Call, CallModel, ran};
use crate::error::CustodyError;
use crate::helpers::{
    holding, holding_requirement, mint, mint_requirement, signer, signer_requirement,
};
use crate::ledger::{
    can_move_tokens, proves_authority, tokens_credited, tokens_debited, transfer_tokens,
    transfer_tokens_signed,
};
use crate::schema::{
    any_account, anything, Content, Pin, program_reference, program_requirement, Requirement, Role,
    validate, validate_spec,
};

verus! {

/// The place of the derived address that has authority over the vault.
pub const TOKEN_ACCOUNT_OWNER_PDA: usize = 0;

/// The place of the vault holding.
pub const VAULT_TOKEN_ACCOUNT: usize = 1;

/// The place of the sender's holding.
pub const SENDER_TOKEN_ACCOUNT: usize = 2;

/// The place of the asset type.
pub const MINT_OF_TOKEN_BEING_SENT: usize = 3;

/// The place of the signer.
pub const SIGNER: usize = 4;

/// The place of the system program.
pub const SYSTEM_PROGRAM: usize = 5;

/// The place of the token program.
pub const TOKEN_PROGRAM: usize = 6;

/// The place of the ledger's record of storage charges.
pub const RENT: usize = 7;

/// The number of accounts of a transfer.
pub const TRANSFER_ACCOUNTS_LEN: usize = 8;

/// The only seed of the address that has authority over the vault: the
/// bytes of `token_account_owner_pda`.
pub open spec fn authority_tag() -> Seq<u8> {
    seq![
        0x74u8,
        0x6fu8,
        0x6bu8,
        0x65u8,
        0x6eu8,
        0x5fu8,
        0x61u8,
        0x63u8,
        0x63u8,
        0x6fu8,
        0x75u8,
        0x6eu8,
        0x74u8,
        0x5fu8,
        0x6fu8,
        0x77u8,
        0x6eu8,
        0x65u8,
        0x72u8,
        0x5fu8,
        0x70u8,
        0x64u8,
        0x61u8,
    ]
}

/// The first seed of the vault holding: the bytes of `token_vault`.
pub open spec fn vault_tag() -> Seq<u8> {
    seq![0x74u8, 0x6fu8, 0x6bu8, 0x65u8, 0x6eu8, 0x5fu8, 0x76u8, 0x61u8, 0x75u8, 0x6cu8, 0x74u8]
}

/// The seeds of the address that has authority over the vault.
pub open spec fn authority_seeds_spec() -> Seq<Seq<u8>> {
    seq![authority_tag()]
}

/// The seeds of the vault holding of an asset type.
pub open spec fn vault_seeds_spec(asset: Address) -> Seq<Seq<u8>> {
    seq![vault_tag(), asset@]
}

fn authority_tag_bytes() -> (r: Vec<u8>)
    ensures
        r@ == authority_tag(),
{
    let mut tag: Vec<u8> = Vec::new();
    tag.push(0x74u8);
    tag.push(0x6fu8);
    tag.push(0x6bu8);
    tag.push(0x65u8);
    tag.push(0x6eu8);
    tag.push(0x5fu8);
    tag.push(0x61u8);
    tag.push(0x63u8);
    tag.push(0x63u8);
    tag.push(0x6fu8);
    tag.push(0x75u8);
    tag.push(0x6eu8);
    tag.push(0x74u8);
    tag.push(0x5fu8);
    tag.push(0x6fu8);
    tag.push(0x77u8);
    tag.push(0x6eu8);
    tag.push(0x65u8);
    tag.push(0x72u8);
    tag.push(0x5fu8);
    tag.push(0x70u8);
    tag.push(0x64u8);
    tag.push(0x61u8);
    tag
}

/// The seeds of the address that has authority over the vault.
pub fn authority_seeds() -> (r: Vec<Vec<u8>>)
    ensures
        seed_bytes(r@) == authority_seeds_spec(),
{
    let mut seeds: Vec<Vec<u8>> = Vec::new();
    seeds.push(authority_tag_bytes());
    seeds
}

/// The seeds that prove the program's authority over the vault: the seeds
/// of the authority followed by its bump.
pub fn authority_signer_seeds(bump: u8) -> (r: Vec<Vec<u8>>)
    ensures
        seed_bytes(r@) == authority_seeds_spec().push(seq![bump]),
{
    with_bump(authority_seeds(), bump)
}

/// The seeds of the vault holding of an asset type.
pub fn vault_seeds(asset: &Address) -> (r: Vec<Vec<u8>>)
    ensures
        seed_bytes(r@) == vault_seeds_spec(*asset),
{
    let mut tag: Vec<u8> = Vec::new();
    tag.push(0x74u8);
    tag.push(0x6fu8);
    tag.push(0x6bu8);
    tag.push(0x65u8);
    tag.push(0x6eu8);
    tag.push(0x5fu8);
    tag.push(0x76u8);
    tag.push(0x61u8);
    tag.push(0x75u8);
    tag.push(0x6cu8);
    tag.push(0x74u8);
    assert(tag@ =~= vault_tag());
    let mut seeds: Vec<Vec<u8>> = Vec::new();
    seeds.push(tag);
    seeds.push(asset.to_vec());
    seeds
}

/// The accounts with which the vault of an asset type is set up.
#[derive(Clone, Debug, PartialEq, Eq)]
pub struct Initialize {
    pub token_account_owner_pda: Account,
    pub vault_token_account: Account,
    pub mint_of_token_being_sent: Account,
    pub signer: Account,
    pub system_program: Account,
    pub token_program: Account,
    pub rent: Account,
}

/// The accounts of a transfer into or out of the vault.
#[derive(Clone, Debug, PartialEq, Eq)]
pub struct TransferAccounts {
    pub token_account_owner_pda: Account,
    pub vault_token_account: Account,
    pub sender_token_account: Account,
    pub mint_of_token_being_sent: Account,
    pub signer: Account,
    pub system_program: Account,
    pub token_program: Account,
    pub rent: Account,
}

/// The pin that a derivation stands for.
pub open spec fn found_pin(found: Option<(Address, u8)>) -> Pin {
    match found {
        Some((a, _)) => Pin::At(a),
        None => Pin::Nowhere,
    }
}

/// What a transfer requires of its accounts: the authority and the vault
/// live at their derived addresses, the holdings and the asset type are
/// plausible, the signer signs, and the programs are the known ones.
pub open spec fn transfer_schema(env: Environment, t: Seq<AccountState>) -> Seq<Requirement> {
    seq![
        Requirement {
            role: Role::Writable,
            pin: found_pin(derive_address_spec(authority_seeds_spec(), env.program_id)),
            ..anything()
        },
        Requirement {
            pin: found_pin(
                derive_address_spec(
                    vault_seeds_spec(t[MINT_OF_TOKEN_BEING_SENT as int].address),
                    env.program_id,
                ),
            ),
            ..holding_requirement(env)
        },
        holding_requirement(env),
        mint_requirement(env),
        signer_requirement(),
        program_requirement(env.system_program),
        program_requirement(env.token_program),
        anything(),
    ]
}

/// Whether a transfer accepts the accounts, and if so with which bump of the
/// authority; if not, why not.
pub open spec fn transfer_verdict(env: Environment, t: Seq<AccountState>) -> Result<
    u8,
    CustodyError,
> {
    match validate_spec(t, transfer_schema(env, t)) {
        Err(e) => Err(e),
        Ok(_) => Ok(derive_address_spec(authority_seeds_spec(), env.program_id)->Some_0.1),
    }
}

fn pin_found(found: Option<(Address, u8)>) -> (r: Pin)
    ensures
        r == found_pin(found),
{
    match found {
        Some((a, _)) => Pin::At(a),
        None => Pin::Nowhere,
    }
}

impl TransferAccounts {
    /// The accounts as a list, in the order in which they are supplied.
    pub open spec fn table(self) -> Seq<AccountState> {
        seq![
            self.token_account_owner_pda@,
            self.vault_token_account@,
            self.sender_token_account@,
            self.mint_of_token_being_sent@,
            self.signer@,
            self.system_program@,
            self.token_program@,
            self.rent@,
        ]
    }

    /// Takes the accounts of a transfer from an account list, holds them to
    /// `transfer_schema`, and finds the bump of the authority.
    pub fn try_accounts(env: &Environment, accounts: &Vec<Account>) -> (r: Result<
        (TransferAccounts, u8),
        CustodyError,
    >)
        ensures
            r is Ok <==> transfer_verdict(*env, accounts.deep_view()) is Ok,
            r matches Err(e) ==> transfer_verdict(*env, accounts.deep_view()) == Err::<
                u8,
                CustodyError,
            >(e),
            r matches Ok((a, bump)) ==> a.table() == accounts.deep_view() && transfer_verdict(
                *env,
                accounts.deep_view(),
            ) == Ok::<u8, CustodyError>(bump),
    {
        if accounts.len() != TRANSFER_ACCOUNTS_LEN {
            return Err(CustodyError::NotEnoughAccounts);
        }
        let authority = derive_address(&authority_seeds(), &env.program_id);
        let vault = derive_address(
            &vault_seeds(&accounts[MINT_OF_TOKEN_BEING_SENT].address),
            &env.program_id,
        );
        let mut schema: Vec<Requirement> = Vec::new();
        schema.push(
            Requirement {
                role: Role::Writable,
                pin: pin_found(authority),
                content: Content::Any,
                owner: None,
            },
        );
        let mut vault_requirement = holding(env);
        vault_requirement.pin = pin_found(vault);
        schema.push(vault_requirement);
        schema.push(holding(env));
        schema.push(mint(env));
        schema.push(signer());
        schema.push(program_reference(env.system_program));
        schema.push(program_reference(env.token_program));
        schema.push(any_account());
        assert(schema@ =~= transfer_schema(*env, accounts.deep_view()));
        match validate(accounts, &schema) {
            Ok(()) => {},
            Err(e) => {
                return Err(e);
            },
        }
        let taken = TransferAccounts {
            token_account_owner_pda: accounts[TOKEN_ACCOUNT_OWNER_PDA].duplicate(),
            vault_token_account: accounts[VAULT_TOKEN_ACCOUNT].duplicate(),
            sender_token_account: accounts[SENDER_TOKEN_ACCOUNT].duplicate(),
            mint_of_token_being_sent: accounts[MINT_OF_TOKEN_BEING_SENT].duplicate(),
            signer: accounts[SIGNER].duplicate(),
            system_program: accounts[SYSTEM_PROGRAM].duplicate(),
            token_program: accounts[TOKEN_PROGRAM].duplicate(),
            rent: accounts[RENT].duplicate(),
        };
        match authority {
            Some((_, bump)) => Ok((taken, bump)),
            None => Err(CustodyError::AddressMismatch),
        }
    }
}

/// Sets up the vault. The accounts are created by whoever validates them;
/// nothing is left to do.
pub fn initialize(_ctx: &Initialize) -> (r: Result<(), CustodyError>)
    ensures
        r is Ok,
{
    Ok(())
}

/// What a transfer into the vault does to the sender's holding and to the
/// vault, or why it is rejected: an amount of zero cannot be moved in, and the signer
/// has to have signed.
pub open spec fn transfer_in_outcome(ctx: Seq<AccountState>, amount: u64) -> Result<
    (AccountState, AccountState),
    CustodyError,
> {
    let sender = ctx[SENDER_TOKEN_ACCOUNT as int];
    let vault = ctx[VAULT_TOKEN_ACCOUNT as int];
    if amount == 0 {
        Err(CustodyError::InvalidAmount)
    } else if ctx[SIGNER as int].is_signer && can_move_tokens(sender, vault, amount) {
        Ok((tokens_debited(sender, amount), tokens_credited(vault, amount)))
    } else {
        Err(CustodyError::TransferFailed)
    }
}

/// What a transfer out of the vault does to the sender's holding and to the
/// vault, or why it is rejected: the seed and the bump have to prove the
/// program's authority over the vault.
pub open spec fn transfer_out_outcome(
    env: Environment,
    ctx: Seq<AccountState>,
    amount: u64,
    bump: u8,
) -> Result<(AccountState, AccountState), CustodyError> {
    let sender = ctx[SENDER_TOKEN_ACCOUNT as int];
    let vault = ctx[VAULT_TOKEN_ACCOUNT as int];
    if proves_authority(
        authority_seeds_spec().push(seq![bump]),
        env.program_id,
        ctx[TOKEN_ACCOUNT_OWNER_PDA as int].address,
    ) && can_move_tokens(vault, sender, amount) {
        Ok((tokens_credited(sender, amount), tokens_debited(vault, amount)))
    } else {
        Err(CustodyError::TransferFailed)
    }
}

/// The accounts after a transfer has changed the sender's holding and the
/// vault.
pub open spec fn transferred(ctx: Seq<AccountState>, outcome: (AccountState, AccountState)) -> Seq<
    AccountState,
> {
    ctx.update(SENDER_TOKEN_ACCOUNT as int, outcome.0).update(
        VAULT_TOKEN_ACCOUNT as int,
        outcome.1,
    )
}

/// The calls that carry out a transfer into the vault, or why there are
/// none: an amount of zero cannot be moved in, and then one transfer moves the units
/// on the signer's authority.
pub open spec fn transfer_in_plan_spec(amount: u64) -> Result<Seq<CallModel>, CustodyError> {
    if amount == 0 {
        Err(CustodyError::InvalidAmount)
    } else {
        Ok(
            seq![
                CallModel::TransferTokens {
                    from: SENDER_TOKEN_ACCOUNT as int,
                    to: VAULT_TOKEN_ACCOUNT as int,
                    authority: SIGNER as int,
                    amount: amount,
                },
            ],
        )
    }
}

/// The calls that carry out a transfer out of the vault: one transfer on
/// the program's authority over the vault.
pub open spec fn transfer_out_plan_spec(amount: u64, bump: u8) -> Seq<CallModel> {
    seq![
        CallModel::TransferTokensSigned {
            from: VAULT_TOKEN_ACCOUNT as int,
            to: SENDER_TOKEN_ACCOUNT as int,
            authority: TOKEN_ACCOUNT_OWNER_PDA as int,
            amount: amount,
            seeds: authority_seeds_spec().push(seq![bump]),
        },
    ]
}

/// Carrying out the calls of a transfer leaves exactly what
/// `transfer_in_outcome` and `transfer_out_outcome` say.
pub proof fn lemma_transfer_plans_run(env: Environment, t: Seq<AccountState>, amount: u64, bump: u8)
    requires
        t.len() == TRANSFER_ACCOUNTS_LEN,
    ensures
        amount > 0 ==> ran(env, t, transfer_in_plan_spec(amount)->Ok_0, 0)
            == match transfer_in_outcome(t, amount) {
            Ok(outcome) => Some(transferred(t, outcome)),
            Err(_) => None,
        },
        ran(env, t, transfer_out_plan_spec(amount, bump), 0) == match transfer_out_outcome(
            env,
            t,
            amount,
            bump,
        ) {
            Ok(outcome) => Some(transferred(t, outcome)),
            Err(_) => None,
        },
{
    reveal_with_fuel(ran, 2);
}

/// Plans a transfer of `amount` units into the vault.
pub fn transfer_in_plan(amount: u64) -> (r: Result<Vec<Call>, CustodyError>)
    ensures
        match transfer_in_plan_spec(amount) {
            Ok(calls) => r is Ok && r->Ok_0.deep_view() == calls,
            Err(e) => r is Err && r->Err_0 == e,
        },
{
    if amount == 0 {
        return Err(CustodyError::InvalidAmount);
    }
    let mut calls: Vec<Call> = Vec::new();
    calls.push(
        Call::TransferTokens {
            from: SENDER_TOKEN_ACCOUNT,
            to: VAULT_TOKEN_ACCOUNT,
            authority: SIGNER,
            amount,
        },
    );
    Ok(calls)
}

/// Plans a transfer of `amount` units out of the vault.
pub fn transfer_out_plan(amount: u64, bump: u8) -> (r: Vec<Call>)
    ensures
        r.deep_view() == transfer_out_plan_spec(amount, bump),
{
    let mut calls: Vec<Call> = Vec::new();
    calls.push(
        Call::TransferTokensSigned {
            from: VAULT_TOKEN_ACCOUNT,
            to: SENDER_TOKEN_ACCOUNT,
            authority: TOKEN_ACCOUNT_OWNER_PDA,
            amount,
            seeds: authority_signer_seeds(bump),
        },
    );
    calls
}

/// Moves `amount` units from the sender's holding into the vault, on the
/// signer's authority.
pub fn transfer_in(ctx: &mut TransferAccounts, amount: u64) -> (r: Result<(), CustodyError>)
    ensures
        match transfer_in_outcome(old(ctx).table(), amount) {
            Ok(outcome) => r is Ok && final(ctx).table() == transferred(old(ctx).table(), outcome),
            Err(e) => r == Err::<(), CustodyError>(e) && final(ctx).table() == old(ctx).table(),
        },
{
    if amount == 0 {
        return Err(CustodyError::InvalidAmount);
    }
    transfer_tokens(
        &mut ctx.sender_token_account,
        &mut ctx.vault_token_account,
        &ctx.signer,
        amount,
    )
}

/// Moves `amount` units from the vault to the sender's holding, on the
/// program's authority over the vault.
pub fn transfer_out(ctx: &mut TransferAccounts, env: &Environment, amount: u64, bump: u8) -> (r:
    Result<(), CustodyError>)
    ensures
        match transfer_out_outcome(*env, old(ctx).table(), amount, bump) {
            Ok(outcome) => r is Ok && final(ctx).table() == transferred(old(ctx).table(), outcome),
            Err(e) => r == Err::<(), CustodyError>(e) && final(ctx).table() == old(ctx).table(),
        },
{
    let seeds = authority_signer_seeds(bump);
    transfer_tokens_signed(
        &mut ctx.vault_token_account,
        &mut ctx.sender_token_account,
        &ctx.token_account_owner_pda.address,
        amount,
        &seeds,
        &env.program_id,
    )
}

} // verus!
