//! The vault program: one derived account per owner that holds native
//! value.
//!
//! The first deposit brings the vault into being; it is never destroyed.
//! Only the program can take value out of it, and only for the owner from
//! whose address the vault is derived.

use vstd::prelude::*;
use vstd::slice::slice_subrange;
use crate::account::{Account, AccountState, Environment};
use crate::address::{Address, derive_address, derive_address_spec, seed_bytes, with_bump};
use crate::bytes::read_u64_le;
use crate::calls::{Call, CallModel, ran, run};
use crate::codec::{decode_vault, decode_vault_spec, DEPOSIT_PARAMS_LEN, u64_at, VaultInstruction};
use crate::error::CustodyError;
use crate::helpers::{signer, signer_requirement};
use crate::ledger::{
    can_move_lamports, lamports_credited, lamports_debited, proves_authority, transfer,
    transfer_signed,
};
use crate::schema::{
    Content, first_violation, lemma_signature_comes_first, lemma_validate_accepts, Pin,
    program_reference, program_requirement, Requirement, Role, validate, validate_spec,
};

verus! {

/// The place of the owner in the account list of the vault operations.
pub const OWNER: usize = 0;

/// The place of the vault.
pub const VAULT: usize = 1;

/// The place of the system program.
pub const SYSTEM_PROGRAM: usize = 2;

/// The number of accounts of the vault operations.
pub const VAULT_ACCOUNTS_LEN: usize = 3;

/// The first seed of every vault: the bytes of `vault`.
pub open spec fn vault_tag() -> Seq<u8> {
    seq![0x76u8, 0x61u8, 0x75u8, 0x6cu8, 0x74u8]
}

/// The seeds of the vault of `owner`.
pub open spec fn vault_seeds_spec(owner: Address) -> Seq<Seq<u8>> {
    seq![vault_tag(), owner@]
}

/// The seeds of the vault of `owner`.
pub fn vault_seeds(owner: &Address) -> (r: Vec<Vec<u8>>)
    ensures
        seed_bytes(r@) == vault_seeds_spec(*owner),
{
    let mut tag: Vec<u8> = Vec::new();
    tag.push(0x76u8);
    tag.push(0x61u8);
    tag.push(0x75u8);
    tag.push(0x6cu8);
    tag.push(0x74u8);
    assert(tag@ =~= vault_tag());
    let mut seeds: Vec<Vec<u8>> = Vec::new();
    seeds.push(tag);
    seeds.push(owner.to_vec());
    seeds
}

/// The seeds that prove the program's authority over the vault of `owner`:
/// its seeds followed by its bump.
pub fn vault_signer_seeds(owner: &Address, bump: u8) -> (r: Vec<Vec<u8>>)
    ensures
        seed_bytes(r@) == vault_seeds_spec(*owner).push(seq![bump]),
{
    with_bump(vault_seeds(owner), bump)
}

/// The address and the bump of the vault of `owner`.
pub open spec fn vault_found(env: Environment, owner: Address) -> Option<(Address, u8)> {
    derive_address_spec(vault_seeds_spec(owner), env.program_id)
}

/// Where the vault of `owner` has to live.
pub open spec fn vault_pin(env: Environment, owner: Address) -> Pin {
    match vault_found(env, owner) {
        Some((a, _)) => Pin::At(a),
        None => Pin::Nowhere,
    }
}

/// What the vault operations require of their accounts: the owner signs,
/// the vault lives at the address derived from the owner and belongs to the
/// system program, and the system program is the known one.
pub open spec fn vault_schema(env: Environment, t: Seq<AccountState>) -> Seq<Requirement> {
    seq![
        signer_requirement(),
        Requirement {
            role: Role::Writable,
            pin: vault_pin(env, t[OWNER as int].address),
            content: Content::Any,
            owner: Some(env.system_program),
        },
        program_requirement(env.system_program),
    ]
}

/// The amount that the parameter bytes of a vault operation give: eight
/// bytes give an amount, no bytes give none.
pub open spec fn vault_amount(params: Seq<u8>) -> Result<u64, CustodyError> {
    if params.len() == DEPOSIT_PARAMS_LEN {
        Ok(u64_at(params, 0))
    } else if params.len() == 0 {
        Ok(0u64)
    } else {
        Err(CustodyError::InvalidInstructionData)
    }
}

/// Whether a vault operation accepts the accounts and the parameter bytes,
/// and if so with which amount and which bump; if not, why not.
pub open spec fn vault_verdict(env: Environment, t: Seq<AccountState>, params: Seq<u8>) -> Result<
    (u64, u8),
    CustodyError,
> {
    match validate_spec(t, vault_schema(env, t)) {
        Err(e) => Err(e),
        Ok(_) => match vault_amount(params) {
            Err(e) => Err(e),
            Ok(lamports) => Ok((lamports, vault_found(env, t[OWNER as int].address)->Some_0.1)),
        },
    }
}

/// What a deposit of `lamports` does to the owner and to the vault, or why
/// it is rejected: an amount of zero cannot be deposited, and the ledger has to carry
/// out the transfer.
pub open spec fn deposit_outcome(owner: AccountState, vault: AccountState, lamports: u64) -> Result<
    (AccountState, AccountState),
    CustodyError,
> {
    if lamports == 0 {
        Err(CustodyError::InvalidAmount)
    } else if owner.is_signer && can_move_lamports(owner, vault, lamports) {
        Ok((lamports_debited(owner, lamports), lamports_credited(vault, lamports)))
    } else {
        Err(CustodyError::TransferFailed)
    }
}

/// What a withdrawal does to the owner and to the vault, or why it is
/// rejected: an empty vault cannot be withdrawn from, the seeds and the bump
/// have to prove the program's authority over the vault, and then
/// everything the vault holds goes to the owner.
pub open spec fn withdraw_outcome(
    env: Environment,
    owner: AccountState,
    vault: AccountState,
    bump: u8,
) -> Result<(AccountState, AccountState), CustodyError> {
    if vault.lamports == 0 {
        Err(CustodyError::InvalidAmount)
    } else if proves_authority(
        vault_seeds_spec(owner.address).push(seq![bump]),
        env.program_id,
        vault.address,
    ) && can_move_lamports(vault, owner, vault.lamports) {
        Ok((lamports_credited(owner, vault.lamports), lamports_debited(vault, vault.lamports)))
    } else {
        Err(CustodyError::TransferFailed)
    }
}

/// The calls that carry out a deposit: one transfer from the owner, who has
/// signed, to the vault.
pub open spec fn deposit_plan_spec(lamports: u64) -> Seq<CallModel> {
    seq![CallModel::Transfer { from: OWNER as int, to: VAULT as int, amount: lamports }]
}

/// The calls that carry out a withdrawal: one transfer of everything the
/// vault holds to the owner, on the program's authority over the vault.
pub open spec fn withdraw_plan_spec(owner: AccountState, vault: AccountState, bump: u8) -> Seq<
    CallModel,
> {
    seq![
        CallModel::TransferSigned {
            from: VAULT as int,
            to: OWNER as int,
            amount: vault.lamports,
            seeds: vault_seeds_spec(owner.address).push(seq![bump]),
        },
    ]
}

/// What is left of the accounts where the owner and the vault come out as
/// `outcome` says, or `None` where the outcome is a refusal.
pub open spec fn left_by(
    t: Seq<AccountState>,
    outcome: Result<(AccountState, AccountState), CustodyError>,
) -> Option<Seq<AccountState>> {
    match outcome {
        Ok(changed) => Some(vault_accounts_after(t, changed)),
        Err(_) => None,
    }
}

/// Carrying out the calls of a deposit leaves exactly what
/// `deposit_outcome` says.
pub proof fn lemma_deposit_plan_runs(env: Environment, t: Seq<AccountState>, lamports: u64)
    requires
        t.len() == VAULT_ACCOUNTS_LEN,
        lamports > 0,
    ensures
        ran(env, t, deposit_plan_spec(lamports), 0) == left_by(
            t,
            deposit_outcome(t[OWNER as int], t[VAULT as int], lamports),
        ),
{
    reveal_with_fuel(ran, 2);
}

/// Carrying out the calls of a withdrawal leaves exactly what
/// `withdraw_outcome` says.
pub proof fn lemma_withdraw_plan_runs(env: Environment, t: Seq<AccountState>, bump: u8)
    requires
        t.len() == VAULT_ACCOUNTS_LEN,
        t[VAULT as int].lamports > 0,
    ensures
        ran(env, t, withdraw_plan_spec(t[OWNER as int], t[VAULT as int], bump), 0) == left_by(
            t,
            withdraw_outcome(env, t[OWNER as int], t[VAULT as int], bump),
        ),
{
    reveal_with_fuel(ran, 2);
}

/// A vault operation that has been validated: the owner, the vault, the
/// amount that the parameters gave, and the bump of the vault.
#[derive(Clone, Debug, PartialEq, Eq)]
pub struct VaultContext {
    pub owner: Account,
    pub vault: Account,
    pub lamports: u64,
    pub bump: u8,
}

fn schema_of(env: &Environment, pin: Pin) -> (r: Vec<Requirement>)
    ensures
        r@ == seq![
            signer_requirement(),
            Requirement {
                role: Role::Writable,
                pin: pin,
                content: Content::Any,
                owner: Some(env.system_program),
            },
            program_requirement(env.system_program),
        ],
{
    let mut schema: Vec<Requirement> = Vec::new();
    schema.push(signer());
    schema.push(
        Requirement {
            role: Role::Writable,
            pin,
            content: Content::Any,
            owner: Some(env.system_program),
        },
    );
    schema.push(program_reference(env.system_program));
    schema
}

impl VaultContext {
    /// Validates a vault operation: holds the accounts to `vault_schema`,
    /// finds the bump of the vault, and reads the amount. Nothing is
    /// changed.
    pub fn try_from(env: &Environment, accounts: &Vec<Account>, data: &[u8]) -> (r: Result<
        VaultContext,
        CustodyError,
    >)
        ensures
            r is Ok <==> vault_verdict(*env, accounts.deep_view(), data@) is Ok,
            r matches Err(e) ==> vault_verdict(*env, accounts.deep_view(), data@) == Err::<
                (u64, u8),
                CustodyError,
            >(e),
            r matches Ok(c) ==> vault_verdict(*env, accounts.deep_view(), data@) == Ok::<
                (u64, u8),
                CustodyError,
            >((c.lamports, c.bump)) && c.owner@ == accounts.deep_view()[OWNER as int] && c.vault@
                == accounts.deep_view()[VAULT as int],
            accounts.len() == VAULT_ACCOUNTS_LEN && !accounts[OWNER as int].is_signer ==> r is Err
                && r->Err_0 == CustodyError::MissingSignature,
    {
        if accounts.len() != VAULT_ACCOUNTS_LEN {
            return Err(CustodyError::NotEnoughAccounts);
        }
        proof {
            if !accounts[OWNER as int].is_signer {
                lemma_signature_comes_first(
                    accounts.deep_view(),
                    vault_schema(*env, accounts.deep_view()),
                );
            }
        }
        let seeds = vault_seeds(&accounts[OWNER].address);
        let found = derive_address(&seeds, &env.program_id);
        let pin = match found {
            Some((a, _)) => Pin::At(a),
            None => Pin::Nowhere,
        };
        let schema = schema_of(env, pin);
        match validate(accounts, &schema) {
            Ok(()) => {},
            Err(e) => {
                return Err(e);
            },
        }
        proof {
            reveal_with_fuel(first_violation, 3);
        }
        let lamports: u64 = if data.len() == DEPOSIT_PARAMS_LEN {
            read_u64_le(data, 0)
        } else if data.len() == 0 {
            0
        } else {
            return Err(CustodyError::InvalidInstructionData);
        };
        match found {
            Some((_, bump)) => Ok(
                VaultContext {
                    owner: accounts[OWNER].duplicate(),
                    vault: accounts[VAULT].duplicate(),
                    lamports,
                    bump,
                },
            ),
            None => Err(CustodyError::AddressMismatch),
        }
    }

    /// The calls that carry out the deposit. An amount of zero cannot be deposited.
    pub fn deposit_plan(&self) -> (r: Result<Vec<Call>, CustodyError>)
        ensures
            self.lamports == 0 ==> r is Err && r->Err_0 == CustodyError::InvalidAmount,
            self.lamports > 0 ==> r is Ok && r->Ok_0.deep_view() == deposit_plan_spec(
                self.lamports,
            ),
    {
        if self.lamports == 0 {
            return Err(CustodyError::InvalidAmount);
        }
        let mut calls: Vec<Call> = Vec::new();
        calls.push(Call::Transfer { from: OWNER, to: VAULT, amount: self.lamports });
        Ok(calls)
    }

    /// The calls that carry out the withdrawal. An empty vault cannot be
    /// withdrawn from.
    pub fn withdraw_plan(&self) -> (r: Result<Vec<Call>, CustodyError>)
        ensures
            self.vault.lamports == 0 ==> r is Err && r->Err_0 == CustodyError::InvalidAmount,
            self.vault.lamports > 0 ==> r is Ok && r->Ok_0.deep_view() == withdraw_plan_spec(
                self.owner@,
                self.vault@,
                self.bump,
            ),
    {
        if self.vault.lamports == 0 {
            return Err(CustodyError::InvalidAmount);
        }
        let mut calls: Vec<Call> = Vec::new();
        calls.push(
            Call::TransferSigned {
                from: VAULT,
                to: OWNER,
                amount: self.vault.lamports,
                seeds: vault_signer_seeds(&self.owner.address, self.bump),
            },
        );
        Ok(calls)
    }

    /// Moves the amount from the owner into the vault.
    pub fn deposit(&mut self) -> (r: Result<(), CustodyError>)
        ensures
            match deposit_outcome(old(self).owner@, old(self).vault@, old(self).lamports) {
                Ok((owner, vault)) => r is Ok && final(self).owner@ == owner && final(self).vault@
                    == vault,
                Err(e) => r == Err::<(), CustodyError>(e) && final(self).owner@ == old(self).owner@
                    && final(self).vault@ == old(self).vault@,
            },
            final(self).lamports == old(self).lamports,
            final(self).bump == old(self).bump,
    {
        if self.lamports == 0 {
            return Err(CustodyError::InvalidAmount);
        }
        transfer(&mut self.owner, &mut self.vault, self.lamports)
    }

    /// Moves everything the vault holds to the owner, on the program's
    /// authority over the vault.
    pub fn withdraw(&mut self, env: &Environment) -> (r: Result<(), CustodyError>)
        ensures
            match withdraw_outcome(*env, old(self).owner@, old(self).vault@, old(self).bump) {
                Ok((owner, vault)) => r is Ok && final(self).owner@ == owner && final(self).vault@
                    == vault,
                Err(e) => r == Err::<(), CustodyError>(e) && final(self).owner@ == old(self).owner@
                    && final(self).vault@ == old(self).vault@,
            },
            final(self).lamports == old(self).lamports,
            final(self).bump == old(self).bump,
    {
        if self.vault.lamports == 0 {
            return Err(CustodyError::InvalidAmount);
        }
        let seeds = vault_signer_seeds(&self.owner.address, self.bump);
        let everything: u64 = self.vault.lamports;
        transfer_signed(&mut self.vault, &mut self.owner, everything, &seeds, &env.program_id)
    }
}

/// A deposit that has been validated: the owner, the vault and the amount.
#[derive(Clone, Debug, PartialEq, Eq)]
pub struct Deposit {
    pub owner: Account,
    pub vault: Account,
    pub lamports: u64,
}

/// Whether a deposit accepts the accounts and the parameter bytes, and if
/// so with which amount; if not, why not. The parameters have to give an
/// amount.
pub open spec fn deposit_verdict(env: Environment, t: Seq<AccountState>, params: Seq<u8>) -> Result<
    u64,
    CustodyError,
> {
    match vault_verdict(env, t, params) {
        Err(e) => Err(e),
        Ok((lamports, _)) => if params.len() == DEPOSIT_PARAMS_LEN {
            Ok(lamports)
        } else {
            Err(CustodyError::InvalidInstructionData)
        },
    }
}

impl Deposit {
    /// The discriminator of `deposit`.
    pub const DISCRIMINATOR: u8 = 0;

    /// Validates a deposit: holds the accounts to `vault_schema` and reads
    /// the amount. Nothing is changed.
    pub fn try_from(env: &Environment, accounts: &Vec<Account>, data: &[u8]) -> (r: Result<
        Deposit,
        CustodyError,
    >)
        ensures
            r is Ok <==> deposit_verdict(*env, accounts.deep_view(), data@) is Ok,
            r matches Err(e) ==> deposit_verdict(*env, accounts.deep_view(), data@) == Err::<
                u64,
                CustodyError,
            >(e),
            r matches Ok(d) ==> deposit_verdict(*env, accounts.deep_view(), data@) == Ok::<
                u64,
                CustodyError,
            >(d.lamports) && d.owner@ == accounts.deep_view()[OWNER as int] && d.vault@
                == accounts.deep_view()[VAULT as int],
    {
        let context = match VaultContext::try_from(env, accounts, data) {
            Ok(c) => c,
            Err(e) => {
                return Err(e);
            },
        };
        if data.len() != DEPOSIT_PARAMS_LEN {
            return Err(CustodyError::InvalidInstructionData);
        }
        Ok(Deposit { owner: context.owner, vault: context.vault, lamports: context.lamports })
    }

    /// Moves the amount from the owner into the vault.
    pub fn process(&mut self) -> (r: Result<(), CustodyError>)
        ensures
            match deposit_outcome(old(self).owner@, old(self).vault@, old(self).lamports) {
                Ok((owner, vault)) => r is Ok && final(self).owner@ == owner && final(self).vault@
                    == vault,
                Err(e) => r == Err::<(), CustodyError>(e) && final(self).owner@ == old(self).owner@
                    && final(self).vault@ == old(self).vault@,
            },
            final(self).lamports == old(self).lamports,
    {
        if self.lamports == 0 {
            return Err(CustodyError::InvalidAmount);
        }
        transfer(&mut self.owner, &mut self.vault, self.lamports)
    }
}

/// The accounts after a vault operation has changed the owner and the
/// vault.
pub open spec fn vault_accounts_after(
    t: Seq<AccountState>,
    outcome: (AccountState, AccountState),
) -> Seq<AccountState> {
    t.update(OWNER as int, outcome.0).update(VAULT as int, outcome.1)
}

/// What an invocation of the vault program does to the accounts, or why it
/// is rejected: the instruction is decoded, the accounts are validated, and
/// the deposit or the withdrawal is carried out.
pub open spec fn vault_transition(env: Environment, t: Seq<AccountState>, data: Seq<u8>) -> Result<
    Seq<AccountState>,
    CustodyError,
> {
    match decode_vault_spec(data) {
        Err(e) => Err(e),
        Ok(instruction) => match vault_verdict(env, t, data.subrange(1, data.len() as int)) {
            Err(e) => Err(e),
            Ok((lamports, bump)) => {
                let outcome = match instruction {
                    VaultInstruction::Deposit { .. } => deposit_outcome(
                        t[OWNER as int],
                        t[VAULT as int],
                        lamports,
                    ),
                    VaultInstruction::Withdraw => withdraw_outcome(
                        env,
                        t[OWNER as int],
                        t[VAULT as int],
                        bump,
                    ),
                };
                match outcome {
                    Err(e) => Err(e),
                    Ok(changed) => Ok(vault_accounts_after(t, changed)),
                }
            },
        },
    }
}

/// Runs one invocation of the vault program: decodes the instruction,
/// validates the accounts, and carries out the deposit or the withdrawal. On
/// success the account list holds the accounts as the operation left them;
/// on failure it is unchanged.
pub fn process_instruction(
    env: &Environment,
    accounts: &mut Vec<Account>,
    instruction_data: &[u8],
) -> (r: Result<(), CustodyError>)
    ensures
        match vault_transition(*env, old(accounts).deep_view(), instruction_data@) {
            Ok(t) => r is Ok && final(accounts).deep_view() == t,
            Err(e) => r == Err::<(), CustodyError>(e)
                && final(accounts).deep_view() == old(accounts).deep_view(),
        },
{
    let instruction = match decode_vault(instruction_data) {
        Ok(i) => i,
        Err(e) => {
            return Err(e);
        },
    };
    let params = slice_subrange(instruction_data, 1, instruction_data.len());
    let context = match VaultContext::try_from(env, accounts, params) {
        Ok(c) => c,
        Err(e) => {
            return Err(e);
        },
    };
    let planned = match instruction {
        VaultInstruction::Deposit { .. } => context.deposit_plan(),
        VaultInstruction::Withdraw => context.withdraw_plan(),
    };
    let calls = match planned {
        Ok(c) => c,
        Err(e) => {
            return Err(e);
        },
    };
    proof {
        if instruction is Deposit {
            lemma_deposit_plan_runs(*env, accounts.deep_view(), context.lamports);
        } else {
            lemma_withdraw_plan_runs(*env, accounts.deep_view(), context.bump);
        }
    }
    run(env, accounts, &calls)
}

/// The error codes of the vault program.
#[derive(Clone, Copy, Debug, PartialEq, Eq)]
pub enum VaultError {
    /// The amount is zero.
    InvalidAmount,
}

impl VaultError {
    /// The kind of rejection that the code stands for.
    pub fn kind(self) -> (r: CustodyError)
        ensures
            r == CustodyError::InvalidAmount,
    {
        match self {
            VaultError::InvalidAmount => CustodyError::InvalidAmount,
        }
    }
}

/// The accounts of a vault operation, by name: who signs, the vault, and
/// the system program.
#[derive(Clone, Debug, PartialEq, Eq)]
pub struct VaultAction {
    pub signer: Account,
    pub vault: Account,
    pub system_program: Account,
}

impl VaultAction {
    /// The accounts as a list, in the order in which they are supplied.
    pub open spec fn table(self) -> Seq<AccountState> {
        seq![self.signer@, self.vault@, self.system_program@]
    }

    /// Takes the accounts of a vault operation from an account list, holds
    /// them to `vault_schema`, and finds the bump of the vault.
    pub fn try_accounts(env: &Environment, accounts: &Vec<Account>) -> (r: Result<
        (VaultAction, u8),
        CustodyError,
    >)
        ensures
            r is Ok <==> vault_verdict(*env, accounts.deep_view(), Seq::empty()) is Ok,
            r matches Err(e) ==> vault_verdict(*env, accounts.deep_view(), Seq::empty()) == Err::<
                (u64, u8),
                CustodyError,
            >(e),
            r matches Ok((a, bump)) ==> a.table() == accounts.deep_view() && vault_verdict(
                *env,
                accounts.deep_view(),
                Seq::empty(),
            ) == Ok::<(u64, u8), CustodyError>((0u64, bump)),
    {
        let none: Vec<u8> = Vec::new();
        let context = match VaultContext::try_from(env, accounts, none.as_slice()) {
            Ok(c) => c,
            Err(e) => {
                return Err(e);
            },
        };
        let taken = VaultAction {
            signer: context.owner,
            vault: context.vault,
            system_program: accounts[SYSTEM_PROGRAM].duplicate(),
        };
        Ok((taken, context.bump))
    }
}

/// Moves `amount` from the signer into the vault. An amount of zero cannot
/// be deposited.
pub fn deposit(ctx: &mut VaultAction, amount: u64) -> (r: Result<(), CustodyError>)
    ensures
        match deposit_outcome(old(ctx).signer@, old(ctx).vault@, amount) {
            Ok((signer, vault)) => r is Ok && final(ctx).signer@ == signer && final(ctx).vault@
                == vault,
            Err(e) => r == Err::<(), CustodyError>(e) && final(ctx).signer@ == old(ctx).signer@
                && final(ctx).vault@ == old(ctx).vault@,
        },
        final(ctx).system_program@ == old(ctx).system_program@,
{
    if amount == 0 {
        return Err(VaultError::InvalidAmount.kind());
    }
    transfer(&mut ctx.signer, &mut ctx.vault, amount)
}

/// Moves everything the vault holds to the signer, on the program's
/// authority over the vault. An empty vault cannot be withdrawn from.
pub fn withdraw(ctx: &mut VaultAction, env: &Environment, bump: u8) -> (r: Result<
    (),
    CustodyError,
>)
    ensures
        match withdraw_outcome(*env, old(ctx).signer@, old(ctx).vault@, bump) {
            Ok((signer, vault)) => r is Ok && final(ctx).signer@ == signer && final(ctx).vault@
                == vault,
            Err(e) => r == Err::<(), CustodyError>(e) && final(ctx).signer@ == old(ctx).signer@
                && final(ctx).vault@ == old(ctx).vault@,
        },
        final(ctx).system_program@ == old(ctx).system_program@,
{
    let vault_lamports: u64 = ctx.vault.lamports;
    if vault_lamports == 0 {
        return Err(VaultError::InvalidAmount.kind());
    }
    let signer_seeds = vault_signer_seeds(&ctx.signer.address, bump);
    transfer_signed(&mut ctx.vault, &mut ctx.signer, vault_lamports, &signer_seeds, &env.program_id)
}

/// A withdrawal leaves the vault empty, and the owner holds what both held
/// together before: nothing is lost and nothing is made.
pub proof fn lemma_withdraw_empties_the_vault(
    env: Environment,
    owner: AccountState,
    vault: AccountState,
    bump: u8,
)
    requires
        withdraw_outcome(env, owner, vault, bump) is Ok,
    ensures
        withdraw_outcome(env, owner, vault, bump)->Ok_0.1.lamports == 0,
        withdraw_outcome(env, owner, vault, bump)->Ok_0.0.lamports == owner.lamports
            + vault.lamports,
        vault.lamports > 0,
{
}

/// A deposit moves exactly the amount: the vault gains what the owner
/// loses, and the amount is not zero.
pub proof fn lemma_deposit_moves_the_amount(owner: AccountState, vault: AccountState, lamports: u64)
    requires
        deposit_outcome(owner, vault, lamports) is Ok,
    ensures
        lamports > 0,
        deposit_outcome(owner, vault, lamports)->Ok_0.0.lamports == owner.lamports - lamports,
        deposit_outcome(owner, vault, lamports)->Ok_0.1.lamports == vault.lamports + lamports,
{
}

/// Only the owner is paid, and only from the owner's own vault: every
/// withdrawal that is carried out was signed by the owner, took everything
/// from the vault that is derived from the owner's address, gave all of it
/// to the owner, and changed no other account.
pub proof fn lemma_withdraw_pays_the_owner(
    env: Environment,
    t: Seq<AccountState>,
    data: Seq<u8>,
    after: Seq<AccountState>,
)
    requires
        decode_vault_spec(data) == Ok::<VaultInstruction, CustodyError>(VaultInstruction::Withdraw),
        vault_transition(env, t, data) == Ok::<Seq<AccountState>, CustodyError>(after),
    ensures
        t.len() == VAULT_ACCOUNTS_LEN,
        after.len() == VAULT_ACCOUNTS_LEN,
        t[OWNER as int].is_signer,
        vault_found(env, t[OWNER as int].address) is Some,
        vault_found(env, t[OWNER as int].address)->Some_0.0 == t[VAULT as int].address,
        after[VAULT as int].lamports == 0,
        after[OWNER as int].lamports == t[OWNER as int].lamports + t[VAULT as int].lamports,
        after[SYSTEM_PROGRAM as int] == t[SYSTEM_PROGRAM as int],
{
    lemma_validate_accepts(t, vault_schema(env, t));
}

} // verus!
