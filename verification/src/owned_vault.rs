//! A vault that the program itself owns.
//!
//! The program may take value out of an account it owns without anyone's
//! signature for that account, so a withdrawal needs no derivation. The
//! vault always keeps the reserve that pays for its storage.

use vstd::prelude::*;
use vstd::slice::slice_subrange;
use crate::account::{Account, AccountState, Environment};
use crate::address::Address;
use crate::bytes::read_u64_le;
use crate::calls::{applied, Call, CallModel, ran, run};
use crate::codec::{decode_vault, decode_vault_spec, DEPOSIT_PARAMS_LEN, u64_at, VaultInstruction};
use crate::error::CustodyError;
use crate::ledger::{
    can_move_lamports, lamports_credited, lamports_debited, transfer, withdraw_owned,
};

verus! {

/// The place of the vault in the account list.
pub const VAULT: usize = 0;

/// The place of the owner.
pub const OWNER: usize = 1;

/// The number of accounts of the operations.
pub const ACCOUNTS_LEN: usize = 2;

/// What the vault keeps to pay for its storage.
pub const RENT_EXEMPT_RESERVE: u64 = 1_000_000_000;

/// The accounts of a deposit.
#[derive(Clone, Debug, PartialEq, Eq)]
pub struct DepositAccounts {
    pub vault: Account,
    pub owner: Account,
}

/// The accounts of a withdrawal.
#[derive(Clone, Debug, PartialEq, Eq)]
pub struct WithdrawAccounts {
    pub vault: Account,
    pub owner: Account,
}

/// A deposit: the amount and the accounts.
#[derive(Clone, Debug, PartialEq, Eq)]
pub struct Deposit {
    pub lamports: u64,
    pub accounts: DepositAccounts,
}

/// A withdrawal: the accounts.
#[derive(Clone, Debug, PartialEq, Eq)]
pub struct Withdraw {
    pub accounts: WithdrawAccounts,
}

/// Why an account list cannot be that of a deposit or a withdrawal, if it
/// cannot: it has to hold exactly the vault and the owner.
pub open spec fn accounts_rejection(t: Seq<AccountState>) -> Option<CustodyError> {
    if t.len() != ACCOUNTS_LEN {
        Some(CustodyError::NotEnoughAccounts)
    } else {
        None
    }
}

/// Why the program may not act on the vault for the owner, if it may not:
/// the program has to own the vault, the owner has to have signed, and
/// last, the vault and the owner have to be two accounts.
pub open spec fn authorization_rejection(
    vault: AccountState,
    owner: AccountState,
    program_id: Address,
) -> Option<CustodyError> {
    if vault.owner != program_id {
        Some(CustodyError::WrongOwner)
    } else if !owner.is_signer {
        Some(CustodyError::MissingSignature)
    } else if vault.address == owner.address {
        Some(CustodyError::AddressMismatch)
    } else {
        None
    }
}

/// What a deposit of `lamports` does to the vault and to the owner, or why
/// it is rejected.
pub open spec fn deposit_outcome(
    vault: AccountState,
    owner: AccountState,
    lamports: u64,
    program_id: Address,
) -> Result<(AccountState, AccountState), CustodyError> {
    if authorization_rejection(vault, owner, program_id) is Some {
        Err(authorization_rejection(vault, owner, program_id)->Some_0)
    } else if lamports == 0 {
        Err(CustodyError::InvalidAmount)
    } else if can_move_lamports(owner, vault, lamports) {
        Ok((lamports_credited(vault, lamports), lamports_debited(owner, lamports)))
    } else {
        Err(CustodyError::TransferFailed)
    }
}

/// What a withdrawal does to the vault and to the owner, or why it is
/// rejected: everything above the reserve goes to the owner; a vault that
/// holds no more than the reserve cannot be withdrawn from.
pub open spec fn withdraw_outcome(
    vault: AccountState,
    owner: AccountState,
    program_id: Address,
) -> Result<(AccountState, AccountState), CustodyError> {
    if authorization_rejection(vault, owner, program_id) is Some {
        Err(authorization_rejection(vault, owner, program_id)->Some_0)
    } else if vault.lamports <= RENT_EXEMPT_RESERVE {
        Err(CustodyError::InvalidAmount)
    } else {
        let amount = (vault.lamports - RENT_EXEMPT_RESERVE) as u64;
        if can_move_lamports(vault, owner, amount) {
            Ok((lamports_debited(vault, amount), lamports_credited(owner, amount)))
        } else {
            Err(CustodyError::TransferFailed)
        }
    }
}

/// The calls that carry out a deposit, or why there are none: the program
/// has to be authorized, an amount of zero cannot be deposited, and then one
/// transfer moves the amount from the owner, who has signed, into the vault.
pub open spec fn deposit_plan_spec(
    vault: AccountState,
    owner: AccountState,
    lamports: u64,
    program_id: Address,
) -> Result<Seq<CallModel>, CustodyError> {
    if authorization_rejection(vault, owner, program_id) is Some {
        Err(authorization_rejection(vault, owner, program_id)->Some_0)
    } else if lamports == 0 {
        Err(CustodyError::InvalidAmount)
    } else {
        Ok(seq![CallModel::Transfer { from: OWNER as int, to: VAULT as int, amount: lamports }])
    }
}

/// The calls that carry out a withdrawal, or why there are none: the
/// program has to be authorized, the vault has to hold more than the
/// reserve, and then the program moves everything above the reserve out of
/// the vault, which it owns, to the owner.
pub open spec fn withdraw_plan_spec(
    vault: AccountState,
    owner: AccountState,
    program_id: Address,
) -> Result<Seq<CallModel>, CustodyError> {
    if authorization_rejection(vault, owner, program_id) is Some {
        Err(authorization_rejection(vault, owner, program_id)->Some_0)
    } else if vault.lamports <= RENT_EXEMPT_RESERVE {
        Err(CustodyError::InvalidAmount)
    } else {
        Ok(
            seq![
                CallModel::WithdrawOwned {
                    from: VAULT as int,
                    to: OWNER as int,
                    amount: (vault.lamports - RENT_EXEMPT_RESERVE) as u64,
                },
            ],
        )
    }
}

/// What planning and then carrying out the calls leaves of the vault and
/// the owner, or why nothing is carried out.
pub open spec fn planned_outcome(
    env: Environment,
    t: Seq<AccountState>,
    plan: Result<Seq<CallModel>, CustodyError>,
) -> Result<Seq<AccountState>, CustodyError> {
    match plan {
        Err(e) => Err(e),
        Ok(calls) => match ran(env, t, calls, 0) {
            Some(left) => Ok(left),
            None => Err(CustodyError::TransferFailed),
        },
    }
}

/// Planning a deposit or a withdrawal and carrying out the calls leaves
/// exactly what `deposit_outcome` and `withdraw_outcome` say.
pub proof fn lemma_plans_run(env: Environment, t: Seq<AccountState>, lamports: u64)
    requires
        t.len() == ACCOUNTS_LEN,
    ensures
        planned_outcome(
            env,
            t,
            deposit_plan_spec(t[VAULT as int], t[OWNER as int], lamports, env.program_id),
        ) == match deposit_outcome(t[VAULT as int], t[OWNER as int], lamports, env.program_id) {
            Ok((vault, owner)) => Ok::<Seq<AccountState>, CustodyError>(seq![vault, owner]),
            Err(e) => Err(e),
        },
        planned_outcome(
            env,
            t,
            withdraw_plan_spec(t[VAULT as int], t[OWNER as int], env.program_id),
        ) == match withdraw_outcome(t[VAULT as int], t[OWNER as int], env.program_id) {
            Ok((vault, owner)) => Ok::<Seq<AccountState>, CustodyError>(seq![vault, owner]),
            Err(e) => Err(e),
        },
{
    reveal_with_fuel(ran, 2);
    let deposit = deposit_plan_spec(t[VAULT as int], t[OWNER as int], lamports, env.program_id);
    if deposit is Ok {
        let left = applied(env, t, deposit->Ok_0[0]);
        if left is Some {
            let (vault, owner) = deposit_outcome(
                t[VAULT as int],
                t[OWNER as int],
                lamports,
                env.program_id,
            )->Ok_0;
            assert(left->Some_0 =~= seq![vault, owner]);
        }
    }
    let withdraw = withdraw_plan_spec(t[VAULT as int], t[OWNER as int], env.program_id);
    if withdraw is Ok {
        let left = applied(env, t, withdraw->Ok_0[0]);
        if left is Some {
            let (vault, owner) = withdraw_outcome(
                t[VAULT as int],
                t[OWNER as int],
                env.program_id,
            )->Ok_0;
            assert(left->Some_0 =~= seq![vault, owner]);
        }
    }
}

fn authorize(vault: &Account, owner: &Account, program_id: &Address) -> (r: Result<
    (),
    CustodyError,
>)
    ensures
        r is Ok <==> authorization_rejection(vault@, owner@, *program_id) is None,
        r matches Err(e) ==> authorization_rejection(vault@, owner@, *program_id) == Some(e),
{
    if !vault.owned_by(program_id) {
        return Err(CustodyError::WrongOwner);
    }
    if !owner.is_signer() {
        return Err(CustodyError::MissingSignature);
    }
    if vault.address.same(&owner.address) {
        return Err(CustodyError::AddressMismatch);
    }
    Ok(())
}

impl DepositAccounts {
    /// Takes the vault and the owner from an account list.
    pub fn try_from(accounts: &Vec<Account>) -> (r: Result<DepositAccounts, CustodyError>)
        ensures
            r is Ok <==> accounts_rejection(accounts.deep_view()) is None,
            r matches Err(e) ==> accounts_rejection(accounts.deep_view()) == Some(e),
            r matches Ok(a) ==> a.vault@ == accounts.deep_view()[VAULT as int] && a.owner@
                == accounts.deep_view()[OWNER as int],
    {
        if accounts.len() != ACCOUNTS_LEN {
            return Err(CustodyError::NotEnoughAccounts);
        }
        let vault = &accounts[VAULT];
        let owner = &accounts[OWNER];
        Ok(DepositAccounts { vault: vault.duplicate(), owner: owner.duplicate() })
    }
}

impl WithdrawAccounts {
    /// Takes the vault and the owner from an account list.
    pub fn try_from(accounts: &Vec<Account>) -> (r: Result<WithdrawAccounts, CustodyError>)
        ensures
            r is Ok <==> accounts_rejection(accounts.deep_view()) is None,
            r matches Err(e) ==> accounts_rejection(accounts.deep_view()) == Some(e),
            r matches Ok(a) ==> a.vault@ == accounts.deep_view()[VAULT as int] && a.owner@
                == accounts.deep_view()[OWNER as int],
    {
        if accounts.len() != ACCOUNTS_LEN {
            return Err(CustodyError::NotEnoughAccounts);
        }
        let vault = &accounts[VAULT];
        let owner = &accounts[OWNER];
        Ok(WithdrawAccounts { vault: vault.duplicate(), owner: owner.duplicate() })
    }
}

/// The deposit that parameter bytes and an account list stand for, or why
/// they stand for none: the accounts are looked at first, and the
/// parameters have to be exactly one 64-bit amount.
pub open spec fn deposit_request(data: Seq<u8>, t: Seq<AccountState>) -> Result<u64, CustodyError> {
    if accounts_rejection(t) is Some {
        Err(accounts_rejection(t)->Some_0)
    } else if data.len() != DEPOSIT_PARAMS_LEN {
        Err(CustodyError::InvalidInstructionData)
    } else {
        Ok(u64_at(data, 0))
    }
}

impl Deposit {
    /// The discriminator of `deposit`.
    pub const DISCRIMINATOR: u8 = 0;

    /// Reads a deposit from the parameter bytes and the account list.
    pub fn try_from(data: &[u8], accounts: &Vec<Account>) -> (r: Result<Deposit, CustodyError>)
        ensures
            r is Ok <==> deposit_request(data@, accounts.deep_view()) is Ok,
            r matches Err(e) ==> deposit_request(data@, accounts.deep_view()) == Err::<
                u64,
                CustodyError,
            >(e),
            r matches Ok(d) ==> deposit_request(data@, accounts.deep_view()) == Ok::<
                u64,
                CustodyError,
            >(d.lamports) && d.accounts.vault@ == accounts.deep_view()[VAULT as int]
                && d.accounts.owner@ == accounts.deep_view()[OWNER as int],
    {
        let accounts = match DepositAccounts::try_from(accounts) {
            Ok(a) => a,
            Err(e) => {
                return Err(e);
            },
        };
        let lamports: u64 = if data.len() == DEPOSIT_PARAMS_LEN {
            read_u64_le(data, 0)
        } else {
            return Err(CustodyError::InvalidInstructionData);
        };
        Ok(Deposit { lamports, accounts })
    }

    /// The calls that carry out the deposit, or why there are none.
    pub fn plan(&self, program_id: &Address) -> (r: Result<Vec<Call>, CustodyError>)
        ensures
            match deposit_plan_spec(
                self.accounts.vault@,
                self.accounts.owner@,
                self.lamports,
                *program_id,
            ) {
                Ok(calls) => r is Ok && r->Ok_0.deep_view() == calls,
                Err(e) => r is Err && r->Err_0 == e,
            },
    {
        match authorize(&self.accounts.vault, &self.accounts.owner, program_id) {
            Ok(()) => {},
            Err(e) => {
                return Err(e);
            },
        }
        if self.lamports == 0 {
            return Err(CustodyError::InvalidAmount);
        }
        let mut calls: Vec<Call> = Vec::new();
        calls.push(Call::Transfer { from: OWNER, to: VAULT, amount: self.lamports });
        Ok(calls)
    }

    /// Carries out the deposit: the program has to own the vault, the owner
    /// has to have signed, and then the amount moves from the owner into
    /// the vault.
    pub fn process(&mut self, program_id: &Address) -> (r: Result<(), CustodyError>)
        ensures
            match deposit_outcome(
                old(self).accounts.vault@,
                old(self).accounts.owner@,
                old(self).lamports,
                *program_id,
            ) {
                Ok((vault, owner)) => r is Ok && final(self).accounts.vault@ == vault
                    && final(self).accounts.owner@ == owner,
                Err(e) => r == Err::<(), CustodyError>(e)
                    && final(self).accounts.vault@ == old(self).accounts.vault@
                    && final(self).accounts.owner@ == old(self).accounts.owner@,
            },
            final(self).lamports == old(self).lamports,
    {
        match authorize(&self.accounts.vault, &self.accounts.owner, program_id) {
            Ok(()) => {},
            Err(e) => {
                return Err(e);
            },
        }
        if self.lamports == 0 {
            return Err(CustodyError::InvalidAmount);
        }
        transfer(&mut self.accounts.owner, &mut self.accounts.vault, self.lamports)
    }

    /// The accounts of the deposit.
    pub fn accounts(&self) -> (r: &DepositAccounts)
        ensures
            *r == self.accounts,
    {
        &self.accounts
    }
}

impl Withdraw {
    /// The discriminator of `withdraw`.
    pub const DISCRIMINATOR: u8 = 1;

    /// Reads a withdrawal from the account list.
    pub fn try_from(accounts: &Vec<Account>) -> (r: Result<Withdraw, CustodyError>)
        ensures
            r is Ok <==> accounts_rejection(accounts.deep_view()) is None,
            r matches Err(e) ==> accounts_rejection(accounts.deep_view()) == Some(e),
            r matches Ok(w) ==> w.accounts.vault@ == accounts.deep_view()[VAULT as int]
                && w.accounts.owner@ == accounts.deep_view()[OWNER as int],
    {
        let accounts = match WithdrawAccounts::try_from(accounts) {
            Ok(a) => a,
            Err(e) => {
                return Err(e);
            },
        };
        Ok(Withdraw { accounts })
    }

    /// The calls that carry out the withdrawal, or why there are none.
    pub fn plan(&self, program_id: &Address) -> (r: Result<Vec<Call>, CustodyError>)
        ensures
            match withdraw_plan_spec(self.accounts.vault@, self.accounts.owner@, *program_id) {
                Ok(calls) => r is Ok && r->Ok_0.deep_view() == calls,
                Err(e) => r is Err && r->Err_0 == e,
            },
    {
        match authorize(&self.accounts.vault, &self.accounts.owner, program_id) {
            Ok(()) => {},
            Err(e) => {
                return Err(e);
            },
        }
        if self.accounts.vault.lamports <= RENT_EXEMPT_RESERVE {
            return Err(CustodyError::InvalidAmount);
        }
        let lamports: u64 = self.accounts.vault.lamports - RENT_EXEMPT_RESERVE;
        let mut calls: Vec<Call> = Vec::new();
        calls.push(Call::WithdrawOwned { from: VAULT, to: OWNER, amount: lamports });
        Ok(calls)
    }

    /// Carries out the withdrawal: the program has to own the vault, the
    /// owner has to have signed, and then everything above the reserve
    /// moves from the vault to the owner.
    pub fn process(&mut self, program_id: &Address) -> (r: Result<(), CustodyError>)
        ensures
            match withdraw_outcome(
                old(self).accounts.vault@,
                old(self).accounts.owner@,
                *program_id,
            ) {
                Ok((vault, owner)) => r is Ok && final(self).accounts.vault@ == vault
                    && final(self).accounts.owner@ == owner,
                Err(e) => r == Err::<(), CustodyError>(e)
                    && final(self).accounts.vault@ == old(self).accounts.vault@
                    && final(self).accounts.owner@ == old(self).accounts.owner@,
            },
    {
        match authorize(&self.accounts.vault, &self.accounts.owner, program_id) {
            Ok(()) => {},
            Err(e) => {
                return Err(e);
            },
        }
        let rent_exempt: u64 = RENT_EXEMPT_RESERVE;
        let lamports: u64 = match self.accounts.vault.lamports().checked_sub(rent_exempt) {
            Some(above) => above,
            None => {
                return Err(CustodyError::InvalidAmount);
            },
        };
        if lamports == 0 {
            return Err(CustodyError::InvalidAmount);
        }
        withdraw_owned(&mut self.accounts.vault, &mut self.accounts.owner, lamports, program_id)
    }

    /// The accounts of the withdrawal.
    pub fn accounts(&self) -> (r: &WithdrawAccounts)
        ensures
            *r == self.accounts,
    {
        &self.accounts
    }
}

/// What an invocation does to the accounts, or why it is rejected.
pub open spec fn owned_vault_transition(
    env: Environment,
    t: Seq<AccountState>,
    data: Seq<u8>,
) -> Result<Seq<AccountState>, CustodyError> {
    match decode_vault_spec(data) {
        Err(e) => Err(e),
        Ok(VaultInstruction::Deposit { amount }) => if accounts_rejection(t) is Some {
            Err(accounts_rejection(t)->Some_0)
        } else {
            match deposit_outcome(t[VAULT as int], t[OWNER as int], amount, env.program_id) {
                Err(e) => Err(e),
                Ok((vault, owner)) => Ok(seq![vault, owner]),
            }
        },
        Ok(VaultInstruction::Withdraw) => if accounts_rejection(t) is Some {
            Err(accounts_rejection(t)->Some_0)
        } else {
            match withdraw_outcome(t[VAULT as int], t[OWNER as int], env.program_id) {
                Err(e) => Err(e),
                Ok((vault, owner)) => Ok(seq![vault, owner]),
            }
        },
    }
}

/// Runs one invocation: decodes the instruction, plans the deposit or the
/// withdrawal, and carries out the calls. On success the account list holds
/// the accounts as the operation left them; on failure it is unchanged.
pub fn process_instruction(
    env: &Environment,
    accounts: &mut Vec<Account>,
    instruction_data: &[u8],
) -> (r: Result<(), CustodyError>)
    ensures
        match owned_vault_transition(*env, old(accounts).deep_view(), instruction_data@) {
            Ok(t) => r is Ok && final(accounts).deep_view() == t,
            Err(e) => r == Err::<(), CustodyError>(e)
                && final(accounts).deep_view() == old(accounts).deep_view(),
        },
{
    let instruction = match decode_vault(instruction_data) {
        Ok(i) => i,
        Err(e) => {
            return Err(e);
        },
    };
    let data = slice_subrange(instruction_data, 1, instruction_data.len());
    let planned = match instruction {
        VaultInstruction::Deposit { .. } => match Deposit::try_from(data, accounts) {
            Ok(deposit) => deposit.plan(&env.program_id),
            Err(e) => Err(e),
        },
        VaultInstruction::Withdraw => match Withdraw::try_from(accounts) {
            Ok(withdraw) => withdraw.plan(&env.program_id),
            Err(e) => Err(e),
        },
    };
    let calls = match planned {
        Ok(c) => c,
        Err(e) => {
            return Err(e);
        },
    };
    proof {
        lemma_plans_run(*env, accounts.deep_view(), u64_at(data@, 0));
    }
    run(env, accounts, &calls)
}

} // verus!
