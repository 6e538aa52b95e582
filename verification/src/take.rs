//! `take`: the taker pays what the record asks for and receives what the
//! vault holds; the record and the vault are closed.

use vstd::prelude::*;
use crate::account::{Account, AccountState, Environment};
use crate::calls::{Call, CallModel, ran, run};
use crate::error::CustodyError;
use crate::helpers::{
    holding, holding_of, holding_requirement, mint, mint_requirement, record_of,
    record_requirement, signer, signer_requirement,
};
use crate::ledger::{
    can_close, can_close_record, can_move_tokens, closed, holding_in, lamports_credited,
    proves_authority, tokens_credited, tokens_debited,
};
use crate::record::{
    address_of_record, Escrow, escrow_seeds_spec, escrow_signer_seeds, record_address,
};
use crate::schema::{
    any_account, anything, Content, hold_to, lemma_rules_accept, lemma_signature_comes_first, Pin,
    pinned, pinned_to, program_reference, program_requirement, Requirement, Role, rules_spec,
    validate, validate_spec,
};

verus! {

/// The place of the taker in the account list of `take`.
pub const TAKER: usize = 0;

/// The place of the maker.
pub const MAKER: usize = 1;

/// The place of the custody record.
pub const ESCROW: usize = 2;

/// The place of the offered asset type.
pub const MINT_A: usize = 3;

/// The place of the requested asset type.
pub const MINT_B: usize = 4;

/// The place of the custody vault.
pub const VAULT: usize = 5;

/// The place of the taker's holding of the offered asset.
pub const TAKER_ATA_A: usize = 6;

/// The place of the taker's holding of the requested asset.
pub const TAKER_ATA_B: usize = 7;

/// The place of the maker's holding of the requested asset.
pub const MAKER_ATA_B: usize = 8;

/// The place of the system program.
pub const SYSTEM_PROGRAM: usize = 9;

/// The place of the token program.
pub const TOKEN_PROGRAM: usize = 10;

/// The place of the associated token program.
pub const ASSOCIATED_TOKEN_PROGRAM: usize = 11;

/// The number of accounts of `take`.
pub const TAKE_ACCOUNTS_LEN: usize = 12;

/// What `take` requires of its accounts before it reads the record: the
/// taker signs, the record is a record of this program, the asset types and
/// the holdings are plausible, and the programs are the known ones.
pub open spec fn take_accounts_schema(env: Environment) -> Seq<Requirement> {
    seq![
        signer_requirement(),
        Requirement { role: Role::Writable, ..anything() },
        record_requirement(env),
        mint_requirement(env),
        mint_requirement(env),
        holding_requirement(env),
        holding_requirement(env),
        holding_requirement(env),
        holding_requirement(env),
        program_requirement(env.system_program),
        program_requirement(env.token_program),
        program_requirement(env.associated_token_program),
    ]
}

/// What `take` requires of its accounts once it has read the record: the
/// maker and the asset types are those the record names, the record lives
/// at the address its fields derive, the vault is the record's holding of
/// the offered asset, and the other holdings are those of the taker and of
/// the maker for the assets they receive and pay.
pub open spec fn take_record_schema(env: Environment, t: Seq<AccountState>, record: Escrow) -> Seq<
    Requirement,
> {
    seq![
        anything(),
        pinned(Some(record.maker)),
        pinned(record_address(env, record)),
        pinned(Some(record.asset_a)),
        pinned(Some(record.asset_b)),
        pinned(holding_in(env, t[ESCROW as int].address, record.asset_a)),
        pinned(holding_in(env, t[TAKER as int].address, record.asset_a)),
        pinned(holding_in(env, t[TAKER as int].address, record.asset_b)),
        pinned(holding_in(env, record.maker, record.asset_b)),
        anything(),
        anything(),
        anything(),
    ]
}

/// Whether `take` accepts the parameter bytes and the accounts, and if so
/// for which record; if not, why not.
pub open spec fn take_verdict(env: Environment, data: Seq<u8>, t: Seq<AccountState>) -> Result<
    Escrow,
    CustodyError,
> {
    if data.len() != 0 {
        Err(CustodyError::InvalidInstructionData)
    } else {
        match rules_spec(t, take_accounts_schema(env)) {
            Err(e) => Err(e),
            Ok(_) => {
                let record = Escrow::unpack_spec(t[ESCROW as int].data);
                match validate_spec(t, take_record_schema(env, t, record)) {
                    Err(e) => Err(e),
                    Ok(_) => Ok(record),
                }
            },
        }
    }
}

/// Whether the ledger carries out what `take` asks of it: the taker's
/// holding covers the requested amount, the program has authority over the
/// vault, and nothing overflows.
pub open spec fn take_feasible(env: Environment, t: Seq<AccountState>, record: Escrow) -> bool {
    &&& t[TAKER as int].is_signer
    &&& can_move_tokens(t[TAKER_ATA_B as int], t[MAKER_ATA_B as int], record.requested_amount)
    &&& proves_authority(
        escrow_seeds_spec(record.maker, record.seed).push(seq![record.bump]),
        env.program_id,
        t[ESCROW as int].address,
    )
    &&& can_move_tokens(t[VAULT as int], t[TAKER_ATA_A as int], t[VAULT as int].tokens)
    &&& can_close(tokens_debited(t[VAULT as int], t[VAULT as int].tokens), t[MAKER as int])
    &&& can_close_record(
        t[ESCROW as int],
        lamports_credited(t[MAKER as int], t[VAULT as int].lamports),
        env.program_id,
    )
}

/// The accounts after `take`: the requested amount has gone from the taker
/// to the maker, everything in the vault has gone to the taker, and the
/// vault and the record are closed in favour of the maker.
pub open spec fn take_effect(env: Environment, t: Seq<AccountState>, record: Escrow) -> Seq<
    AccountState,
> {
    t.update(
        TAKER_ATA_B as int,
        tokens_debited(t[TAKER_ATA_B as int], record.requested_amount),
    ).update(
        MAKER_ATA_B as int,
        tokens_credited(t[MAKER_ATA_B as int], record.requested_amount),
    ).update(
        TAKER_ATA_A as int,
        tokens_credited(t[TAKER_ATA_A as int], t[VAULT as int].tokens),
    ).update(VAULT as int, closed(t[VAULT as int], env.system_program)).update(
        MAKER as int,
        lamports_credited(
            lamports_credited(t[MAKER as int], t[VAULT as int].lamports),
            t[ESCROW as int].lamports,
        ),
    ).update(ESCROW as int, closed(t[ESCROW as int], env.system_program))
}

/// The calls that carry out `take`, in order: move the requested amount
/// from the taker's holding to the maker's; move everything in the vault to
/// the taker, on the program's authority over the record; close the vault
/// and then the record, both in favour of the maker.
pub open spec fn take_plan(env: Environment, t: Seq<AccountState>, record: Escrow) -> Seq<
    CallModel,
> {
    let seeds = escrow_seeds_spec(record.maker, record.seed).push(seq![record.bump]);
    seq![
        CallModel::TransferTokens {
            from: TAKER_ATA_B as int,
            to: MAKER_ATA_B as int,
            authority: TAKER as int,
            amount: record.requested_amount,
        },
        CallModel::TransferTokensSigned {
            from: VAULT as int,
            to: TAKER_ATA_A as int,
            authority: ESCROW as int,
            amount: t[VAULT as int].tokens,
            seeds: seeds,
        },
        CallModel::CloseHolding {
            holding: VAULT as int,
            destination: MAKER as int,
            authority: ESCROW as int,
            seeds: seeds,
        },
        CallModel::CloseRecord { record: ESCROW as int, destination: MAKER as int },
    ]
}

/// Carrying out the calls of `take` in order leaves exactly what
/// `take_effect` says, and the ledger refuses one of them exactly where
/// `take_feasible` does not hold.
pub proof fn lemma_take_plan_runs(env: Environment, t: Seq<AccountState>, record: Escrow)
    requires
        t.len() == TAKE_ACCOUNTS_LEN,
    ensures
        ran(env, t, take_plan(env, t, record), 0) == if take_feasible(env, t, record) {
            Some(take_effect(env, t, record))
        } else {
            None
        },
{
    reveal_with_fuel(ran, 5);
}

/// The accounts of `take`, in the order in which they are supplied.
#[derive(Clone, Debug, PartialEq, Eq)]
pub struct TakeAccounts {
    pub taker: Account,
    pub maker: Account,
    pub escrow: Account,
    pub mint_a: Account,
    pub mint_b: Account,
    pub vault: Account,
    pub taker_ata_a: Account,
    pub taker_ata_b: Account,
    pub maker_ata_b: Account,
    pub system_program: Account,
    pub token_program: Account,
    pub associated_token_program: Account,
}

fn accounts_schema(env: &Environment) -> (r: Vec<Requirement>)
    ensures
        r@ == take_accounts_schema(*env),
{
    let mut schema: Vec<Requirement> = Vec::new();
    schema.push(signer());
    schema.push(
        Requirement {
            role: Role::Writable,
            pin: Pin::Anywhere,
            content: Content::Any,
            owner: None,
        },
    );
    schema.push(record_of(env));
    schema.push(mint(env));
    schema.push(mint(env));
    schema.push(holding(env));
    schema.push(holding(env));
    schema.push(holding(env));
    schema.push(holding(env));
    schema.push(program_reference(env.system_program));
    schema.push(program_reference(env.token_program));
    schema.push(program_reference(env.associated_token_program));
    schema
}

fn record_schema(env: &Environment, accounts: &Vec<Account>, record: &Escrow) -> (r: Vec<
    Requirement,
>)
    requires
        accounts.len() == TAKE_ACCOUNTS_LEN,
    ensures
        r@ == take_record_schema(*env, accounts.deep_view(), *record),
{
    let taker = &accounts[TAKER].address;
    let escrow = &accounts[ESCROW].address;
    let mut schema: Vec<Requirement> = Vec::new();
    schema.push(any_account());
    schema.push(pinned_to(Some(record.maker)));
    schema.push(pinned_to(address_of_record(env, record)));
    schema.push(pinned_to(Some(record.asset_a)));
    schema.push(pinned_to(Some(record.asset_b)));
    schema.push(pinned_to(holding_of(env, escrow, &record.asset_a)));
    schema.push(pinned_to(holding_of(env, taker, &record.asset_a)));
    schema.push(pinned_to(holding_of(env, taker, &record.asset_b)));
    schema.push(pinned_to(holding_of(env, &record.maker, &record.asset_b)));
    schema.push(any_account());
    schema.push(any_account());
    schema.push(any_account());
    schema
}

impl TakeAccounts {
    /// The accounts as a list, in the order in which they are supplied.
    pub open spec fn table(self) -> Seq<AccountState> {
        seq![
            self.taker@,
            self.maker@,
            self.escrow@,
            self.mint_a@,
            self.mint_b@,
            self.vault@,
            self.taker_ata_a@,
            self.taker_ata_b@,
            self.maker_ata_b@,
            self.system_program@,
            self.token_program@,
            self.associated_token_program@,
        ]
    }

    /// Takes the accounts of `take` from an account list, and holds them to
    /// the rules of `take_accounts_schema`: the number of accounts first,
    /// then the taker's signature, then the other accounts in order.
    pub fn try_from(env: &Environment, accounts: &Vec<Account>) -> (r: Result<
        TakeAccounts,
        CustodyError,
    >)
        ensures
            r is Ok <==> rules_spec(accounts.deep_view(), take_accounts_schema(*env)) is Ok,
            r matches Err(e) ==> rules_spec(accounts.deep_view(), take_accounts_schema(*env))
                == Err::<(), CustodyError>(e),
            r matches Ok(m) ==> m.table() == accounts.deep_view(),
            accounts.len() == TAKE_ACCOUNTS_LEN && !accounts[TAKER as int].is_signer ==> r is Err
                && r->Err_0 == CustodyError::MissingSignature,
    {
        proof {
            if accounts.len() == TAKE_ACCOUNTS_LEN && !accounts[TAKER as int].is_signer {
                lemma_signature_comes_first(accounts.deep_view(), take_accounts_schema(*env));
            }
        }
        let schema = accounts_schema(env);
        match hold_to(accounts, &schema) {
            Ok(()) => {},
            Err(e) => {
                return Err(e);
            },
        }
        match TakeAccounts::from_list(accounts) {
            Some(taken) => Ok(taken),
            None => Err(CustodyError::NotEnoughAccounts),
        }
    }

    /// The accounts as a list, in the order in which they are supplied.
    pub fn to_vec(&self) -> (r: Vec<Account>)
        ensures
            r.deep_view() == self.table(),
    {
        let mut out: Vec<Account> = Vec::new();
        out.push(self.taker.duplicate());
        out.push(self.maker.duplicate());
        out.push(self.escrow.duplicate());
        out.push(self.mint_a.duplicate());
        out.push(self.mint_b.duplicate());
        out.push(self.vault.duplicate());
        out.push(self.taker_ata_a.duplicate());
        out.push(self.taker_ata_b.duplicate());
        out.push(self.maker_ata_b.duplicate());
        out.push(self.system_program.duplicate());
        out.push(self.token_program.duplicate());
        out.push(self.associated_token_program.duplicate());
        out
    }

    /// The accounts of a list of the right length, by name.
    pub fn from_list(accounts: &Vec<Account>) -> (r: Option<TakeAccounts>)
        ensures
            r is Some <==> accounts.len() == TAKE_ACCOUNTS_LEN,
            r matches Some(m) ==> m.table() == accounts.deep_view(),
    {
        if accounts.len() != TAKE_ACCOUNTS_LEN {
            return None;
        }
        let named = TakeAccounts {
            taker: accounts[TAKER].duplicate(),
            maker: accounts[MAKER].duplicate(),
            escrow: accounts[ESCROW].duplicate(),
            mint_a: accounts[MINT_A].duplicate(),
            mint_b: accounts[MINT_B].duplicate(),
            vault: accounts[VAULT].duplicate(),
            taker_ata_a: accounts[TAKER_ATA_A].duplicate(),
            taker_ata_b: accounts[TAKER_ATA_B].duplicate(),
            maker_ata_b: accounts[MAKER_ATA_B].duplicate(),
            system_program: accounts[SYSTEM_PROGRAM].duplicate(),
            token_program: accounts[TOKEN_PROGRAM].duplicate(),
            associated_token_program: accounts[ASSOCIATED_TOKEN_PROGRAM].duplicate(),
        };
        Some(named)
    }
}

/// A `take` that has been validated and is ready to be carried out.
#[derive(Clone, Debug, PartialEq, Eq)]
pub struct Take {
    pub accounts: TakeAccounts,
    pub escrow: Escrow,
}

impl Take {
    /// The discriminator of `take`.
    pub const DISCRIMINATOR: u8 = 1;

    /// Validates a `take`: there are no parameters, the accounts meet the
    /// schemas of the operation, and the record is read. Nothing is
    /// changed.
    pub fn try_from(env: &Environment, data: &[u8], accounts: &Vec<Account>) -> (r: Result<
        Take,
        CustodyError,
    >)
        ensures
            r is Ok <==> take_verdict(*env, data@, accounts.deep_view()) is Ok,
            r matches Err(e) ==> take_verdict(*env, data@, accounts.deep_view()) == Err::<
                Escrow,
                CustodyError,
            >(e),
            r matches Ok(m) ==> take_verdict(*env, data@, accounts.deep_view()) == Ok::<
                Escrow,
                CustodyError,
            >(m.escrow) && m.accounts.table() == accounts.deep_view(),
    {
        if data.len() != 0 {
            return Err(CustodyError::InvalidInstructionData);
        }
        let taken = match TakeAccounts::try_from(env, accounts) {
            Ok(a) => a,
            Err(e) => {
                return Err(e);
            },
        };
        proof {
            lemma_rules_accept(accounts.deep_view(), take_accounts_schema(*env));
        }
        let escrow = match Escrow::unpack(taken.escrow.data.as_slice()) {
            Ok(record) => record,
            Err(e) => {
                return Err(e);
            },
        };
        let schema = record_schema(env, accounts, &escrow);
        match validate(accounts, &schema) {
            Ok(()) => {},
            Err(e) => {
                return Err(e);
            },
        }
        Ok(Take { accounts: taken, escrow })
    }

    /// The calls that carry out the `take`, in order.
    pub fn plan(&self, env: &Environment) -> (r: Vec<Call>)
        ensures
            r.deep_view() == take_plan(*env, self.accounts.table(), self.escrow),
    {
        let mut calls: Vec<Call> = Vec::new();
        calls.push(
            Call::TransferTokens {
                from: TAKER_ATA_B,
                to: MAKER_ATA_B,
                authority: TAKER,
                amount: self.escrow.requested_amount,
            },
        );
        calls.push(
            Call::TransferTokensSigned {
                from: VAULT,
                to: TAKER_ATA_A,
                authority: ESCROW,
                amount: self.accounts.vault.tokens,
                seeds: escrow_signer_seeds(&self.escrow.maker, self.escrow.seed, self.escrow.bump),
            },
        );
        calls.push(
            Call::CloseHolding {
                holding: VAULT,
                destination: MAKER,
                authority: ESCROW,
                seeds: escrow_signer_seeds(&self.escrow.maker, self.escrow.seed, self.escrow.bump),
            },
        );
        calls.push(Call::CloseRecord { record: ESCROW, destination: MAKER });
        calls
    }

    /// Carries out a validated `take`: moves the requested amount from the
    /// taker's holding to the maker's, moves everything in the vault to the
    /// taker, and closes the vault and the record in favour of the maker.
    /// Where the ledger refuses a step, nothing is changed.
    pub fn process(&mut self, env: &Environment) -> (r: Result<(), CustodyError>)
        ensures
            r is Ok <==> take_feasible(*env, old(self).accounts.table(), old(self).escrow),
            r is Ok ==> final(self).accounts.table() == take_effect(
                *env,
                old(self).accounts.table(),
                old(self).escrow,
            ),
            r is Err ==> r == Err::<(), CustodyError>(CustodyError::TransferFailed)
                && final(self).accounts.table() == old(self).accounts.table(),
            final(self).escrow == old(self).escrow,
    {
        let calls = self.plan(env);
        let mut list = self.accounts.to_vec();
        proof {
            lemma_take_plan_runs(*env, self.accounts.table(), self.escrow);
        }
        match run(env, &mut list, &calls) {
            Ok(()) => {},
            Err(e) => {
                return Err(e);
            },
        }
        assert(list.deep_view().len() == TAKE_ACCOUNTS_LEN);
        match TakeAccounts::from_list(&list) {
            Some(left) => {
                self.accounts = left;
                Ok(())
            },
            None => Err(CustodyError::TransferFailed),
        }
    }
}

} // verus!
