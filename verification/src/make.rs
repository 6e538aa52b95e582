//! `make`: the maker creates a custody record and locks the offered amount.

use vstd::prelude::*;
use crate::account::{Account, AccountState, all_distinct, distinct_addresses, Environment};
use crate::address::{Address, derive_address, derive_address_spec};
use crate::bytes::read_u64_le;
use crate::calls::{Call, CallModel, ran, run};
use crate::codec::{MAKE_PARAMS_LEN, u64_at};
use crate::error::CustodyError;
use crate::helpers::{
    holding_of_requirement, mint_requirement, signer_requirement,
    validate_associated_token_account, validate_associated_token_program, validate_maker_account,
    validate_mint_account, validate_mint_interface, validate_system_program,
    validate_token_program,
};
use crate::ledger::{
    can_create, can_move_tokens, created, holding_address, holding_in, HOLDING_LEN,
    lamports_debited, proves_authority, tokens_credited, tokens_debited,
};
use crate::record::{Escrow, ESCROW_LEN, escrow_seeds, escrow_seeds_spec, escrow_signer_seeds};
use crate::schema::{
    any_account, anything, Content, first_violation, hold_to, Pin, pin_of, pin_to,
    program_requirement, Requirement, Role, rules_spec,
};

verus! {

/// The place of the maker in the account list of `make`.
pub const MAKER: usize = 0;

/// The place of the custody record.
pub const ESCROW: usize = 1;

/// The place of the offered asset type.
pub const MINT_A: usize = 2;

/// The place of the requested asset type.
pub const MINT_B: usize = 3;

/// The place of the maker's holding of the offered asset.
pub const MAKER_ATA_A: usize = 4;

/// The place of the custody vault.
pub const VAULT: usize = 5;

/// The place of the system program.
pub const SYSTEM_PROGRAM: usize = 6;

/// The place of the token program.
pub const TOKEN_PROGRAM: usize = 7;

/// The place of the associated token program.
pub const ASSOCIATED_TOKEN_PROGRAM: usize = 8;

/// The number of accounts of `make`.
pub const MAKE_ACCOUNTS_LEN: usize = 9;

/// The accounts of `make`, in the order in which they are supplied.
#[derive(Clone, Debug, PartialEq, Eq)]
pub struct MakeAccounts {
    pub maker: Account,
    pub escrow: Account,
    pub mint_a: Account,
    pub mint_b: Account,
    pub maker_ata_a: Account,
    pub vault: Account,
    pub system_program: Account,
    pub token_program: Account,
    pub associated_token_program: Account,
}

/// What `make` requires of its accounts before it looks at the record: the
/// maker signs, the asset types and the maker's holding are plausible, the
/// holding lives at its derived address, and the programs are the known
/// ones.
pub open spec fn make_accounts_schema(env: Environment, t: Seq<AccountState>) -> Seq<Requirement> {
    seq![
        signer_requirement(),
        Requirement { role: Role::Writable, ..anything() },
        mint_requirement(env),
        mint_requirement(env),
        holding_of_requirement(env, t[MAKER as int].address, t[MINT_A as int].address),
        Requirement { role: Role::Writable, ..anything() },
        program_requirement(env.system_program),
        program_requirement(env.token_program),
        program_requirement(env.associated_token_program),
    ]
}

impl MakeAccounts {
    /// The accounts as a list, in the order in which they are supplied.
    pub open spec fn table(self) -> Seq<AccountState> {
        seq![
            self.maker@,
            self.escrow@,
            self.mint_a@,
            self.mint_b@,
            self.maker_ata_a@,
            self.vault@,
            self.system_program@,
            self.token_program@,
            self.associated_token_program@,
        ]
    }

    /// Takes the accounts of `make` from an account list, and holds them to
    /// the rules of `make_accounts_schema`: the number of accounts first,
    /// then the maker's signature, then the other accounts in order.
    pub fn try_from(env: &Environment, accounts: &Vec<Account>) -> (r: Result<
        MakeAccounts,
        CustodyError,
    >)
        ensures
            r is Ok <==> rules_spec(
                accounts.deep_view(),
                make_accounts_schema(*env, accounts.deep_view()),
            ) is Ok,
            r matches Err(e) ==> rules_spec(
                accounts.deep_view(),
                make_accounts_schema(*env, accounts.deep_view()),
            ) == Err::<(), CustodyError>(e),
            r matches Ok(m) ==> m.table() == accounts.deep_view(),
            accounts.len() == MAKE_ACCOUNTS_LEN && !accounts[MAKER as int].is_signer ==> r is Err
                && r->Err_0 == CustodyError::MissingSignature,
    {
        if accounts.len() != MAKE_ACCOUNTS_LEN {
            return Err(CustodyError::NotEnoughAccounts);
        }
        let maker = &accounts[MAKER];
        let escrow = &accounts[ESCROW];
        let mint_a = &accounts[MINT_A];
        let mint_b = &accounts[MINT_B];
        let maker_ata_a = &accounts[MAKER_ATA_A];
        let vault = &accounts[VAULT];
        let system_program = &accounts[SYSTEM_PROGRAM];
        let token_program = &accounts[TOKEN_PROGRAM];
        let associated_token_program = &accounts[ASSOCIATED_TOKEN_PROGRAM];
        proof {
            reveal_with_fuel(first_violation, 10);
        }
        match validate_maker_account(maker) {
            Err(e) => {
                return Err(e);
            },
            Ok(()) => {},
        }
        match validate_mint_account(mint_a, env) {
            Err(e) => {
                return Err(e);
            },
            Ok(()) => {},
        }
        match validate_mint_interface(mint_b, env) {
            Err(e) => {
                return Err(e);
            },
            Ok(()) => {},
        }
        match validate_associated_token_account(maker_ata_a, maker, mint_a, env) {
            Err(e) => {
                return Err(e);
            },
            Ok(()) => {},
        }
        match validate_system_program(system_program, env) {
            Err(e) => {
                return Err(e);
            },
            Ok(()) => {},
        }
        match validate_token_program(token_program, env) {
            Err(e) => {
                return Err(e);
            },
            Ok(()) => {},
        }
        match validate_associated_token_program(associated_token_program, env) {
            Err(e) => {
                return Err(e);
            },
            Ok(()) => {},
        }
        match MakeAccounts::from_list(accounts) {
            Some(taken) => Ok(taken),
            None => Err(CustodyError::NotEnoughAccounts),
        }
    }

    /// The accounts as a list, in the order in which they are supplied.
    pub fn to_vec(&self) -> (r: Vec<Account>)
        ensures
            r.deep_view() == self.table(),
    {
        let mut out: Vec<Account> = Vec::new();
        out.push(self.maker.duplicate());
        out.push(self.escrow.duplicate());
        out.push(self.mint_a.duplicate());
        out.push(self.mint_b.duplicate());
        out.push(self.maker_ata_a.duplicate());
        out.push(self.vault.duplicate());
        out.push(self.system_program.duplicate());
        out.push(self.token_program.duplicate());
        out.push(self.associated_token_program.duplicate());
        out
    }

    /// The accounts of a list of the right length, by name.
    pub fn from_list(accounts: &Vec<Account>) -> (r: Option<MakeAccounts>)
        ensures
            r is Some <==> accounts.len() == MAKE_ACCOUNTS_LEN,
            r matches Some(m) ==> m.table() == accounts.deep_view(),
    {
        if accounts.len() != MAKE_ACCOUNTS_LEN {
            return None;
        }
        let named = MakeAccounts {
            maker: accounts[MAKER].duplicate(),
            escrow: accounts[ESCROW].duplicate(),
            mint_a: accounts[MINT_A].duplicate(),
            mint_b: accounts[MINT_B].duplicate(),
            maker_ata_a: accounts[MAKER_ATA_A].duplicate(),
            vault: accounts[VAULT].duplicate(),
            system_program: accounts[SYSTEM_PROGRAM].duplicate(),
            token_program: accounts[TOKEN_PROGRAM].duplicate(),
            associated_token_program: accounts[ASSOCIATED_TOKEN_PROGRAM].duplicate(),
        };
        Some(named)
    }
}

/// The parameters of `make`.
#[derive(Clone, Copy, Debug, PartialEq, Eq)]
pub struct MakeInstructionData {
    /// Tells apart the records of one maker.
    pub seed: u64,
    /// How much of the requested asset the maker asks for.
    pub receive: u64,
    /// How much of the offered asset the maker locks.
    pub amount: u64,
}

impl MakeInstructionData {
    /// The parameters that the bytes after the discriminator stand for:
    /// three little-endian 64-bit integers, the seed, the requested and the
    /// offered amount. An offer of nothing is refused.
    pub open spec fn parse(data: Seq<u8>) -> Result<MakeInstructionData, CustodyError> {
        if data.len() != MAKE_PARAMS_LEN {
            Err(CustodyError::InvalidInstructionData)
        } else if u64_at(data, 16) == 0 {
            Err(CustodyError::InvalidAmount)
        } else {
            Ok(
                MakeInstructionData {
                    seed: u64_at(data, 0),
                    receive: u64_at(data, 8),
                    amount: u64_at(data, 16),
                },
            )
        }
    }

    /// Reads the parameters of `make` from the bytes after the
    /// discriminator.
    pub fn try_from(data: &[u8]) -> (r: Result<MakeInstructionData, CustodyError>)
        ensures
            r == Self::parse(data@),
    {
        if data.len() != MAKE_PARAMS_LEN {
            return Err(CustodyError::InvalidInstructionData);
        }
        let seed: u64 = read_u64_le(data, 0);
        let receive: u64 = read_u64_le(data, 8);
        let amount: u64 = read_u64_le(data, 16);
        if amount == 0 {
            return Err(CustodyError::InvalidAmount);
        }
        Ok(MakeInstructionData { seed, receive, amount })
    }
}

/// The address and the bump of the custody record that `make` is about to
/// create.
pub open spec fn escrow_found(env: Environment, t: Seq<AccountState>, seed: u64) -> Option<
    (Address, u8),
> {
    derive_address_spec(escrow_seeds_spec(t[MAKER as int].address, seed), env.program_id)
}

/// Where the custody record has to live.
pub open spec fn escrow_pin(env: Environment, t: Seq<AccountState>, seed: u64) -> Pin {
    match escrow_found(env, t, seed) {
        Some((a, _)) => Pin::At(a),
        None => Pin::Nowhere,
    }
}

/// Where the custody vault has to live: at the address of the record's
/// holding of the offered asset.
pub open spec fn vault_pin(env: Environment, t: Seq<AccountState>, seed: u64) -> Pin {
    match escrow_found(env, t, seed) {
        Some((a, _)) => pin_of(holding_in(env, a, t[MINT_A as int].address)),
        None => Pin::Nowhere,
    }
}

/// What `make` requires of the record and of the vault: both live at their
/// derived addresses, and neither exists yet.
pub open spec fn make_record_schema(escrow: Pin, vault: Pin) -> Seq<Requirement> {
    seq![
        anything(),
        Requirement { role: Role::Writable, pin: escrow, content: Content::Vacant, owner: None },
        anything(),
        anything(),
        anything(),
        Requirement { role: Role::Writable, pin: vault, content: Content::Vacant, owner: None },
        anything(),
        anything(),
        anything(),
    ]
}

fn record_schema(escrow: Pin, vault: Pin) -> (r: Vec<Requirement>)
    ensures
        r@ == make_record_schema(escrow, vault),
{
    let mut schema: Vec<Requirement> = Vec::new();
    schema.push(any_account());
    schema.push(
        Requirement { role: Role::Writable, pin: escrow, content: Content::Vacant, owner: None },
    );
    schema.push(any_account());
    schema.push(any_account());
    schema.push(any_account());
    schema.push(
        Requirement { role: Role::Writable, pin: vault, content: Content::Vacant, owner: None },
    );
    schema.push(any_account());
    schema.push(any_account());
    schema.push(any_account());
    schema
}

/// The rule of `make` on its two asset types: what is offered and what is
/// asked for have to be two asset types. An exchange of an asset for itself
/// is refused.
pub open spec fn two_assets(t: Seq<AccountState>) -> bool {
    t[MINT_A as int].address != t[MINT_B as int].address
}

/// Whether `make` accepts the parameters and the accounts, and if so with
/// which parameters and which bump; if not, why not.
///
/// The parameters are looked at first, so an offer of nothing is refused
/// whatever the accounts are; then the accounts are held to
/// `make_accounts_schema`, and then the record and the vault to
/// `make_record_schema`. Where every account meets its requirements, the
/// two asset types have to differ, and last, no account may be supplied
/// twice.
pub open spec fn make_verdict(env: Environment, data: Seq<u8>, t: Seq<AccountState>) -> Result<
    (MakeInstructionData, u8),
    CustodyError,
> {
    match MakeInstructionData::parse(data) {
        Err(e) => Err(e),
        Ok(ix) => match rules_spec(t, make_accounts_schema(env, t)) {
            Err(e) => Err(e),
            Ok(_) => match rules_spec(
                t,
                make_record_schema(escrow_pin(env, t, ix.seed), vault_pin(env, t, ix.seed)),
            ) {
                Err(e) => Err(e),
                Ok(_) => if !two_assets(t) {
                    Err(CustodyError::AddressMismatch)
                } else if !distinct_addresses(t) {
                    Err(CustodyError::AddressMismatch)
                } else {
                    Ok((ix, escrow_found(env, t, ix.seed)->Some_0.1))
                },
            },
        },
    }
}

/// The record that `make` writes.
pub open spec fn make_record(t: Seq<AccountState>, ix: MakeInstructionData, bump: u8) -> Escrow {
    Escrow {
        seed: ix.seed,
        maker: t[MAKER as int].address,
        asset_a: t[MINT_A as int].address,
        asset_b: t[MINT_B as int].address,
        requested_amount: ix.receive,
        bump: bump,
    }
}

/// The maker after it has paid the two storage deposits.
pub open spec fn maker_after_make(env: Environment, maker: AccountState) -> AccountState {
    lamports_debited(lamports_debited(maker, env.record_deposit), env.holding_deposit)
}

/// The custody record after `make`.
pub open spec fn escrow_after_make(
    env: Environment,
    t: Seq<AccountState>,
    ix: MakeInstructionData,
    bump: u8,
) -> AccountState {
    AccountState {
        data: make_record(t, ix, bump).pack_spec(),
        ..created(t[ESCROW as int], env.record_deposit, ESCROW_LEN as nat, env.program_id)
    }
}

/// The custody vault right after its creation.
pub open spec fn vault_created(env: Environment, vault: AccountState) -> AccountState {
    created(vault, env.holding_deposit, HOLDING_LEN as nat, env.token_program)
}

/// Whether the ledger carries out what `make` asks of it: the maker can pay
/// for the record and for the vault, both can be created where they are
/// supplied, and the maker's holding covers the offered amount.
pub open spec fn make_feasible(
    env: Environment,
    t: Seq<AccountState>,
    ix: MakeInstructionData,
    bump: u8,
) -> bool {
    &&& can_create(t[MAKER as int], t[ESCROW as int], env.record_deposit)
    &&& proves_authority(
        escrow_seeds_spec(t[MAKER as int].address, ix.seed).push(seq![bump]),
        env.program_id,
        t[ESCROW as int].address,
    )
    &&& can_create(
        lamports_debited(t[MAKER as int], env.record_deposit),
        t[VAULT as int],
        env.holding_deposit,
    )
    &&& holding_in(env, t[ESCROW as int].address, t[MINT_A as int].address) == Some(
        t[VAULT as int].address,
    )
    &&& can_move_tokens(
        t[MAKER_ATA_A as int],
        vault_created(env, t[VAULT as int]),
        ix.amount,
    )
}

/// The accounts after `make`: the maker has paid the deposits, the record
/// exists and holds the agreement, the vault exists and holds the offered
/// amount, which has left the maker's holding.
pub open spec fn make_effect(
    env: Environment,
    t: Seq<AccountState>,
    ix: MakeInstructionData,
    bump: u8,
) -> Seq<AccountState> {
    t.update(MAKER as int, maker_after_make(env, t[MAKER as int])).update(
        ESCROW as int,
        escrow_after_make(env, t, ix, bump),
    ).update(MAKER_ATA_A as int, tokens_debited(t[MAKER_ATA_A as int], ix.amount)).update(
        VAULT as int,
        tokens_credited(vault_created(env, t[VAULT as int]), ix.amount),
    )
}

/// The calls that carry out `make`, in order: create the record at the
/// cost of the maker, on the program's authority over its address; create
/// the vault as the record's holding of the offered asset; write the
/// agreement into the record; move the offered amount from the maker's
/// holding into the vault.
pub open spec fn make_plan(
    env: Environment,
    t: Seq<AccountState>,
    ix: MakeInstructionData,
    bump: u8,
) -> Seq<CallModel> {
    seq![
        CallModel::CreateStorage {
            payer: MAKER as int,
            target: ESCROW as int,
            deposit: env.record_deposit,
            size: ESCROW_LEN as nat,
            owner: env.program_id,
            signer_seeds: Some(
                escrow_seeds_spec(t[MAKER as int].address, ix.seed).push(seq![bump]),
            ),
        },
        CallModel::CreateAssociatedHolding {
            payer: MAKER as int,
            holding: VAULT as int,
            holder: ESCROW as int,
            asset: MINT_A as int,
        },
        CallModel::Write { target: ESCROW as int, data: make_record(t, ix, bump).pack_spec() },
        CallModel::TransferTokens {
            from: MAKER_ATA_A as int,
            to: VAULT as int,
            authority: MAKER as int,
            amount: ix.amount,
        },
    ]
}

/// Carrying out the calls of `make` in order leaves exactly what
/// `make_effect` says, and the ledger refuses one of them exactly where
/// `make_feasible` does not hold.
pub proof fn lemma_make_plan_runs(
    env: Environment,
    t: Seq<AccountState>,
    ix: MakeInstructionData,
    bump: u8,
)
    requires
        t.len() == MAKE_ACCOUNTS_LEN,
    ensures
        ran(env, t, make_plan(env, t, ix, bump), 0) == if make_feasible(env, t, ix, bump) {
            Some(make_effect(env, t, ix, bump))
        } else {
            None
        },
{
    make_record(t, ix, bump).lemma_unpack_pack();
    reveal_with_fuel(ran, 5);
}

/// A `make` that has been validated and is ready to be carried out.
#[derive(Clone, Debug, PartialEq, Eq)]
pub struct Make {
    pub accounts: MakeAccounts,
    pub instruction_data: MakeInstructionData,
    pub bump: u8,
}

impl Make {
    /// The discriminator of `make`.
    pub const DISCRIMINATOR: u8 = 0;

    /// Validates a `make`: decodes the parameters, holds the accounts to
    /// the schemas of the operation, and finds the bump of the record. Then
    /// it refuses an exchange of an asset for itself, and a list that
    /// supplies one account twice. Nothing is changed.
    pub fn try_from(env: &Environment, data: &[u8], accounts: &Vec<Account>) -> (r: Result<
        Make,
        CustodyError,
    >)
        ensures
            r is Ok <==> make_verdict(*env, data@, accounts.deep_view()) is Ok,
            r matches Err(e) ==> make_verdict(*env, data@, accounts.deep_view()) == Err::<
                (MakeInstructionData, u8),
                CustodyError,
            >(e),
            r matches Ok(m) ==> make_verdict(*env, data@, accounts.deep_view()) == Ok::<
                (MakeInstructionData, u8),
                CustodyError,
            >((m.instruction_data, m.bump)) && m.accounts.table() == accounts.deep_view(),
    {
        let instruction_data = match MakeInstructionData::try_from(data) {
            Ok(ix) => ix,
            Err(e) => {
                return Err(e);
            },
        };
        let taken = match MakeAccounts::try_from(env, accounts) {
            Ok(a) => a,
            Err(e) => {
                return Err(e);
            },
        };
        let seeds = escrow_seeds(&taken.maker.address, instruction_data.seed);
        let found = derive_address(&seeds, &env.program_id);
        let (escrow_at, vault_at) = match found {
            Some((a, _)) => (
                Pin::At(a),
                pin_to(
                    holding_address(
                        &env.token_program,
                        &env.associated_token_program,
                        &a,
                        &taken.mint_a.address,
                    ),
                ),
            ),
            None => (Pin::Nowhere, Pin::Nowhere),
        };
        let schema = record_schema(escrow_at, vault_at);
        match hold_to(accounts, &schema) {
            Ok(()) => {},
            Err(e) => {
                return Err(e);
            },
        }
        proof {
            reveal_with_fuel(first_violation, 3);
        }
        if taken.mint_a.address.same(&taken.mint_b.address) {
            return Err(CustodyError::AddressMismatch);
        }
        if !all_distinct(accounts) {
            return Err(CustodyError::AddressMismatch);
        }
        match found {
            Some((_, bump)) => Ok(Make { accounts: taken, instruction_data, bump }),
            None => Err(CustodyError::AddressMismatch),
        }
    }

    /// The calls that carry out the `make`, in order.
    pub fn plan(&self, env: &Environment) -> (r: Vec<Call>)
        ensures
            r.deep_view() == make_plan(
                *env,
                self.accounts.table(),
                self.instruction_data,
                self.bump,
            ),
    {
        let record = Escrow {
            seed: self.instruction_data.seed,
            maker: self.accounts.maker.address,
            asset_a: self.accounts.mint_a.address,
            asset_b: self.accounts.mint_b.address,
            requested_amount: self.instruction_data.receive,
            bump: self.bump,
        };
        let mut calls: Vec<Call> = Vec::new();
        calls.push(
            Call::CreateStorage {
                payer: MAKER,
                target: ESCROW,
                deposit: env.record_deposit,
                size: ESCROW_LEN,
                owner: env.program_id,
                signer_seeds: Some(
                    escrow_signer_seeds(
                        &self.accounts.maker.address,
                        self.instruction_data.seed,
                        self.bump,
                    ),
                ),
            },
        );
        calls.push(
            Call::CreateAssociatedHolding {
                payer: MAKER,
                holding: VAULT,
                holder: ESCROW,
                asset: MINT_A,
            },
        );
        calls.push(Call::Write { target: ESCROW, data: record.pack() });
        calls.push(
            Call::TransferTokens {
                from: MAKER_ATA_A,
                to: VAULT,
                authority: MAKER,
                amount: self.instruction_data.amount,
            },
        );
        calls
    }

    /// Carries out a validated `make`: creates the record at the cost of
    /// the maker, creates the vault, writes the agreement into the record,
    /// and moves the offered amount from the maker's holding into the
    /// vault. Where the ledger refuses a step, nothing is changed. Where it
    /// refuses none, the vault holds exactly the offered amount, the
    /// maker's holding holds that much less, and the record holds the
    /// agreement.
    pub fn process(&mut self, env: &Environment) -> (r: Result<(), CustodyError>)
        ensures
            r is Ok <==> make_feasible(
                *env,
                old(self).accounts.table(),
                old(self).instruction_data,
                old(self).bump,
            ),
            r is Ok ==> final(self).accounts.table() == make_effect(
                *env,
                old(self).accounts.table(),
                old(self).instruction_data,
                old(self).bump,
            ),
            r is Err ==> r == Err::<(), CustodyError>(CustodyError::TransferFailed)
                && final(self).accounts.table() == old(self).accounts.table(),
            r is Ok ==> final(self).accounts.vault.tokens == old(self).instruction_data.amount
                && final(self).accounts.maker_ata_a.tokens + old(self).instruction_data.amount
                == old(self).accounts.maker_ata_a.tokens && Escrow::is_record(
                final(self).accounts.escrow.data@,
            ) && Escrow::unpack_spec(final(self).accounts.escrow.data@) == (Escrow {
                seed: old(self).instruction_data.seed,
                maker: old(self).accounts.maker.address,
                asset_a: old(self).accounts.mint_a.address,
                asset_b: old(self).accounts.mint_b.address,
                requested_amount: old(self).instruction_data.receive,
                bump: old(self).bump,
            }),
            final(self).instruction_data == old(self).instruction_data,
            final(self).bump == old(self).bump,
    {
        proof {
            make_record(
                self.accounts.table(),
                self.instruction_data,
                self.bump,
            ).lemma_unpack_pack();
        }
        let calls = self.plan(env);
        let mut list = self.accounts.to_vec();
        proof {
            lemma_make_plan_runs(*env, self.accounts.table(), self.instruction_data, self.bump);
        }
        match run(env, &mut list, &calls) {
            Ok(()) => {},
            Err(e) => {
                return Err(e);
            },
        }
        assert(list.deep_view().len() == MAKE_ACCOUNTS_LEN);
        match MakeAccounts::from_list(&list) {
            Some(left) => {
                self.accounts = left;
                Ok(())
            },
            None => Err(CustodyError::TransferFailed),
        }
    }
}

} // verus!
