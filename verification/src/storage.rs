//! The storage programs: each user has one derived account that holds
//! bytes of the user's choosing.
//!
//! The simple program creates the account on the first invocation and
//! writes the bytes once. The managed program keeps, beside the bytes, who
//! may change them, and returns to the user whatever the account holds
//! above its storage deposit.

use vstd::prelude::*;
use vstd::slice::slice_to_vec;
use crate::account::{Account, AccountState, all_distinct, distinct_addresses, Environment};
use crate::address::{Address, derive_address, derive_address_spec, seed_bytes, with_bump};
use crate::calls::{applied, Call, CallModel, ran, run};
use crate::error::CustodyError;
use crate::ledger::{
    can_create, can_move_lamports, created, lamports_credited, lamports_debited, proves_authority,
    transfer_signed,
};

verus! {

/// The place of the user in the account list of the simple program.
pub const USER: usize = 0;

/// The place of the user's data account.
pub const DATA: usize = 1;

/// The place of the system program.
pub const SYSTEM_PROGRAM: usize = 2;

/// The place of the ledger's record of storage charges.
pub const RENT: usize = 3;

/// The number of accounts of the simple program.
pub const STORE_ACCOUNTS_LEN: usize = 4;

/// The seeds of the data account of `user` in the simple program.
pub open spec fn data_seeds_spec(user: Address) -> Seq<Seq<u8>> {
    seq![user@]
}

/// The seeds of the data account of `user` in the simple program.
pub fn data_seeds(user: &Address) -> (r: Vec<Vec<u8>>)
    ensures
        seed_bytes(r@) == data_seeds_spec(*user),
{
    let mut seeds: Vec<Vec<u8>> = Vec::new();
    seeds.push(user.to_vec());
    seeds
}

/// What an invocation of the simple program does to the accounts, or why
/// it is rejected.
///
/// The list has to hold exactly four accounts, the address of the data
/// account has to be derivable from the user, and no account may be
/// supplied twice.
/// Where the data account holds no value yet, it is created at the cost of
/// the user, on the program's authority over the address derived from the
/// user, with room for exactly the bytes of the instruction, and the bytes
/// are written. Where it holds value, nothing is done.
pub open spec fn store_transition(
    program_id: Address,
    t: Seq<AccountState>,
    data: Seq<u8>,
    rent_exemption: u64,
) -> Result<Seq<AccountState>, CustodyError> {
    if t.len() != STORE_ACCOUNTS_LEN {
        Err(CustodyError::NotEnoughAccounts)
    } else {
        match derive_address_spec(data_seeds_spec(t[USER as int].address), program_id) {
            None => Err(CustodyError::AddressMismatch),
            Some((_, bump)) => if !distinct_addresses(t) {
                Err(CustodyError::AddressMismatch)
            } else if t[DATA as int].lamports != 0 {
                Ok(t)
            } else if can_create(t[USER as int], t[DATA as int], rent_exemption)
                && proves_authority(
                data_seeds_spec(t[USER as int].address).push(seq![bump]),
                program_id,
                t[DATA as int].address,
            ) {
                Ok(
                    t.update(USER as int, lamports_debited(t[USER as int], rent_exemption)).update(
                        DATA as int,
                        AccountState {
                            data: data,
                            ..created(t[DATA as int], rent_exemption, data.len(), program_id)
                        },
                    ),
                )
            } else {
                Err(CustodyError::TransferFailed)
            },
        }
    }
}

/// The calls that carry out an invocation of the simple program, or why
/// there are none: where the data account holds no value yet, create it and
/// write the bytes; where it holds value, nothing.
pub open spec fn store_plan_spec(
    env: Environment,
    t: Seq<AccountState>,
    data: Seq<u8>,
    rent_exemption: u64,
) -> Result<Seq<CallModel>, CustodyError> {
    if t.len() != STORE_ACCOUNTS_LEN {
        Err(CustodyError::NotEnoughAccounts)
    } else {
        match derive_address_spec(data_seeds_spec(t[USER as int].address), env.program_id) {
            None => Err(CustodyError::AddressMismatch),
            Some((_, bump)) => if !distinct_addresses(t) {
                Err(CustodyError::AddressMismatch)
            } else if t[DATA as int].lamports != 0 {
                Ok(Seq::empty())
            } else {
                Ok(
                    seq![
                        CallModel::CreateStorage {
                            payer: USER as int,
                            target: DATA as int,
                            deposit: rent_exemption,
                            size: data.len(),
                            owner: env.program_id,
                            signer_seeds: Some(
                                data_seeds_spec(t[USER as int].address).push(seq![bump]),
                            ),
                        },
                        CallModel::Write { target: DATA as int, data: data },
                    ],
                )
            },
        }
    }
}

/// Planning an invocation of the simple program and carrying out the calls
/// leaves exactly what `store_transition` says.
pub proof fn lemma_store_plan_runs(
    env: Environment,
    t: Seq<AccountState>,
    data: Seq<u8>,
    rent_exemption: u64,
)
    ensures
        store_transition(env.program_id, t, data, rent_exemption) == match store_plan_spec(
            env,
            t,
            data,
            rent_exemption,
        ) {
            Err(e) => Err::<Seq<AccountState>, CustodyError>(e),
            Ok(calls) => match ran(env, t, calls, 0) {
                Some(left) => Ok(left),
                None => Err(CustodyError::TransferFailed),
            },
        },
{
    reveal_with_fuel(ran, 3);
    let plan = store_plan_spec(env, t, data, rent_exemption);
    if plan is Ok && plan->Ok_0.len() == 2 {
        let first = applied(env, t, plan->Ok_0[0]);
        if first is Some {
            let second = applied(env, first->Some_0, plan->Ok_0[1]);
            assert(second is Some);
            assert(second->Some_0 =~= store_transition(
                env.program_id,
                t,
                data,
                rent_exemption,
            )->Ok_0);
        }
    }
}

/// Plans one invocation of the simple program.
pub fn store_plan(
    env: &Environment,
    accounts: &Vec<Account>,
    data: &[u8],
    rent_exemption: u64,
) -> (r: Result<Vec<Call>, CustodyError>)
    ensures
        match store_plan_spec(*env, accounts.deep_view(), data@, rent_exemption) {
            Ok(calls) => r is Ok && r->Ok_0.deep_view() == calls,
            Err(e) => r is Err && r->Err_0 == e,
        },
{
    if accounts.len() != STORE_ACCOUNTS_LEN {
        return Err(CustodyError::NotEnoughAccounts);
    }
    let account_user = &accounts[USER];
    let account_data = &accounts[DATA];
    let seeds = data_seeds(&account_user.address);
    let bump_seed: u8 = match derive_address(&seeds, &env.program_id) {
        Some((_, bump)) => bump,
        None => {
            return Err(CustodyError::AddressMismatch);
        },
    };
    if !all_distinct(accounts) {
        return Err(CustodyError::AddressMismatch);
    }
    let mut calls: Vec<Call> = Vec::new();
    if account_data.lamports != 0 {
        return Ok(calls);
    }
    calls.push(
        Call::CreateStorage {
            payer: USER,
            target: DATA,
            deposit: rent_exemption,
            size: data.len(),
            owner: env.program_id,
            signer_seeds: Some(with_bump(seeds, bump_seed)),
        },
    );
    calls.push(Call::Write { target: DATA, data: slice_to_vec(data) });
    Ok(calls)
}

/// Runs one invocation of the simple program. `rent_exemption` is the
/// storage deposit that the ledger asks for an account with room for the
/// bytes of the instruction. On success the account list holds the accounts
/// as the invocation left them; on failure it is unchanged.
pub fn process_instruction(
    env: &Environment,
    accounts: &mut Vec<Account>,
    data: &[u8],
    rent_exemption: u64,
) -> (r: Result<(), CustodyError>)
    ensures
        match store_transition(env.program_id, old(accounts).deep_view(), data@, rent_exemption) {
            Ok(t) => r is Ok && final(accounts).deep_view() == t,
            Err(e) => r == Err::<(), CustodyError>(e)
                && final(accounts).deep_view() == old(accounts).deep_view(),
        },
{
    let calls = match store_plan(env, accounts, data, rent_exemption) {
        Ok(c) => c,
        Err(e) => {
            return Err(e);
        },
    };
    proof {
        lemma_store_plan_runs(*env, accounts.deep_view(), data@, rent_exemption);
    }
    run(env, accounts, &calls)
}

/// The error codes of the managed program.
#[derive(Clone, Copy, Debug, PartialEq, Eq)]
pub enum PxsolError {
    /// The user is not the one who may change the data.
    Unauthorized,
    /// The data cannot be accepted.
    InvalidData,
}

impl PxsolError {
    /// The kind of rejection that the code stands for.
    pub fn kind(self) -> (r: CustodyError)
        ensures
            r == match self {
                PxsolError::Unauthorized => CustodyError::AddressMismatch,
                PxsolError::InvalidData => CustodyError::InvalidInstructionData,
            },
    {
        match self {
            PxsolError::Unauthorized => CustodyError::AddressMismatch,
            PxsolError::InvalidData => CustodyError::InvalidInstructionData,
        }
    }
}

/// What the managed program keeps in a user's account.
#[derive(Clone, Debug, PartialEq, Eq)]
pub struct Data {
    /// Who may change the data.
    pub auth: Address,
    /// The bump of the account's address.
    pub bump: u8,
    /// The bytes of the user's choosing.
    pub data: Vec<u8>,
}

/// The number of bytes that the managed program stores before the user's
/// bytes: a discriminator of 8 bytes, the 32 bytes of the authority, the
/// bump, and the 4 bytes of the length.
pub const DATA_HEADER_LEN: usize = 45;

impl Data {
    /// The room that an account needs for `data_len` bytes of the user's
    /// choosing.
    pub fn space_for(data_len: usize) -> (r: usize)
        requires
            data_len + DATA_HEADER_LEN <= usize::MAX,
        ensures
            r == DATA_HEADER_LEN + data_len,
    {
        8 + 32 + 1 + 4 + data_len
    }
}

/// The accounts with which a user's account is set up.
#[derive(Clone, Debug, PartialEq, Eq)]
pub struct Init {
    pub user: Account,
    pub user_pda: Account,
    pub system_program: Account,
}

/// The accounts with which a user's data is changed.
#[derive(Clone, Debug, PartialEq, Eq)]
pub struct Update {
    pub user: Account,
    pub user_pda: Account,
    pub system_program: Account,
}

/// The first seed of a user's account in the managed program: the bytes of
/// `seeds`.
pub open spec fn managed_tag() -> Seq<u8> {
    seq![0x73u8, 0x65u8, 0x65u8, 0x64u8, 0x73u8]
}

/// The seeds of the account of `user` in the managed program.
pub open spec fn managed_seeds_spec(user: Address) -> Seq<Seq<u8>> {
    seq![managed_tag(), user@]
}

/// The seeds that prove the program's authority over the account of
/// `user`: its seeds followed by its bump.
pub open spec fn managed_signer_seeds_spec(user: Address, bump: u8) -> Seq<Seq<u8>> {
    managed_seeds_spec(user).push(seq![bump])
}

/// The seeds that prove the program's authority over the account of
/// `user`.
pub fn managed_signer_seeds(user: &Address, bump: u8) -> (r: Vec<Vec<u8>>)
    ensures
        seed_bytes(r@) == managed_signer_seeds_spec(*user, bump),
{
    let mut tag: Vec<u8> = Vec::new();
    tag.push(0x73u8);
    tag.push(0x65u8);
    tag.push(0x65u8);
    tag.push(0x64u8);
    tag.push(0x73u8);
    assert(tag@ =~= managed_tag());
    let mut seeds: Vec<Vec<u8>> = Vec::new();
    seeds.push(tag);
    seeds.push(user.to_vec());
    with_bump(seeds, bump)
}

/// Sets up what the account of the user keeps: the user is the authority,
/// the bump is the one the account's address was derived with, and there
/// are no bytes yet.
pub fn init(ctx: &Init, bump: u8) -> (r: Data)
    ensures
        r.auth == ctx.user.address,
        r.bump == bump,
        r.data@ == Seq::<u8>::empty(),
{
    Data { auth: ctx.user.address, bump, data: Vec::new() }
}

/// What an update does to the user and to the user's account, or why it is
/// rejected.
///
/// Only the authority may update. Whatever the account holds above
/// `rent_exemption` goes back to the user, on the program's authority over
/// the account; where it holds no more than that, no value moves.
pub open spec fn update_outcome(
    program_id: Address,
    user: AccountState,
    user_pda: AccountState,
    auth: Address,
    bump: u8,
    rent_exemption: u64,
) -> Result<(AccountState, AccountState), CustodyError> {
    if auth != user.address {
        Err(CustodyError::AddressMismatch)
    } else if user_pda.lamports <= rent_exemption {
        Ok((user, user_pda))
    } else {
        let refund = (user_pda.lamports - rent_exemption) as u64;
        if proves_authority(
            managed_signer_seeds_spec(user.address, bump),
            program_id,
            user_pda.address,
        ) && can_move_lamports(user_pda, user, refund) {
            Ok((lamports_credited(user, refund), lamports_debited(user_pda, refund)))
        } else {
            Err(CustodyError::TransferFailed)
        }
    }
}

/// The place of the user in the accounts of the managed program.
pub const MANAGED_USER: usize = 0;

/// The place of the user's account in the accounts of the managed program.
pub const MANAGED_USER_PDA: usize = 1;

/// The calls that carry out an update, or why there are none: only the
/// authority may update, and then one transfer returns to the user
/// whatever the account holds above `rent_exemption`, if anything.
pub open spec fn update_plan_spec(
    user: AccountState,
    user_pda: AccountState,
    auth: Address,
    bump: u8,
    rent_exemption: u64,
) -> Result<Seq<CallModel>, CustodyError> {
    if auth != user.address {
        Err(CustodyError::AddressMismatch)
    } else if user_pda.lamports <= rent_exemption {
        Ok(Seq::empty())
    } else {
        Ok(
            seq![
                CallModel::TransferSigned {
                    from: MANAGED_USER_PDA as int,
                    to: MANAGED_USER as int,
                    amount: (user_pda.lamports - rent_exemption) as u64,
                    seeds: managed_signer_seeds_spec(user.address, bump),
                },
            ],
        )
    }
}

/// Planning an update and carrying out the calls leaves the user and the
/// user's account exactly as `update_outcome` says.
pub proof fn lemma_update_plan_runs(
    env: Environment,
    t: Seq<AccountState>,
    auth: Address,
    bump: u8,
    rent_exemption: u64,
)
    requires
        t.len() == 3,
    ensures
        match update_plan_spec(t[0], t[1], auth, bump, rent_exemption) {
            Err(e) => update_outcome(env.program_id, t[0], t[1], auth, bump, rent_exemption)
                == Err::<(AccountState, AccountState), CustodyError>(e),
            Ok(calls) => match update_outcome(
                env.program_id,
                t[0],
                t[1],
                auth,
                bump,
                rent_exemption,
            ) {
                Ok((user, user_pda)) => ran(env, t, calls, 0) == Some(seq![user, user_pda, t[2]]),
                Err(_) => ran(env, t, calls, 0) is None,
            },
        },
{
    reveal_with_fuel(ran, 2);
}

/// Plans an update: the calls that return the surplus of the user's
/// account to the user.
pub fn update_plan(ctx: &Update, state: &Data, rent_exemption: u64) -> (r: Result<
    Vec<Call>,
    CustodyError,
>)
    ensures
        match update_plan_spec(ctx.user@, ctx.user_pda@, state.auth, state.bump, rent_exemption) {
            Ok(calls) => r is Ok && r->Ok_0.deep_view() == calls,
            Err(e) => r is Err && r->Err_0 == e,
        },
{
    if !state.auth.same(&ctx.user.address) {
        return Err(PxsolError::Unauthorized.kind());
    }
    let mut calls: Vec<Call> = Vec::new();
    let hold: u64 = ctx.user_pda.lamports;
    if hold > rent_exemption {
        calls.push(
            Call::TransferSigned {
                from: MANAGED_USER_PDA,
                to: MANAGED_USER,
                amount: hold - rent_exemption,
                seeds: managed_signer_seeds(&ctx.user.address, state.bump),
            },
        );
    }
    Ok(calls)
}

/// Replaces the user's bytes by `data`, and returns to the user whatever
/// the account holds above `rent_exemption`, the storage deposit that the
/// ledger asks for the account at its new size. Where the update is
/// rejected, nothing is changed.
pub fn update(
    ctx: &mut Update,
    state: &mut Data,
    data: Vec<u8>,
    rent_exemption: u64,
    program_id: &Address,
) -> (r: Result<(), CustodyError>)
    ensures
        match update_outcome(
            *program_id,
            old(ctx).user@,
            old(ctx).user_pda@,
            old(state).auth,
            old(state).bump,
            rent_exemption,
        ) {
            Ok((user, user_pda)) => r is Ok && final(ctx).user@ == user && final(ctx).user_pda@
                == user_pda && final(state).data@ == data@,
            Err(e) => r == Err::<(), CustodyError>(e) && final(ctx).user@ == old(ctx).user@
                && final(ctx).user_pda@ == old(ctx).user_pda@
                    && final(state).data@ == old(state).data@,
        },
        final(state).auth == old(state).auth,
        final(state).bump == old(state).bump,
        final(ctx).system_program@ == old(ctx).system_program@,
{
    if !state.auth.same(&ctx.user.address) {
        return Err(PxsolError::Unauthorized.kind());
    }
    let hold: u64 = ctx.user_pda.lamports;
    if hold > rent_exemption {
        let refund: u64 = hold - rent_exemption;
        let signer_seeds = managed_signer_seeds(&ctx.user.address, state.bump);
        match transfer_signed(
            &mut ctx.user_pda,
            &mut ctx.user,
            refund,
            &signer_seeds,
            program_id,
        ) {
            Ok(()) => {},
            Err(e) => {
                return Err(e);
            },
        }
    }
    state.data = data;
    Ok(())
}

} // verus!
