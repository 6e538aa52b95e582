//! The calls that an operation asks of the ledger, as values.
//!
//! An operation that has been validated does not touch any account. It
//! yields the calls that carry it out, in order, each naming its accounts by
//! their place in the account list. Whoever runs the program performs the
//! calls on the ledger; this module states what each call does to the
//! accounts, so that the outcome of an operation can be said in advance.

use vstd::prelude::*;
use crate::account::{Account, AccountState, Environment};
use crate::address::{Address, seed_bytes};
use crate::error::CustodyError;
use crate::ledger::{
    can_close, can_close_record, can_create, can_move_lamports, can_move_tokens, close_holding,
    close_record, closed, create_associated_holding, create_storage, created, creation_authorized,
    holding_in, HOLDING_LEN, lamports_credited, lamports_debited, proves_authority,
    tokens_credited, tokens_debited, transfer, transfer_signed, transfer_tokens,
    transfer_tokens_signed, withdraw_owned,
};

verus! {

/// One call. Accounts are named by their place in the account list.
#[derive(Clone, Debug, PartialEq, Eq)]
pub enum Call {
    /// Allocate `size` zero bytes at `target` for the program `owner`, at
    /// the cost of `payer`; where `signer_seeds` are given, on the
    /// program's authority over the target.
    CreateStorage {
        payer: usize,
        target: usize,
        deposit: u64,
        size: usize,
        owner: Address,
        signer_seeds: Option<Vec<Vec<u8>>>,
    },
    /// Create the holding of the asset type at `asset` for the account at
    /// `holder`, at the cost of `payer`.
    CreateAssociatedHolding { payer: usize, holding: usize, holder: usize, asset: usize },
    /// Write `data` over the data of an account of the program.
    Write { target: usize, data: Vec<u8> },
    /// Move native value; `from` has signed.
    Transfer { from: usize, to: usize, amount: u64 },
    /// Move native value on the program's authority over `from`.
    TransferSigned { from: usize, to: usize, amount: u64, seeds: Vec<Vec<u8>> },
    /// Move asset units; `authority` has signed.
    TransferTokens { from: usize, to: usize, authority: usize, amount: u64 },
    /// Move asset units on the program's authority over `authority`.
    TransferTokensSigned {
        from: usize,
        to: usize,
        authority: usize,
        amount: u64,
        seeds: Vec<Vec<u8>>,
    },
    /// Close an emptied holding in favour of `destination`, on the
    /// program's authority over `authority`.
    CloseHolding { holding: usize, destination: usize, authority: usize, seeds: Vec<Vec<u8>> },
    /// Close a record of the program in favour of `destination`.
    CloseRecord { record: usize, destination: usize },
    /// Move native value out of an account of the program.
    WithdrawOwned { from: usize, to: usize, amount: u64 },
}

/// The mathematical value of a `Call`.
pub enum CallModel {
    CreateStorage {
        payer: int,
        target: int,
        deposit: u64,
        size: nat,
        owner: Address,
        signer_seeds: Option<Seq<Seq<u8>>>,
    },
    CreateAssociatedHolding { payer: int, holding: int, holder: int, asset: int },
    Write { target: int, data: Seq<u8> },
    Transfer { from: int, to: int, amount: u64 },
    TransferSigned { from: int, to: int, amount: u64, seeds: Seq<Seq<u8>> },
    TransferTokens { from: int, to: int, authority: int, amount: u64 },
    TransferTokensSigned { from: int, to: int, authority: int, amount: u64, seeds: Seq<Seq<u8>> },
    CloseHolding { holding: int, destination: int, authority: int, seeds: Seq<Seq<u8>> },
    CloseRecord { record: int, destination: int },
    WithdrawOwned { from: int, to: int, amount: u64 },
}

impl View for Call {
    type V = CallModel;

    open spec fn view(&self) -> CallModel {
        match *self {
            Call::CreateStorage { payer, target, deposit, size, owner, signer_seeds } => {
                CallModel::CreateStorage {
                    payer: payer as int,
                    target: target as int,
                    deposit: deposit,
                    size: size as nat,
                    owner: owner,
                    signer_seeds: match signer_seeds {
                        Some(s) => Some(seed_bytes(s@)),
                        None => None,
                    },
                }
            },
            Call::CreateAssociatedHolding { payer, holding, holder, asset } => {
                CallModel::CreateAssociatedHolding {
                    payer: payer as int,
                    holding: holding as int,
                    holder: holder as int,
                    asset: asset as int,
                }
            },
            Call::Write { target, data } => CallModel::Write {
                target: target as int,
                data: data@,
            },
            Call::Transfer { from, to, amount } => CallModel::Transfer {
                from: from as int,
                to: to as int,
                amount: amount,
            },
            Call::TransferSigned { from, to, amount, seeds } => CallModel::TransferSigned {
                from: from as int,
                to: to as int,
                amount: amount,
                seeds: seed_bytes(seeds@),
            },
            Call::TransferTokens { from, to, authority, amount } => CallModel::TransferTokens {
                from: from as int,
                to: to as int,
                authority: authority as int,
                amount: amount,
            },
            Call::TransferTokensSigned { from, to, authority, amount, seeds } => {
                CallModel::TransferTokensSigned {
                    from: from as int,
                    to: to as int,
                    authority: authority as int,
                    amount: amount,
                    seeds: seed_bytes(seeds@),
                }
            },
            Call::CloseHolding { holding, destination, authority, seeds } => {
                CallModel::CloseHolding {
                    holding: holding as int,
                    destination: destination as int,
                    authority: authority as int,
                    seeds: seed_bytes(seeds@),
                }
            },
            Call::CloseRecord { record, destination } => CallModel::CloseRecord {
                record: record as int,
                destination: destination as int,
            },
            Call::WithdrawOwned { from, to, amount } => CallModel::WithdrawOwned {
                from: from as int,
                to: to as int,
                amount: amount,
            },
        }
    }
}

impl DeepView for Call {
    type V = CallModel;

    open spec fn deep_view(&self) -> CallModel {
        self@
    }
}

/// Whether `i` and `j` name two accounts of the list.
pub open spec fn two_of(t: Seq<AccountState>, i: int, j: int) -> bool {
    0 <= i < t.len() && 0 <= j < t.len() && i != j
}

/// The list with the accounts at `i` and `j` replaced.
pub open spec fn with_two(
    t: Seq<AccountState>,
    i: int,
    a: AccountState,
    j: int,
    b: AccountState,
) -> Seq<AccountState> {
    t.update(i, a).update(j, b)
}

/// Whether the program can write `data` over the data of the account: it
/// owns the account, the account may be changed, and the data has the size
/// of what it replaces.
pub open spec fn can_write(a: AccountState, data: Seq<u8>, program_id: Address) -> bool {
    a.is_writable && a.owner == program_id && a.data.len() == data.len()
}

/// What the call leaves of the accounts, or `None` where it is refused.
pub open spec fn applied(env: Environment, t: Seq<AccountState>, call: CallModel) -> Option<
    Seq<AccountState>,
> {
    match call {
        CallModel::CreateStorage { payer, target, deposit, size, owner, signer_seeds } => {
            if two_of(t, payer, target) && can_create(t[payer], t[target], deposit)
                && creation_authorized(t[target], signer_seeds, env.program_id) {
                Some(
                    with_two(
                        t,
                        payer,
                        lamports_debited(t[payer], deposit),
                        target,
                        created(t[target], deposit, size, owner),
                    ),
                )
            } else {
                None
            }
        },
        CallModel::CreateAssociatedHolding { payer, holding, holder, asset } => {
            if two_of(t, payer, holding) && 0 <= holder < t.len() && 0 <= asset < t.len()
                && can_create(t[payer], t[holding], env.holding_deposit) && holding_in(
                env,
                t[holder].address,
                t[asset].address,
            ) == Some(t[holding].address) {
                Some(
                    with_two(
                        t,
                        payer,
                        lamports_debited(t[payer], env.holding_deposit),
                        holding,
                        created(
                            t[holding],
                            env.holding_deposit,
                            HOLDING_LEN as nat,
                            env.token_program,
                        ),
                    ),
                )
            } else {
                None
            }
        },
        CallModel::Write { target, data } => {
            if 0 <= target < t.len() && can_write(t[target], data, env.program_id) {
                Some(t.update(target, AccountState { data: data, ..t[target] }))
            } else {
                None
            }
        },
        CallModel::Transfer { from, to, amount } => {
            if two_of(t, from, to) && t[from].is_signer && can_move_lamports(
                t[from],
                t[to],
                amount,
            ) {
                Some(
                    with_two(
                        t,
                        from,
                        lamports_debited(t[from], amount),
                        to,
                        lamports_credited(t[to], amount),
                    ),
                )
            } else {
                None
            }
        },
        CallModel::TransferSigned { from, to, amount, seeds } => {
            if two_of(t, from, to) && proves_authority(seeds, env.program_id, t[from].address)
                && can_move_lamports(t[from], t[to], amount) {
                Some(
                    with_two(
                        t,
                        from,
                        lamports_debited(t[from], amount),
                        to,
                        lamports_credited(t[to], amount),
                    ),
                )
            } else {
                None
            }
        },
        CallModel::TransferTokens { from, to, authority, amount } => {
            if two_of(t, from, to) && 0 <= authority < t.len() && t[authority].is_signer
                && can_move_tokens(t[from], t[to], amount) {
                Some(
                    with_two(
                        t,
                        from,
                        tokens_debited(t[from], amount),
                        to,
                        tokens_credited(t[to], amount),
                    ),
                )
            } else {
                None
            }
        },
        CallModel::TransferTokensSigned { from, to, authority, amount, seeds } => {
            if two_of(t, from, to) && 0 <= authority < t.len() && proves_authority(
                seeds,
                env.program_id,
                t[authority].address,
            ) && can_move_tokens(t[from], t[to], amount) {
                Some(
                    with_two(
                        t,
                        from,
                        tokens_debited(t[from], amount),
                        to,
                        tokens_credited(t[to], amount),
                    ),
                )
            } else {
                None
            }
        },
        CallModel::CloseHolding { holding, destination, authority, seeds } => {
            if two_of(t, holding, destination) && 0 <= authority < t.len() && proves_authority(
                seeds,
                env.program_id,
                t[authority].address,
            ) && can_close(t[holding], t[destination]) {
                Some(
                    with_two(
                        t,
                        holding,
                        closed(t[holding], env.system_program),
                        destination,
                        lamports_credited(t[destination], t[holding].lamports),
                    ),
                )
            } else {
                None
            }
        },
        CallModel::CloseRecord { record, destination } => {
            if two_of(t, record, destination) && can_close_record(
                t[record],
                t[destination],
                env.program_id,
            ) {
                Some(
                    with_two(
                        t,
                        record,
                        closed(t[record], env.system_program),
                        destination,
                        lamports_credited(t[destination], t[record].lamports),
                    ),
                )
            } else {
                None
            }
        },
        CallModel::WithdrawOwned { from, to, amount } => {
            if two_of(t, from, to) && t[from].owner == env.program_id && can_move_lamports(
                t[from],
                t[to],
                amount,
            ) {
                Some(
                    with_two(
                        t,
                        from,
                        lamports_debited(t[from], amount),
                        to,
                        lamports_credited(t[to], amount),
                    ),
                )
            } else {
                None
            }
        },
    }
}

/// What the calls from `from` on leave of the accounts when they are
/// carried out in order, or `None` where one of them is refused.
pub open spec fn ran(
    env: Environment,
    t: Seq<AccountState>,
    calls: Seq<CallModel>,
    from: int,
) -> Option<Seq<AccountState>>
    decreases calls.len() - from,
{
    if from < 0 || from >= calls.len() {
        Some(t)
    } else {
        match applied(env, t, calls[from]) {
            Some(next) => ran(env, next, calls, from + 1),
            None => None,
        }
    }
}

/// Puts two changed accounts back into the list.
fn put_two(accounts: &mut Vec<Account>, i: usize, a: Account, j: usize, b: Account)
    requires
        i < old(accounts).len(),
        j < old(accounts).len(),
    ensures
        final(accounts).deep_view() == with_two(
            old(accounts).deep_view(),
            i as int,
            a@,
            j as int,
            b@,
        ),
{
    accounts[i] = a;
    accounts[j] = b;
}

/// Writes `data` over the data of an account of the program.
pub fn overwrite(target: &mut Account, data: &Vec<u8>, env: &Environment) -> (r: Result<
    (),
    CustodyError,
>)
    ensures
        r is Ok <==> can_write(old(target)@, data@, env.program_id),
        r is Ok ==> final(target)@ == (AccountState { data: data@, ..old(target)@ }),
        r is Err ==> r == Err::<(), CustodyError>(CustodyError::TransferFailed) && final(target)@
            == old(target)@,
{
    if !target.is_writable || !target.owner.same(&env.program_id) || target.data.len()
        != data.len() {
        return Err(CustodyError::TransferFailed);
    }
    let copy = data.clone();
    target.data = copy;
    Ok(())
}

fn apply_create_storage(
    env: &Environment,
    accounts: &mut Vec<Account>,
    payer: usize,
    target: usize,
    deposit: u64,
    size: usize,
    owner: &Address,
    seeds: &Option<Vec<Vec<u8>>>,
) -> (r: Result<(), CustodyError>)
    ensures
        outcome_is(
            r,
            old(accounts).deep_view(),
            final(accounts).deep_view(),
            applied(
                *env,
                old(accounts).deep_view(),
                (CallModel::CreateStorage {
                    payer: payer as int,
                    target: target as int,
                    deposit: deposit,
                    size: size as nat,
                    owner: *owner,
                    signer_seeds: match *seeds {
                        Some(s) => Some(seed_bytes(s@)),
                        None => None,
                    },
                }),
            ),
        ),
{
    let n: usize = accounts.len();
    if payer >= n || target >= n || payer == target {
        return Err(CustodyError::TransferFailed);
    }
    let mut a = accounts[payer].duplicate();
    let mut b = accounts[target].duplicate();
    let done = match seeds {
        Some(s) => create_storage(&mut a, &mut b, deposit, size, owner, Some(s), &env.program_id),
        None => create_storage(&mut a, &mut b, deposit, size, owner, None, &env.program_id),
    };
    match done {
        Ok(()) => {
            put_two(accounts, payer, a, target, b);
            Ok(())
        },
        Err(e) => Err(e),
    }
}

fn apply_create_holding(
    env: &Environment,
    accounts: &mut Vec<Account>,
    payer: usize,
    holding: usize,
    holder: usize,
    asset: usize,
) -> (r: Result<(), CustodyError>)
    ensures
        outcome_is(
            r,
            old(accounts).deep_view(),
            final(accounts).deep_view(),
            applied(
                *env,
                old(accounts).deep_view(),
                (CallModel::CreateAssociatedHolding {
                    payer: payer as int,
                    holding: holding as int,
                    holder: holder as int,
                    asset: asset as int,
                }),
            ),
        ),
{
    let n: usize = accounts.len();
    if payer >= n || holding >= n || payer == holding || holder >= n || asset >= n {
        return Err(CustodyError::TransferFailed);
    }
    let mut a = accounts[payer].duplicate();
    let mut b = accounts[holding].duplicate();
    match create_associated_holding(
        &mut a,
        &mut b,
        &accounts[holder].address,
        &accounts[asset].address,
        env,
    ) {
        Ok(()) => {
            put_two(accounts, payer, a, holding, b);
            Ok(())
        },
        Err(e) => Err(e),
    }
}

fn apply_write(env: &Environment, accounts: &mut Vec<Account>, target: usize, data: &Vec<u8>) -> (r:
    Result<(), CustodyError>)
    ensures
        outcome_is(
            r,
            old(accounts).deep_view(),
            final(accounts).deep_view(),
            applied(
                *env,
                old(accounts).deep_view(),
                (CallModel::Write { target: target as int, data: data@ }),
            ),
        ),
{
    if target >= accounts.len() {
        return Err(CustodyError::TransferFailed);
    }
    let mut a = accounts[target].duplicate();
    match overwrite(&mut a, data, env) {
        Ok(()) => {
            accounts[target] = a;
            assert(accounts.deep_view() =~= old(accounts).deep_view().update(target as int, a@));
            Ok(())
        },
        Err(e) => Err(e),
    }
}

fn apply_transfer(
    env: &Environment,
    accounts: &mut Vec<Account>,
    from: usize,
    to: usize,
    amount: u64,
    seeds: Option<&Vec<Vec<u8>>>,
) -> (r: Result<(), CustodyError>)
    ensures
        outcome_is(
            r,
            old(accounts).deep_view(),
            final(accounts).deep_view(),
            applied(
                *env,
                old(accounts).deep_view(),
                match seeds {
                    Some(s) => CallModel::TransferSigned {
                        from: from as int,
                        to: to as int,
                        amount: amount,
                        seeds: seed_bytes(s@),
                    },
                    None => CallModel::Transfer {
                        from: from as int,
                        to: to as int,
                        amount: amount,
                    },
                },
            ),
        ),
{
    let n: usize = accounts.len();
    if from >= n || to >= n || from == to {
        return Err(CustodyError::TransferFailed);
    }
    let mut a = accounts[from].duplicate();
    let mut b = accounts[to].duplicate();
    let done = match seeds {
        Some(s) => transfer_signed(&mut a, &mut b, amount, s, &env.program_id),
        None => transfer(&mut a, &mut b, amount),
    };
    match done {
        Ok(()) => {
            put_two(accounts, from, a, to, b);
            Ok(())
        },
        Err(e) => Err(e),
    }
}

fn apply_transfer_tokens(
    env: &Environment,
    accounts: &mut Vec<Account>,
    from: usize,
    to: usize,
    authority: usize,
    amount: u64,
    seeds: Option<&Vec<Vec<u8>>>,
) -> (r: Result<(), CustodyError>)
    ensures
        outcome_is(
            r,
            old(accounts).deep_view(),
            final(accounts).deep_view(),
            applied(
                *env,
                old(accounts).deep_view(),
                match seeds {
                    Some(s) => CallModel::TransferTokensSigned {
                        from: from as int,
                        to: to as int,
                        authority: authority as int,
                        amount: amount,
                        seeds: seed_bytes(s@),
                    },
                    None => CallModel::TransferTokens {
                        from: from as int,
                        to: to as int,
                        authority: authority as int,
                        amount: amount,
                    },
                },
            ),
        ),
{
    let n: usize = accounts.len();
    if from >= n || to >= n || from == to || authority >= n {
        return Err(CustodyError::TransferFailed);
    }
    let mut a = accounts[from].duplicate();
    let mut b = accounts[to].duplicate();
    let done = match seeds {
        Some(s) => transfer_tokens_signed(
            &mut a,
            &mut b,
            &accounts[authority].address,
            amount,
            s,
            &env.program_id,
        ),
        None => transfer_tokens(&mut a, &mut b, &accounts[authority], amount),
    };
    match done {
        Ok(()) => {
            put_two(accounts, from, a, to, b);
            Ok(())
        },
        Err(e) => Err(e),
    }
}

fn apply_close_holding(
    env: &Environment,
    accounts: &mut Vec<Account>,
    holding: usize,
    destination: usize,
    authority: usize,
    seeds: &Vec<Vec<u8>>,
) -> (r: Result<(), CustodyError>)
    ensures
        outcome_is(
            r,
            old(accounts).deep_view(),
            final(accounts).deep_view(),
            applied(
                *env,
                old(accounts).deep_view(),
                (CallModel::CloseHolding {
                    holding: holding as int,
                    destination: destination as int,
                    authority: authority as int,
                    seeds: seed_bytes(seeds@),
                }),
            ),
        ),
{
    let n: usize = accounts.len();
    if holding >= n || destination >= n || holding == destination || authority >= n {
        return Err(CustodyError::TransferFailed);
    }
    let mut a = accounts[holding].duplicate();
    let mut b = accounts[destination].duplicate();
    match close_holding(&mut a, &mut b, &accounts[authority].address, seeds, env) {
        Ok(()) => {
            put_two(accounts, holding, a, destination, b);
            Ok(())
        },
        Err(e) => Err(e),
    }
}

fn apply_close_record(
    env: &Environment,
    accounts: &mut Vec<Account>,
    record: usize,
    destination: usize,
) -> (r: Result<(), CustodyError>)
    ensures
        outcome_is(
            r,
            old(accounts).deep_view(),
            final(accounts).deep_view(),
            applied(
                *env,
                old(accounts).deep_view(),
                (CallModel::CloseRecord { record: record as int, destination: destination as int }),
            ),
        ),
{
    let n: usize = accounts.len();
    if record >= n || destination >= n || record == destination {
        return Err(CustodyError::TransferFailed);
    }
    let mut a = accounts[record].duplicate();
    let mut b = accounts[destination].duplicate();
    match close_record(&mut a, &mut b, env) {
        Ok(()) => {
            put_two(accounts, record, a, destination, b);
            Ok(())
        },
        Err(e) => Err(e),
    }
}

fn apply_withdraw_owned(
    env: &Environment,
    accounts: &mut Vec<Account>,
    from: usize,
    to: usize,
    amount: u64,
) -> (r: Result<(), CustodyError>)
    ensures
        outcome_is(
            r,
            old(accounts).deep_view(),
            final(accounts).deep_view(),
            applied(
                *env,
                old(accounts).deep_view(),
                (CallModel::WithdrawOwned { from: from as int, to: to as int, amount: amount }),
            ),
        ),
{
    let n: usize = accounts.len();
    if from >= n || to >= n || from == to {
        return Err(CustodyError::TransferFailed);
    }
    let mut a = accounts[from].duplicate();
    let mut b = accounts[to].duplicate();
    match withdraw_owned(&mut a, &mut b, amount, &env.program_id) {
        Ok(()) => {
            put_two(accounts, from, a, to, b);
            Ok(())
        },
        Err(e) => Err(e),
    }
}

/// Whether `r` and the list after are what a call or a run of calls leaves:
/// where the calls are carried out, the list they leave; where one is
/// refused, `TransferFailed` and the list as it was.
pub open spec fn outcome_is(
    r: Result<(), CustodyError>,
    before: Seq<AccountState>,
    after: Seq<AccountState>,
    left: Option<Seq<AccountState>>,
) -> bool {
    match left {
        Some(t) => r is Ok && after == t,
        None => r == Err::<(), CustodyError>(CustodyError::TransferFailed) && after == before,
    }
}

/// Carries out one call on the account list. A call that is refused changes
/// nothing.
pub fn apply(env: &Environment, accounts: &mut Vec<Account>, call: &Call) -> (r: Result<
    (),
    CustodyError,
>)
    ensures
        outcome_is(
            r,
            old(accounts).deep_view(),
            final(accounts).deep_view(),
            applied(*env, old(accounts).deep_view(), call@),
        ),
{
    match call {
        Call::CreateStorage { payer, target, deposit, size, owner, signer_seeds } => {
            apply_create_storage(
                env,
                accounts,
                *payer,
                *target,
                *deposit,
                *size,
                owner,
                signer_seeds,
            )
        },
        Call::CreateAssociatedHolding { payer, holding, holder, asset } => {
            apply_create_holding(env, accounts, *payer, *holding, *holder, *asset)
        },
        Call::Write { target, data } => apply_write(env, accounts, *target, data),
        Call::Transfer { from, to, amount } => apply_transfer(
            env,
            accounts,
            *from,
            *to,
            *amount,
            None,
        ),
        Call::TransferSigned { from, to, amount, seeds } => apply_transfer(
            env,
            accounts,
            *from,
            *to,
            *amount,
            Some(seeds),
        ),
        Call::TransferTokens { from, to, authority, amount } => apply_transfer_tokens(
            env,
            accounts,
            *from,
            *to,
            *authority,
            *amount,
            None,
        ),
        Call::TransferTokensSigned { from, to, authority, amount, seeds } => {
            apply_transfer_tokens(env, accounts, *from, *to, *authority, *amount, Some(seeds))
        },
        Call::CloseHolding { holding, destination, authority, seeds } => apply_close_holding(
            env,
            accounts,
            *holding,
            *destination,
            *authority,
            seeds,
        ),
        Call::CloseRecord { record, destination } => apply_close_record(
            env,
            accounts,
            *record,
            *destination,
        ),
        Call::WithdrawOwned { from, to, amount } => apply_withdraw_owned(
            env,
            accounts,
            *from,
            *to,
            *amount,
        ),
    }
}

/// A copy of the account list.
pub fn copy_of(accounts: &Vec<Account>) -> (r: Vec<Account>)
    ensures
        r.deep_view() == accounts.deep_view(),
{
    let mut out: Vec<Account> = Vec::new();
    let mut i: usize = 0;
    while i < accounts.len()
        invariant
            i <= accounts.len(),
            out.len() == i,
            forall|j: int| 0 <= j < i ==> out@[j]@ == accounts@[j]@,
        decreases accounts.len() - i,
    {
        out.push(accounts[i].duplicate());
        i = i + 1;
    }
    out
}

/// Carries out the calls on the account list, in order. Where one of them is
/// refused, the list is left as it was.
pub fn run(env: &Environment, accounts: &mut Vec<Account>, calls: &Vec<Call>) -> (r: Result<
    (),
    CustodyError,
>)
    ensures
        outcome_is(
            r,
            old(accounts).deep_view(),
            final(accounts).deep_view(),
            ran(*env, old(accounts).deep_view(), calls.deep_view(), 0),
        ),
{
    let before = copy_of(accounts);
    let mut i: usize = 0;
    while i < calls.len()
        invariant
            i <= calls.len(),
            before.deep_view() == old(accounts).deep_view(),
            ran(*env, old(accounts).deep_view(), calls.deep_view(), 0) == ran(
                *env,
                accounts.deep_view(),
                calls.deep_view(),
                i as int,
            ),
        decreases calls.len() - i,
    {
        match apply(env, accounts, &calls[i]) {
            Ok(()) => {},
            Err(e) => {
                *accounts = before;
                return Err(e);
            },
        }
        i = i + 1;
    }
    Ok(())
}

} // verus!
