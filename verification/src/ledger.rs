//! What the surrounding ledger does when the program calls out to it.
//!
//! The custody core does not move value itself: it asks the ledger to create
//! storage, to create asset holdings and to transfer. This module states what
//! those calls do to the accounts involved, so that the handlers built on them
//! can say what an invocation leaves behind. A call that the ledger refuses
//! changes nothing and reports `TransferFailed`.

use vstd::prelude::*;
use crate::account::{Account, AccountState, Environment, zeroed, zeros};
use crate::address::{
    Address, derive_address, derive_address_spec, program_address_of, program_address_of_spec,
    seed_bytes,
};
use crate::error::CustodyError;

verus! {

/// The size of the data of an asset holding.
pub const HOLDING_LEN: usize = 165;

/// Whether `seeds` prove that the program acts for `address`: they derive it.
pub open spec fn proves_authority(
    seeds: Seq<Seq<u8>>,
    program_id: Address,
    address: Address,
) -> bool {
    program_address_of_spec(seeds, program_id) == Some(address)
}

/// The account after `amount` of native value has left it.
pub open spec fn lamports_debited(a: AccountState, amount: u64) -> AccountState {
    AccountState { lamports: (a.lamports - amount) as u64, ..a }
}

/// The account after `amount` of native value has reached it.
pub open spec fn lamports_credited(a: AccountState, amount: u64) -> AccountState {
    AccountState { lamports: (a.lamports + amount) as u64, ..a }
}

/// The account after `amount` units of its asset have left it.
pub open spec fn tokens_debited(a: AccountState, amount: u64) -> AccountState {
    AccountState { tokens: (a.tokens - amount) as u64, ..a }
}

/// The account after `amount` units of its asset have reached it.
pub open spec fn tokens_credited(a: AccountState, amount: u64) -> AccountState {
    AccountState { tokens: (a.tokens + amount) as u64, ..a }
}

/// Whether the ledger can move `amount` of native value from one account to
/// the other: both may be changed, the source holds enough, and the
/// destination does not overflow.
pub open spec fn can_move_lamports(from: AccountState, to: AccountState, amount: u64) -> bool {
    &&& from.is_writable
    &&& to.is_writable
    &&& from.lamports >= amount
    &&& to.lamports + amount <= u64::MAX
}

/// Whether the ledger can move `amount` asset units from one holding to the
/// other.
pub open spec fn can_move_tokens(from: AccountState, to: AccountState, amount: u64) -> bool {
    &&& from.is_writable
    &&& to.is_writable
    &&& from.tokens >= amount
    &&& to.tokens + amount <= u64::MAX
}

/// An account that holds nothing: no value and no data.
pub open spec fn is_vacant(a: AccountState) -> bool {
    a.lamports == 0 && a.data.len() == 0
}

/// A closed account: it holds nothing and has gone back to the system program.
pub open spec fn closed(a: AccountState, system_program: Address) -> AccountState {
    AccountState { lamports: 0, tokens: 0, data: Seq::empty(), owner: system_program, ..a }
}

/// A newly created account: it holds its deposit and `size` zero bytes, and
/// belongs to `owner`.
pub open spec fn created(a: AccountState, deposit: u64, size: nat, owner: Address) -> AccountState {
    AccountState { lamports: deposit, tokens: 0, data: zeros(size), owner: owner, ..a }
}

fn move_lamports(from: &mut Account, to: &mut Account, amount: u64, authorized: bool) -> (r: Result<
    (),
    CustodyError,
>)
    ensures
        r is Ok <==> authorized && can_move_lamports(old(from)@, old(to)@, amount),
        r is Ok ==> final(from)@ == lamports_debited(old(from)@, amount) && final(to)@
            == lamports_credited(old(to)@, amount),
        r is Err ==> r == Err::<(), CustodyError>(CustodyError::TransferFailed) && final(from)@
            == old(from)@ && final(to)@ == old(to)@,
{
    if !authorized || !from.is_writable || !to.is_writable || from.lamports < amount
        || amount > u64::MAX - to.lamports {
        return Err(CustodyError::TransferFailed);
    }
    from.lamports = from.lamports - amount;
    to.lamports = to.lamports + amount;
    Ok(())
}

fn move_tokens(from: &mut Account, to: &mut Account, amount: u64, authorized: bool) -> (r: Result<
    (),
    CustodyError,
>)
    ensures
        r is Ok <==> authorized && can_move_tokens(old(from)@, old(to)@, amount),
        r is Ok ==> final(from)@ == tokens_debited(old(from)@, amount) && final(to)@
            == tokens_credited(old(to)@, amount),
        r is Err ==> r == Err::<(), CustodyError>(CustodyError::TransferFailed) && final(from)@
            == old(from)@ && final(to)@ == old(to)@,
{
    if !authorized || !from.is_writable || !to.is_writable || from.tokens < amount || amount
        > u64::MAX - to.tokens {
        return Err(CustodyError::TransferFailed);
    }
    from.tokens = from.tokens - amount;
    to.tokens = to.tokens + amount;
    Ok(())
}

/// Whether the seeds derive `address` for the program.
fn authority_proved(seeds: &Vec<Vec<u8>>, program_id: &Address, address: &Address) -> (r: bool)
    ensures
        r == proves_authority(seed_bytes(seeds@), *program_id, *address),
{
    match program_address_of(seeds, program_id) {
        Some(a) => a.same(address),
        None => false,
    }
}

/// Moves `amount` of native value from `from` to `to`; `from` has to have
/// signed.
pub fn transfer(from: &mut Account, to: &mut Account, amount: u64) -> (r: Result<(), CustodyError>)
    ensures
        r is Ok <==> old(from).is_signer && can_move_lamports(old(from)@, old(to)@, amount),
        r is Ok ==> final(from)@ == lamports_debited(old(from)@, amount) && final(to)@
            == lamports_credited(old(to)@, amount),
        r is Err ==> r == Err::<(), CustodyError>(CustodyError::TransferFailed) && final(from)@
            == old(from)@ && final(to)@ == old(to)@,
{
    let authorized = from.is_signer;
    move_lamports(from, to, amount, authorized)
}

/// Moves `amount` of native value from `from` to `to`, where the program
/// acts for `from`: the seeds have to derive the address of `from`.
pub fn transfer_signed(
    from: &mut Account,
    to: &mut Account,
    amount: u64,
    seeds: &Vec<Vec<u8>>,
    program_id: &Address,
) -> (r: Result<(), CustodyError>)
    ensures
        r is Ok <==> proves_authority(seed_bytes(seeds@), *program_id, old(from).address)
            && can_move_lamports(old(from)@, old(to)@, amount),
        r is Ok ==> final(from)@ == lamports_debited(old(from)@, amount) && final(to)@
            == lamports_credited(old(to)@, amount),
        r is Err ==> r == Err::<(), CustodyError>(CustodyError::TransferFailed) && final(from)@
            == old(from)@ && final(to)@ == old(to)@,
{
    let authorized = authority_proved(seeds, program_id, &from.address);
    move_lamports(from, to, amount, authorized)
}

/// Moves `amount` asset units from the holding `from` to the holding `to`;
/// `authority` has to have signed.
pub fn transfer_tokens(
    from: &mut Account,
    to: &mut Account,
    authority: &Account,
    amount: u64,
) -> (r: Result<(), CustodyError>)
    ensures
        r is Ok <==> authority.is_signer && can_move_tokens(old(from)@, old(to)@, amount),
        r is Ok ==> final(from)@ == tokens_debited(old(from)@, amount) && final(to)@
            == tokens_credited(old(to)@, amount),
        r is Err ==> r == Err::<(), CustodyError>(CustodyError::TransferFailed) && final(from)@
            == old(from)@ && final(to)@ == old(to)@,
{
    move_tokens(from, to, amount, authority.is_signer)
}

/// Moves `amount` asset units from the holding `from` to the holding `to`,
/// where the program acts for the authority over `from`: the seeds have to
/// derive the authority's address.
pub fn transfer_tokens_signed(
    from: &mut Account,
    to: &mut Account,
    authority: &Address,
    amount: u64,
    seeds: &Vec<Vec<u8>>,
    program_id: &Address,
) -> (r: Result<(), CustodyError>)
    ensures
        r is Ok <==> proves_authority(seed_bytes(seeds@), *program_id, *authority)
            && can_move_tokens(old(from)@, old(to)@, amount),
        r is Ok ==> final(from)@ == tokens_debited(old(from)@, amount) && final(to)@
            == tokens_credited(old(to)@, amount),
        r is Err ==> r == Err::<(), CustodyError>(CustodyError::TransferFailed) && final(from)@
            == old(from)@ && final(to)@ == old(to)@,
{
    let authorized = authority_proved(seeds, program_id, authority);
    move_tokens(from, to, amount, authorized)
}

/// Whether the ledger can create storage at `target` at the cost of `payer`.
pub open spec fn can_create(payer: AccountState, target: AccountState, deposit: u64) -> bool {
    &&& payer.is_signer
    &&& payer.is_writable
    &&& target.is_writable
    &&& is_vacant(target)
    &&& payer.lamports >= deposit
}

/// Whether the creation of storage at `target` is authorized: the seeds,
/// where some are given, prove that the program acts for the target;
/// where none are given, the target has signed.
pub open spec fn creation_authorized(
    target: AccountState,
    seeds: Option<Seq<Seq<u8>>>,
    program_id: Address,
) -> bool {
    match seeds {
        Some(s) => proves_authority(s, program_id, target.address),
        None => target.is_signer,
    }
}

/// The seeds of an optional authority proof as plain byte strings.
pub open spec fn proof_bytes(seeds: Option<&Vec<Vec<u8>>>) -> Option<Seq<Seq<u8>>> {
    match seeds {
        Some(s) => Some(seed_bytes(s@)),
        None => None,
    }
}

/// Allocates `size` zero bytes at `target`, owned by `owner`, and moves the
/// storage deposit from `payer` into it. The target has to have signed, or
/// the seeds have to derive its address for the program.
pub fn create_storage(
    payer: &mut Account,
    target: &mut Account,
    deposit: u64,
    size: usize,
    owner: &Address,
    seeds: Option<&Vec<Vec<u8>>>,
    program_id: &Address,
) -> (r: Result<(), CustodyError>)
    ensures
        r is Ok <==> can_create(old(payer)@, old(target)@, deposit) && creation_authorized(
            old(target)@,
            proof_bytes(seeds),
            *program_id,
        ),
        r is Ok ==> final(payer)@ == lamports_debited(old(payer)@, deposit) && final(target)@
            == created(old(target)@, deposit, size as nat, *owner),
        r is Err ==> r == Err::<(), CustodyError>(CustodyError::TransferFailed) && final(payer)@
            == old(payer)@ && final(target)@ == old(target)@,
{
    if !payer.is_signer || !payer.is_writable || !target.is_writable || target.lamports != 0
        || target.data.len() != 0 || payer.lamports < deposit {
        return Err(CustodyError::TransferFailed);
    }
    let authorized = match seeds {
        Some(s) => authority_proved(s, program_id, &target.address),
        None => target.is_signer,
    };
    if !authorized {
        return Err(CustodyError::TransferFailed);
    }
    payer.lamports = payer.lamports - deposit;
    target.lamports = deposit;
    target.tokens = 0;
    target.data = zeroed(size);
    target.owner = *owner;
    Ok(())
}

/// The seeds from which the address of an asset holding is derived: the
/// address of who holds it, the token program, and the asset type.
pub open spec fn holding_seeds_spec(holder: Address, token_program: Address, asset: Address) -> Seq<
    Seq<u8>,
> {
    seq![holder@, token_program@, asset@]
}

/// The address of the holding of `asset` for `holder`, as the program
/// `associated_token_program` derives it for holdings of `token_program`.
pub open spec fn holding_address_spec(
    token_program: Address,
    associated_token_program: Address,
    holder: Address,
    asset: Address,
) -> Option<Address> {
    match derive_address_spec(
        holding_seeds_spec(holder, token_program, asset),
        associated_token_program,
    ) {
        Some((a, _)) => Some(a),
        None => None,
    }
}

/// The seeds from which the address of an asset holding is derived.
pub fn holding_seeds(holder: &Address, token_program: &Address, asset: &Address) -> (r: Vec<
    Vec<u8>,
>)
    ensures
        seed_bytes(r@) == holding_seeds_spec(*holder, *token_program, *asset),
{
    let mut seeds: Vec<Vec<u8>> = Vec::new();
    seeds.push(holder.to_vec());
    seeds.push(token_program.to_vec());
    seeds.push(asset.to_vec());
    seeds
}

/// The address at which the holding of `asset` for `holder` lives.
pub fn holding_address(
    token_program: &Address,
    associated_token_program: &Address,
    holder: &Address,
    asset: &Address,
) -> (r: Option<Address>)
    ensures
        r == holding_address_spec(*token_program, *associated_token_program, *holder, *asset),
{
    let seeds = holding_seeds(holder, token_program, asset);
    match derive_address(&seeds, associated_token_program) {
        Some((a, _)) => Some(a),
        None => None,
    }
}

/// The address of the holding of `asset` for `holder` under the programs of
/// the environment.
pub open spec fn holding_in(env: Environment, holder: Address, asset: Address) -> Option<Address> {
    holding_address_spec(env.token_program, env.associated_token_program, holder, asset)
}

/// Creates the holding of `asset` for `holder` at its derived address, at the
/// cost of `payer`. The holding starts with no units.
pub fn create_associated_holding(
    payer: &mut Account,
    holding: &mut Account,
    holder: &Address,
    asset: &Address,
    env: &Environment,
) -> (r: Result<(), CustodyError>)
    ensures
        r is Ok <==> can_create(old(payer)@, old(holding)@, env.holding_deposit)
            && holding_in(*env, *holder, *asset) == Some(old(holding).address),
        r is Ok ==> final(payer)@ == lamports_debited(old(payer)@, env.holding_deposit)
            && final(holding)@ == created(
            old(holding)@,
            env.holding_deposit,
            HOLDING_LEN as nat,
            env.token_program,
        ),
        r is Err ==> r == Err::<(), CustodyError>(CustodyError::TransferFailed) && final(payer)@
            == old(payer)@ && final(holding)@ == old(holding)@,
{
    if !payer.is_signer || !payer.is_writable || !holding.is_writable || holding.lamports != 0
        || holding.data.len() != 0 || payer.lamports < env.holding_deposit {
        return Err(CustodyError::TransferFailed);
    }
    match holding_address(&env.token_program, &env.associated_token_program, holder, asset) {
        Some(a) => {
            if !a.same(&holding.address) {
                return Err(CustodyError::TransferFailed);
            }
        },
        None => {
            return Err(CustodyError::TransferFailed);
        },
    }
    payer.lamports = payer.lamports - env.holding_deposit;
    holding.lamports = env.holding_deposit;
    holding.tokens = 0;
    holding.data = zeroed(HOLDING_LEN);
    holding.owner = env.token_program;
    Ok(())
}

/// Whether the ledger can close `account` in favour of `destination`.
pub open spec fn can_close(account: AccountState, destination: AccountState) -> bool {
    &&& account.is_writable
    &&& destination.is_writable
    &&& account.tokens == 0
    &&& destination.lamports + account.lamports <= u64::MAX
}

/// Closes an emptied holding, where the program acts for the authority over
/// it: its storage deposit goes to `destination` and its storage is freed.
pub fn close_holding(
    holding: &mut Account,
    destination: &mut Account,
    authority: &Address,
    seeds: &Vec<Vec<u8>>,
    env: &Environment,
) -> (r: Result<(), CustodyError>)
    ensures
        r is Ok <==> proves_authority(seed_bytes(seeds@), env.program_id, *authority) && can_close(
            old(holding)@,
            old(destination)@,
        ),
        r is Ok ==> final(holding)@ == closed(old(holding)@, env.system_program)
            && final(destination)@ == lamports_credited(old(destination)@, old(holding).lamports),
        r is Err ==> r == Err::<(), CustodyError>(CustodyError::TransferFailed) && final(holding)@
            == old(holding)@ && final(destination)@ == old(destination)@,
{
    if !holding.is_writable || !destination.is_writable || holding.tokens != 0 || holding.lamports
        > u64::MAX - destination.lamports {
        return Err(CustodyError::TransferFailed);
    }
    if !authority_proved(seeds, &env.program_id, authority) {
        return Err(CustodyError::TransferFailed);
    }
    destination.lamports = destination.lamports + holding.lamports;
    holding.lamports = 0;
    holding.tokens = 0;
    holding.data = Vec::new();
    holding.owner = env.system_program;
    Ok(())
}

/// Whether the program can close `record` in favour of `destination`: it
/// owns the record, both may be changed, and the destination does not
/// overflow.
pub open spec fn can_close_record(
    record: AccountState,
    destination: AccountState,
    program_id: Address,
) -> bool {
    &&& record.is_writable
    &&& destination.is_writable
    &&& record.owner == program_id
    &&& destination.lamports + record.lamports <= u64::MAX
}

/// Closes a record of the program: its storage deposit goes to
/// `destination` and its storage is freed, so that nothing is left at its
/// address.
pub fn close_record(record: &mut Account, destination: &mut Account, env: &Environment) -> (r:
    Result<(), CustodyError>)
    ensures
        r is Ok <==> can_close_record(old(record)@, old(destination)@, env.program_id),
        r is Ok ==> final(record)@ == closed(old(record)@, env.system_program)
            && final(destination)@ == lamports_credited(old(destination)@, old(record).lamports),
        r is Err ==> r == Err::<(), CustodyError>(CustodyError::TransferFailed) && final(record)@
            == old(record)@ && final(destination)@ == old(destination)@,
{
    if !record.is_writable || !destination.is_writable || !record.owner.same(&env.program_id)
        || record.lamports > u64::MAX - destination.lamports {
        return Err(CustodyError::TransferFailed);
    }
    destination.lamports = destination.lamports + record.lamports;
    record.lamports = 0;
    record.tokens = 0;
    record.data = Vec::new();
    record.owner = env.system_program;
    Ok(())
}

/// Moves `amount` of native value out of an account that the program owns:
/// a program may take value from its own accounts without a signature.
pub fn withdraw_owned(
    from: &mut Account,
    to: &mut Account,
    amount: u64,
    program_id: &Address,
) -> (r: Result<(), CustodyError>)
    ensures
        r is Ok <==> old(from).owner == *program_id && can_move_lamports(
            old(from)@,
            old(to)@,
            amount,
        ),
        r is Ok ==> final(from)@ == lamports_debited(old(from)@, amount) && final(to)@
            == lamports_credited(old(to)@, amount),
        r is Err ==> r == Err::<(), CustodyError>(CustodyError::TransferFailed) && final(from)@
            == old(from)@ && final(to)@ == old(to)@,
{
    let authorized = from.owner.same(program_id);
    move_lamports(from, to, amount, authorized)
}

} // verus!
