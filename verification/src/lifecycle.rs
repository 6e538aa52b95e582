//! What holds of a custody record over its life: between `make` and the
//! `take` or `refund` that ends it.

use vstd::prelude::*;
use crate::account::{Account, AccountState, distinct_addresses, Environment};
use crate::codec::{MAKE_PARAMS_LEN, u64_at};
use crate::error::CustodyError;
use crate::escrow::{make_transition, refund_transition, take_transition};
use crate::helpers::MINT_MIN_LEN;
use crate::ledger::{holding_in, HOLDING_LEN, tokens_credited, tokens_debited};
use crate::make;
use crate::make::{
    escrow_found, make_accounts_schema, make_effect, make_feasible, make_record,
    make_record_schema, make_verdict, MakeInstructionData,
};
use crate::record::{Escrow, ESCROW_DISCRIMINATOR, ESCROW_LEN, record_address};
use crate::refund;
use crate::refund::{refund_accounts_schema, refund_record_schema, refund_verdict};
use crate::schema::{
    first_violation, lemma_rules_accept, lemma_signature_comes_first, lemma_validate_accepts, Pin,
    rules_spec, validate_spec, violation,
};
use crate::take;
use crate::take::{take_accounts_schema, take_record_schema};

verus! {

/// Where a custody record stands in its life.
#[derive(Clone, Copy, Debug, PartialEq, Eq)]
pub enum RecordState {
    /// Nothing is stored at the address: the record was never made, or it
    /// was closed and its storage freed.
    Absent,
    /// A record of this program is stored at the address.
    Active,
    /// Something else is stored at the address.
    Foreign,
}

/// Where the record at an account stands in its life.
pub open spec fn record_state(env: Environment, account: AccountState) -> RecordState {
    if account.data.len() == 0 {
        RecordState::Absent
    } else if account.owner == env.program_id && Escrow::is_record(account.data) {
        RecordState::Active
    } else {
        RecordState::Foreign
    }
}

/// Where the record at an account stands in its life.
pub fn state_of(env: &Environment, account: &Account) -> (r: RecordState)
    ensures
        r == record_state(*env, account@),
{
    if account.is_data_empty() {
        RecordState::Absent
    } else if account.owned_by(&env.program_id) && account.data_len() == ESCROW_LEN
        && account.data[0] == ESCROW_DISCRIMINATOR {
        RecordState::Active
    } else {
        RecordState::Foreign
    }
}

/// `take` takes a record from active to absent.
proof fn lemma_take_ends(
    env: Environment,
    params: Seq<u8>,
    before: Seq<AccountState>,
    after: Seq<AccountState>,
)
    requires
        take_transition(env, params, before) == Ok::<Seq<AccountState>, CustodyError>(after),
    ensures
        record_state(env, before[take::ESCROW as int]) == RecordState::Active,
        record_state(env, after[take::ESCROW as int]) == RecordState::Absent,
{
    lemma_rules_accept(before, take_accounts_schema(env));
}

/// `refund` takes a record from active to absent.
proof fn lemma_refund_ends(
    env: Environment,
    params: Seq<u8>,
    before: Seq<AccountState>,
    after: Seq<AccountState>,
)
    requires
        refund_transition(env, params, before) == Ok::<Seq<AccountState>, CustodyError>(after),
    ensures
        record_state(env, before[refund::ESCROW as int]) == RecordState::Active,
        record_state(env, after[refund::ESCROW as int]) == RecordState::Absent,
{
    lemma_rules_accept(before, refund_accounts_schema(env));
}

/// The life of a record: `make` takes it from absent to active, and `take`
/// and `refund` take it from active to absent. No operation succeeds on a
/// record in another state.
pub proof fn lemma_record_life(
    env: Environment,
    params: Seq<u8>,
    before: Seq<AccountState>,
    after: Seq<AccountState>,
)
    ensures
        make_transition(env, params, before) == Ok::<Seq<AccountState>, CustodyError>(after)
            ==> record_state(env, before[make::ESCROW as int]) == RecordState::Absent
            && record_state(env, after[make::ESCROW as int]) == RecordState::Active,
        take_transition(env, params, before) == Ok::<Seq<AccountState>, CustodyError>(after)
            ==> record_state(env, before[take::ESCROW as int]) == RecordState::Active
            && record_state(env, after[take::ESCROW as int]) == RecordState::Absent,
        refund_transition(env, params, before) == Ok::<Seq<AccountState>, CustodyError>(after)
            ==> record_state(env, before[refund::ESCROW as int]) == RecordState::Active
            && record_state(env, after[refund::ESCROW as int]) == RecordState::Absent,
{
    if make_transition(env, params, before) == Ok::<Seq<AccountState>, CustodyError>(after) {
        lemma_make_locks_the_offer(env, params, before, after);
    }
    if take_transition(env, params, before) == Ok::<Seq<AccountState>, CustodyError>(after) {
        lemma_take_ends(env, params, before, after);
    }
    if refund_transition(env, params, before) == Ok::<Seq<AccountState>, CustodyError>(after) {
        lemma_refund_ends(env, params, before, after);
    }
}

/// After every `make` that succeeds, the vault holds exactly the offered
/// amount, which is not zero, and the record holds the agreement: the seed,
/// the maker, the two asset types as they were supplied, the requested
/// amount, and the bump of the record's address.
pub proof fn lemma_make_locks_the_offer(
    env: Environment,
    params: Seq<u8>,
    before: Seq<AccountState>,
    after: Seq<AccountState>,
)
    requires
        make_transition(env, params, before) == Ok::<Seq<AccountState>, CustodyError>(after),
    ensures
        MakeInstructionData::parse(params) is Ok,
        ({
            let ix = MakeInstructionData::parse(params)->Ok_0;
            let written = Escrow::unpack_spec(after[make::ESCROW as int].data);
            &&& ix.amount > 0
            &&& after[make::VAULT as int].tokens == ix.amount
            &&& after[make::MAKER_ATA_A as int].tokens == before[make::MAKER_ATA_A as int].tokens
                - ix.amount
            &&& Escrow::is_record(after[make::ESCROW as int].data)
            &&& written.seed == ix.seed
            &&& written.maker == before[make::MAKER as int].address
            &&& written.asset_a == before[make::MINT_A as int].address
            &&& written.asset_b == before[make::MINT_B as int].address
            &&& written.requested_amount == ix.receive
            &&& escrow_found(env, before, ix.seed) == Some(
                (before[make::ESCROW as int].address, written.bump),
            )
        }),
{
    let (ix, bump) = make_verdict(env, params, before)->Ok_0;
    make_record(before, ix, bump).lemma_unpack_pack();
    let pins = make_record_schema(
        make::escrow_pin(env, before, ix.seed),
        make::vault_pin(env, before, ix.seed),
    );
    lemma_rules_accept(before, pins);
}

/// A `make` that offers nothing is refused with `InvalidAmount`, whatever
/// the accounts are.
pub proof fn lemma_make_refuses_an_empty_offer(
    env: Environment,
    params: Seq<u8>,
    t: Seq<AccountState>,
)
    requires
        params.len() == MAKE_PARAMS_LEN,
        u64_at(params, 16) == 0,
    ensures
        make_transition(env, params, t) == Err::<Seq<AccountState>, CustodyError>(
            CustodyError::InvalidAmount,
        ),
{
}

/// A record account that already holds data is refused by `make`, where it
/// lives at the address that `make` expects.
proof fn lemma_occupied_record_is_refused(t: Seq<AccountState>, escrow: Pin, vault: Pin)
    requires
        t.len() == make::MAKE_ACCOUNTS_LEN,
        escrow == Pin::At(t[make::ESCROW as int].address),
        t[make::ESCROW as int].data.len() != 0,
    ensures
        rules_spec(t, make_record_schema(escrow, vault)) == Err::<(), CustodyError>(
            CustodyError::AlreadyInitialized,
        ),
{
    reveal_with_fuel(first_violation, 3);
}

/// A second `make` for the same maker and the same seed is refused with
/// `AlreadyInitialized`: once a `make` has succeeded, every later `make`
/// whose parameters and accounts are otherwise in order, and which is given
/// the record account as the first one left it, is refused.
pub proof fn lemma_make_twice_is_refused(
    env: Environment,
    params: Seq<u8>,
    before: Seq<AccountState>,
    after: Seq<AccountState>,
    again: Seq<u8>,
    later: Seq<AccountState>,
)
    requires
        make_transition(env, params, before) == Ok::<Seq<AccountState>, CustodyError>(after),
        MakeInstructionData::parse(again) is Ok,
        MakeInstructionData::parse(again)->Ok_0.seed == MakeInstructionData::parse(
            params,
        )->Ok_0.seed,
        rules_spec(later, make_accounts_schema(env, later)) is Ok,
        later[make::MAKER as int].address == before[make::MAKER as int].address,
        later[make::ESCROW as int] == after[make::ESCROW as int],
    ensures
        make_transition(env, again, later) == Err::<Seq<AccountState>, CustodyError>(
            CustodyError::AlreadyInitialized,
        ),
{
    lemma_make_locks_the_offer(env, params, before, after);
    let seed = MakeInstructionData::parse(params)->Ok_0.seed;
    lemma_occupied_record_is_refused(
        later,
        make::escrow_pin(env, later, seed),
        make::vault_pin(env, later, seed),
    );
}

/// `take` leaves nothing at the address of the record: no data and no
/// value.
pub proof fn lemma_take_closes_the_record(
    env: Environment,
    params: Seq<u8>,
    before: Seq<AccountState>,
    after: Seq<AccountState>,
)
    requires
        take_transition(env, params, before) == Ok::<Seq<AccountState>, CustodyError>(after),
    ensures
        after[take::ESCROW as int].data.len() == 0,
        after[take::ESCROW as int].lamports == 0,
        after[take::ESCROW as int].address == before[take::ESCROW as int].address,
        after[take::VAULT as int].tokens == 0,
{
}

/// `refund` leaves nothing at the address of the record: no data and no
/// value.
pub proof fn lemma_refund_closes_the_record(
    env: Environment,
    params: Seq<u8>,
    before: Seq<AccountState>,
    after: Seq<AccountState>,
)
    requires
        refund_transition(env, params, before) == Ok::<Seq<AccountState>, CustodyError>(after),
    ensures
        after[refund::ESCROW as int].data.len() == 0,
        after[refund::ESCROW as int].lamports == 0,
        after[refund::ESCROW as int].address == before[refund::ESCROW as int].address,
        after[refund::VAULT as int].tokens == 0,
{
}

/// Why an operation that needs a record is refused where the record
/// account holds no data: a malformed instruction, a wrong number of
/// accounts and a missing signature are reported first, in this order; and
/// where none of them is the case, the answer is `Uninitialized`.
pub open spec fn refusal_without_record(
    params: Seq<u8>,
    t: Seq<AccountState>,
    len: int,
    signer: int,
) -> CustodyError {
    if params.len() != 0 {
        CustodyError::InvalidInstructionData
    } else if t.len() != len {
        CustodyError::NotEnoughAccounts
    } else if !t[signer].is_signer {
        CustodyError::MissingSignature
    } else {
        CustodyError::Uninitialized
    }
}

/// A `take` on a record account that holds no data never succeeds, whatever
/// the parameters and the other accounts are; it is refused as
/// `refusal_without_record` says.
pub proof fn lemma_take_needs_a_record(env: Environment, params: Seq<u8>, t: Seq<AccountState>)
    requires
        t.len() == take::TAKE_ACCOUNTS_LEN ==> t[take::ESCROW as int].data.len() == 0,
    ensures
        take_transition(env, params, t) == Err::<Seq<AccountState>, CustodyError>(
            refusal_without_record(params, t, take::TAKE_ACCOUNTS_LEN as int, take::TAKER as int),
        ),
{
    reveal_with_fuel(first_violation, 4);
}

/// A `refund` on a record account that holds no data never succeeds,
/// whatever the parameters and the other accounts are; it is refused as
/// `refusal_without_record` says.
pub proof fn lemma_refund_needs_a_record(env: Environment, params: Seq<u8>, t: Seq<AccountState>)
    requires
        t.len() == refund::REFUND_ACCOUNTS_LEN ==> t[refund::ESCROW as int].data.len() == 0,
    ensures
        refund_transition(env, params, t) == Err::<Seq<AccountState>, CustodyError>(
            refusal_without_record(
                params,
                t,
                refund::REFUND_ACCOUNTS_LEN as int,
                refund::MAKER as int,
            ),
        ),
{
    reveal_with_fuel(first_violation, 3);
}

/// After a `take`, the record is gone: every later `take` and every later
/// `refund` that is given the record account as the `take` left it is
/// refused, whatever its parameters and its other accounts are. It is
/// refused with `Uninitialized`, unless its instruction is malformed, its
/// accounts are of the wrong number, or the signature is missing, which are
/// reported first.
pub proof fn lemma_nothing_follows_a_take(
    env: Environment,
    params: Seq<u8>,
    before: Seq<AccountState>,
    after: Seq<AccountState>,
    later_params: Seq<u8>,
    later_take: Seq<AccountState>,
    later_refund: Seq<AccountState>,
)
    requires
        take_transition(env, params, before) == Ok::<Seq<AccountState>, CustodyError>(after),
        later_take.len() == take::TAKE_ACCOUNTS_LEN ==> later_take[take::ESCROW as int]
            == after[take::ESCROW as int],
        later_refund.len() == refund::REFUND_ACCOUNTS_LEN ==> later_refund[refund::ESCROW as int]
            == after[take::ESCROW as int],
    ensures
        take_transition(env, later_params, later_take) == Err::<Seq<AccountState>, CustodyError>(
            refusal_without_record(
                later_params,
                later_take,
                take::TAKE_ACCOUNTS_LEN as int,
                take::TAKER as int,
            ),
        ),
        refund_transition(env, later_params, later_refund) == Err::<
            Seq<AccountState>,
            CustodyError,
        >(
            refusal_without_record(
                later_params,
                later_refund,
                refund::REFUND_ACCOUNTS_LEN as int,
                refund::MAKER as int,
            ),
        ),
{
    lemma_take_closes_the_record(env, params, before, after);
    lemma_take_needs_a_record(env, later_params, later_take);
    lemma_refund_needs_a_record(env, later_params, later_refund);
}

/// After a `refund`, the record is gone: every later `take` and every later
/// `refund` that is given the record account as the `refund` left it is
/// refused, whatever its parameters and its other accounts are. It is
/// refused with `Uninitialized`, unless its instruction is malformed, its
/// accounts are of the wrong number, or the signature is missing, which are
/// reported first.
pub proof fn lemma_nothing_follows_a_refund(
    env: Environment,
    params: Seq<u8>,
    before: Seq<AccountState>,
    after: Seq<AccountState>,
    later_params: Seq<u8>,
    later_take: Seq<AccountState>,
    later_refund: Seq<AccountState>,
)
    requires
        refund_transition(env, params, before) == Ok::<Seq<AccountState>, CustodyError>(after),
        later_take.len() == take::TAKE_ACCOUNTS_LEN ==> later_take[take::ESCROW as int]
            == after[refund::ESCROW as int],
        later_refund.len() == refund::REFUND_ACCOUNTS_LEN ==> later_refund[refund::ESCROW as int]
            == after[refund::ESCROW as int],
    ensures
        take_transition(env, later_params, later_take) == Err::<Seq<AccountState>, CustodyError>(
            refusal_without_record(
                later_params,
                later_take,
                take::TAKE_ACCOUNTS_LEN as int,
                take::TAKER as int,
            ),
        ),
        refund_transition(env, later_params, later_refund) == Err::<
            Seq<AccountState>,
            CustodyError,
        >(
            refusal_without_record(
                later_params,
                later_refund,
                refund::REFUND_ACCOUNTS_LEN as int,
                refund::MAKER as int,
            ),
        ),
{
    lemma_refund_closes_the_record(env, params, before, after);
    lemma_take_needs_a_record(env, later_params, later_take);
    lemma_refund_needs_a_record(env, later_params, later_refund);
}

/// An exchange of an asset for itself is refused: a `make` whose offered
/// and requested asset types are one account is answered with
/// `AddressMismatch`, where nothing else is wrong with its parameters and
/// with the requirements of its accounts.
pub proof fn lemma_make_needs_two_assets(env: Environment, params: Seq<u8>, t: Seq<AccountState>)
    requires
        MakeInstructionData::parse(params) is Ok,
        rules_spec(t, make_accounts_schema(env, t)) is Ok,
        rules_spec(
            t,
            make_record_schema(
                make::escrow_pin(env, t, MakeInstructionData::parse(params)->Ok_0.seed),
                make::vault_pin(env, t, MakeInstructionData::parse(params)->Ok_0.seed),
            ),
        ) is Ok,
        !make::two_assets(t),
    ensures
        make_transition(env, params, t) == Err::<Seq<AccountState>, CustodyError>(
            CustodyError::AddressMismatch,
        ),
{
}

/// A `make` whose maker has not signed is refused with `MissingSignature`,
/// whatever else is wrong with its nine accounts, where its parameters are
/// in order.
pub proof fn lemma_make_needs_the_maker(env: Environment, params: Seq<u8>, t: Seq<AccountState>)
    requires
        MakeInstructionData::parse(params) is Ok,
        t.len() == make::MAKE_ACCOUNTS_LEN,
        !t[make::MAKER as int].is_signer,
    ensures
        make_transition(env, params, t) == Err::<Seq<AccountState>, CustodyError>(
            CustodyError::MissingSignature,
        ),
{
    lemma_signature_comes_first(t, make_accounts_schema(env, t));
}

/// A `take` that follows a `make` settles the agreement that the `make`
/// recorded: the taker pays the amount that the maker asked for, the maker
/// receives it, the taker receives the amount that the maker offered,
/// nothing is left in the vault or at the address of the record, and the
/// maker has both storage deposits back.
pub proof fn lemma_take_settles_the_make(
    env: Environment,
    params: Seq<u8>,
    before: Seq<AccountState>,
    after: Seq<AccountState>,
    later: Seq<AccountState>,
    end: Seq<AccountState>,
)
    requires
        make_transition(env, params, before) == Ok::<Seq<AccountState>, CustodyError>(after),
        later.len() == take::TAKE_ACCOUNTS_LEN,
        later[take::ESCROW as int] == after[make::ESCROW as int],
        later[take::VAULT as int] == after[make::VAULT as int],
        take_transition(env, Seq::empty(), later) == Ok::<Seq<AccountState>, CustodyError>(end),
    ensures
        MakeInstructionData::parse(params) is Ok,
        ({
            let ix = MakeInstructionData::parse(params)->Ok_0;
            &&& end[take::TAKER_ATA_B as int].tokens == later[take::TAKER_ATA_B as int].tokens
                - ix.receive
            &&& end[take::MAKER_ATA_B as int].tokens == later[take::MAKER_ATA_B as int].tokens
                + ix.receive
            &&& end[take::TAKER_ATA_A as int].tokens == later[take::TAKER_ATA_A as int].tokens
                + ix.amount
        }),
        end[take::VAULT as int].tokens == 0,
        end[take::ESCROW as int].data.len() == 0,
        end[take::MAKER as int].lamports == later[take::MAKER as int].lamports
            + env.record_deposit + env.holding_deposit,
        later[take::MAKER as int].address == before[make::MAKER as int].address,
        later[take::TAKER as int].is_signer,
{
    lemma_make_locks_the_offer(env, params, before, after);
    lemma_make_accepted(env, params, before, after);
    let (ix, bump) = make_verdict(env, params, before)->Ok_0;
    lemma_make_leaves(env, before, ix, bump);
    lemma_take_pays_both_sides(env, Seq::empty(), later, end);
    lemma_take_closes_the_record(env, Seq::empty(), later, end);
    lemma_rules_accept(later, take_accounts_schema(env));
    let record = Escrow::unpack_spec(later[take::ESCROW as int].data);
    lemma_validate_accepts(later, take_record_schema(env, later, record));
    assert(violation(
        later[take::MAKER as int],
        take_record_schema(env, later, record)[take::MAKER as int],
    ) is None);
    assert(violation(
        later[take::TAKER as int],
        take_accounts_schema(env)[take::TAKER as int],
    ) is None);
}

/// `take` pays both sides: the taker's holding of the requested asset loses
/// the requested amount and the maker's gains it, the taker's holding of
/// the offered asset gains everything the vault held, the vault and the
/// record are left empty, and the maker has both storage deposits. No other
/// account changes.
pub proof fn lemma_take_pays_both_sides(
    env: Environment,
    params: Seq<u8>,
    before: Seq<AccountState>,
    after: Seq<AccountState>,
)
    requires
        take_transition(env, params, before) == Ok::<Seq<AccountState>, CustodyError>(after),
    ensures
        after.len() == before.len(),
        ({
            let asked = Escrow::unpack_spec(before[take::ESCROW as int].data).requested_amount;
            &&& after[take::TAKER_ATA_B as int].tokens == before[take::TAKER_ATA_B as int].tokens
                - asked
            &&& after[take::MAKER_ATA_B as int].tokens == before[take::MAKER_ATA_B as int].tokens
                + asked
        }),
        after[take::TAKER_ATA_A as int].tokens == before[take::TAKER_ATA_A as int].tokens
            + before[take::VAULT as int].tokens,
        after[take::VAULT as int].tokens == 0,
        after[take::VAULT as int].lamports == 0,
        after[take::MAKER as int].lamports == before[take::MAKER as int].lamports
            + before[take::VAULT as int].lamports + before[take::ESCROW as int].lamports,
        forall|i: int|
            0 <= i < before.len() && i != take::MAKER && i != take::ESCROW && i != take::VAULT
                && i != take::TAKER_ATA_A && i != take::TAKER_ATA_B && i != take::MAKER_ATA_B
                ==> after[i] == before[i],
{
}

/// A `take` whose offered asset type is not the one the record names is
/// refused with `AddressMismatch`, whatever the other pinned accounts are.
pub proof fn lemma_take_rejects_another_asset(
    env: Environment,
    params: Seq<u8>,
    t: Seq<AccountState>,
)
    requires
        params.len() == 0,
        rules_spec(t, take_accounts_schema(env)) is Ok,
        t[take::MINT_A as int].address != Escrow::unpack_spec(
            t[take::ESCROW as int].data,
        ).asset_a,
    ensures
        take_transition(env, params, t) == Err::<Seq<AccountState>, CustodyError>(
            CustodyError::AddressMismatch,
        ),
{
    reveal_with_fuel(first_violation, 5);
}

/// `refund` returns everything the vault holds to the maker's holding, and
/// the two storage deposits to the maker. It changes the maker, the record,
/// the vault and the maker's holding, and no other account: whatever else
/// is supplied, and every holding that is not supplied, stays as it was.
pub proof fn lemma_refund_returns_the_vault(
    env: Environment,
    params: Seq<u8>,
    before: Seq<AccountState>,
    after: Seq<AccountState>,
)
    requires
        refund_transition(env, params, before) == Ok::<Seq<AccountState>, CustodyError>(after),
    ensures
        after.len() == before.len(),
        after[refund::MAKER_ATA_A as int].tokens == before[refund::MAKER_ATA_A as int].tokens
            + before[refund::VAULT as int].tokens,
        after[refund::MAKER as int].lamports == before[refund::MAKER as int].lamports
            + before[refund::VAULT as int].lamports + before[refund::ESCROW as int].lamports,
        after[refund::MAKER as int].tokens == before[refund::MAKER as int].tokens,
        forall|i: int|
            0 <= i < before.len() && i != refund::MAKER && i != refund::ESCROW && i
                != refund::VAULT && i != refund::MAKER_ATA_A ==> after[i] == before[i],
{
}

/// The account list of the `refund` that follows a `make`: the accounts of
/// the `make`, as it left them, in the order in which `refund` takes them.
pub open spec fn refund_accounts_after_make(after: Seq<AccountState>) -> Seq<AccountState> {
    seq![
        after[make::MAKER as int],
        after[make::ESCROW as int],
        after[make::MINT_A as int],
        after[make::VAULT as int],
        after[make::MAKER_ATA_A as int],
        after[make::ASSOCIATED_TOKEN_PROGRAM as int],
        after[make::TOKEN_PROGRAM as int],
        after[make::SYSTEM_PROGRAM as int],
    ]
}

/// What is known of the accounts of a `make` that succeeded.
proof fn lemma_make_accepted(
    env: Environment,
    params: Seq<u8>,
    before: Seq<AccountState>,
    after: Seq<AccountState>,
)
    requires
        make_transition(env, params, before) == Ok::<Seq<AccountState>, CustodyError>(after),
    ensures
        make_verdict(env, params, before) is Ok,
        ({
            let (ix, bump) = make_verdict(env, params, before)->Ok_0;
            &&& make_feasible(env, before, ix, bump)
            &&& after == make_effect(env, before, ix, bump)
        }),
        before.len() == make::MAKE_ACCOUNTS_LEN,
        distinct_addresses(before),
        before[make::MAKER as int].is_signer,
        before[make::MINT_A as int].data.len() >= MINT_MIN_LEN,
        before[make::MINT_A as int].owner == env.token_program,
        before[make::MAKER_ATA_A as int].data.len() >= HOLDING_LEN,
        before[make::MAKER_ATA_A as int].owner == env.token_program,
        holding_in(
            env,
            before[make::MAKER as int].address,
            before[make::MINT_A as int].address,
        ) == Some(before[make::MAKER_ATA_A as int].address),
        before[make::SYSTEM_PROGRAM as int].address == env.system_program,
        before[make::TOKEN_PROGRAM as int].address == env.token_program,
        before[make::ASSOCIATED_TOKEN_PROGRAM as int].address == env.associated_token_program,
{
    lemma_rules_accept(before, make_accounts_schema(env, before));
}

/// The accounts of a `make` that succeeded are, in the order of `refund`,
/// different accounts.
proof fn lemma_refund_list_is_distinct(before: Seq<AccountState>, after: Seq<AccountState>)
    requires
        before.len() == make::MAKE_ACCOUNTS_LEN,
        after.len() == make::MAKE_ACCOUNTS_LEN,
        distinct_addresses(before),
        forall|i: int| 0 <= i < 9 ==> after[i].address == before[i].address,
    ensures
        distinct_addresses(refund_accounts_after_make(after)),
{
    let list = refund_accounts_after_make(after);
    let from = seq![0int, 1, 2, 5, 4, 8, 7, 6];
    assert forall|i: int, j: int| 0 <= i < j < list.len() implies list[i].address
        != list[j].address by {
        assert(list[i].address == before[from[i]].address);
        assert(list[j].address == before[from[j]].address);
        assert(from[i] != from[j]);
        if from[i] < from[j] {
            assert(before[from[i]].address != before[from[j]].address);
        } else {
            assert(before[from[j]].address != before[from[i]].address);
        }
    }
}

/// What a `make` that succeeded leaves in each account.
proof fn lemma_make_leaves(
    env: Environment,
    before: Seq<AccountState>,
    ix: MakeInstructionData,
    bump: u8,
)
    requires
        before.len() == make::MAKE_ACCOUNTS_LEN,
    ensures
        ({
            let after = make_effect(env, before, ix, bump);
            &&& after.len() == make::MAKE_ACCOUNTS_LEN
            &&& after[0] == make::maker_after_make(env, before[0])
            &&& after[1] == make::escrow_after_make(env, before, ix, bump)
            &&& after[2] == before[2]
            &&& after[3] == before[3]
            &&& after[4] == tokens_debited(before[4], ix.amount)
            &&& after[5] == tokens_credited(
                make::vault_created(env, before[5]),
                ix.amount,
            )
            &&& after[6] == before[6]
            &&& after[7] == before[7]
            &&& after[8] == before[8]
        }),
{
}

/// A list of eight accounts of the right kinds has the shape that
/// `refund` asks for.
proof fn lemma_refund_shape(env: Environment, list: Seq<AccountState>, record: Escrow)
    requires
        list.len() == refund::REFUND_ACCOUNTS_LEN,
        list[0].is_signer,
        list[1].data == record.pack_spec(),
        list[1].owner == env.program_id,
        list[2].data.len() >= MINT_MIN_LEN,
        list[2].owner == env.token_program,
        list[3].data.len() >= HOLDING_LEN,
        list[3].owner == env.token_program,
        list[4].data.len() >= HOLDING_LEN,
        list[4].owner == env.token_program,
        list[5].address == env.associated_token_program,
        list[6].address == env.token_program,
        list[7].address == env.system_program,
    ensures
        rules_spec(list, refund_accounts_schema(env)) is Ok,
        Escrow::unpack_spec(list[1].data) == record,
{
    record.lemma_unpack_pack();
    lemma_rules_accept(list, refund_accounts_schema(env));
}

/// A list whose accounts live where the record says meets the pins that
/// `refund` asks for.
proof fn lemma_refund_pins(env: Environment, list: Seq<AccountState>, record: Escrow)
    requires
        list.len() == refund::REFUND_ACCOUNTS_LEN,
        distinct_addresses(list),
        list[0].address == record.maker,
        record_address(env, record) == Some(list[1].address),
        list[2].address == record.asset_a,
        holding_in(env, list[1].address, record.asset_a) == Some(list[3].address),
        holding_in(env, record.maker, record.asset_a) == Some(list[4].address),
    ensures
        validate_spec(list, refund_record_schema(env, list, record)) is Ok,
{
    lemma_validate_accepts(list, refund_record_schema(env, list, record));
}

/// A `refund` that follows a `make` is accepted, for the record that the
/// `make` wrote.
proof fn lemma_refund_after_make_is_accepted(
    env: Environment,
    params: Seq<u8>,
    before: Seq<AccountState>,
    after: Seq<AccountState>,
)
    requires
        make_transition(env, params, before) == Ok::<Seq<AccountState>, CustodyError>(after),
    ensures
        refund_verdict(env, Seq::empty(), refund_accounts_after_make(after)) == Ok::<
            Escrow,
            CustodyError,
        >(
            make_record(
                before,
                make_verdict(env, params, before)->Ok_0.0,
                make_verdict(env, params, before)->Ok_0.1,
            ),
        ),
{
    lemma_make_accepted(env, params, before, after);
    let (ix, bump) = make_verdict(env, params, before)->Ok_0;
    lemma_make_leaves(env, before, ix, bump);
    lemma_refund_list_is_distinct(before, after);
    let record = make_record(before, ix, bump);
    let list = refund_accounts_after_make(after);
    lemma_refund_shape(env, list, record);
    lemma_refund_pins(env, list, record);
}

/// A `refund` that follows a `make` is always carried out, and undoes it:
/// the maker's holding has the full offered amount back, the maker has the
/// storage deposits back, and nothing is left in the vault or at the
/// address of the record.
pub proof fn lemma_refund_undoes_make(
    env: Environment,
    params: Seq<u8>,
    before: Seq<AccountState>,
    after: Seq<AccountState>,
)
    requires
        make_transition(env, params, before) == Ok::<Seq<AccountState>, CustodyError>(after),
    ensures
        refund_transition(env, Seq::empty(), refund_accounts_after_make(after)) is Ok,
        ({
            let end = refund_transition(
                env,
                Seq::empty(),
                refund_accounts_after_make(after),
            )->Ok_0;
            &&& end[refund::MAKER_ATA_A as int].tokens == before[make::MAKER_ATA_A as int].tokens
            &&& end[refund::MAKER as int].lamports == before[make::MAKER as int].lamports
            &&& end[refund::VAULT as int].tokens == 0
            &&& end[refund::ESCROW as int].data.len() == 0
        }),
{
    lemma_refund_after_make_is_accepted(env, params, before, after);
}

} // verus!
