//! The escrow program: decoding, dispatch and the state of a custody
//! record from its creation to its end.
//!
//! A record is absent, then active, then closed. `make` creates it; exactly
//! one of `take` and `refund` consumes it. Each invocation either carries
//! out its whole transition or leaves every account as it was.

use vstd::prelude::*;
use vstd::slice::slice_subrange;
use crate::account::{Account, AccountState, Environment};
use crate::calls::run;
use crate::codec::{decode_escrow, decode_escrow_spec, EscrowInstruction};
use crate::error::CustodyError;
use crate::make::{
    lemma_make_plan_runs, Make, make_accounts_schema, make_effect, make_feasible, make_verdict,
    MakeInstructionData,
};
use crate::refund::{
    lemma_refund_plan_runs, Refund, refund_accounts_schema, refund_effect, refund_feasible,
    refund_verdict,
};
use crate::schema::lemma_rules_accept;
use crate::take::{
    lemma_take_plan_runs, Take, take_accounts_schema, take_effect, take_feasible, take_verdict,
};

verus! {

/// What `make` with the given parameter bytes does to the accounts, or why
/// it is rejected.
pub open spec fn make_transition(env: Environment, params: Seq<u8>, t: Seq<AccountState>) -> Result<
    Seq<AccountState>,
    CustodyError,
> {
    match make_verdict(env, params, t) {
        Err(e) => Err(e),
        Ok((ix, bump)) => if make_feasible(env, t, ix, bump) {
            Ok(make_effect(env, t, ix, bump))
        } else {
            Err(CustodyError::TransferFailed)
        },
    }
}

/// What `take` does to the accounts, or why it is rejected.
pub open spec fn take_transition(env: Environment, params: Seq<u8>, t: Seq<AccountState>) -> Result<
    Seq<AccountState>,
    CustodyError,
> {
    match take_verdict(env, params, t) {
        Err(e) => Err(e),
        Ok(record) => if take_feasible(env, t, record) {
            Ok(take_effect(env, t, record))
        } else {
            Err(CustodyError::TransferFailed)
        },
    }
}

/// What `refund` does to the accounts, or why it is rejected.
pub open spec fn refund_transition(
    env: Environment,
    params: Seq<u8>,
    t: Seq<AccountState>,
) -> Result<Seq<AccountState>, CustodyError> {
    match refund_verdict(env, params, t) {
        Err(e) => Err(e),
        Ok(record) => if refund_feasible(env, t, record) {
            Ok(refund_effect(env, t))
        } else {
            Err(CustodyError::TransferFailed)
        },
    }
}

/// What an invocation of the escrow program does to the accounts, or why it
/// is rejected: the instruction is decoded, and the operation it names is
/// validated and carried out.
pub open spec fn escrow_transition(env: Environment, t: Seq<AccountState>, data: Seq<u8>) -> Result<
    Seq<AccountState>,
    CustodyError,
> {
    match decode_escrow_spec(data) {
        Err(e) => Err(e),
        Ok(EscrowInstruction::Make { .. }) => make_transition(
            env,
            data.subrange(1, data.len() as int),
            t,
        ),
        Ok(EscrowInstruction::Take) => take_transition(env, data.subrange(1, data.len() as int), t),
        Ok(EscrowInstruction::Refund) => refund_transition(
            env,
            data.subrange(1, data.len() as int),
            t,
        ),
    }
}

/// Validates and carries out `make` on an account list.
pub fn make(env: &Environment, accounts: &mut Vec<Account>, params: &[u8]) -> (r: Result<
    (),
    CustodyError,
>)
    ensures
        match make_transition(*env, params@, old(accounts).deep_view()) {
            Ok(t) => r is Ok && final(accounts).deep_view() == t,
            Err(e) => r == Err::<(), CustodyError>(e)
                && final(accounts).deep_view() == old(accounts).deep_view(),
        },
{
    let validated = match Make::try_from(env, params, accounts) {
        Ok(m) => m,
        Err(e) => {
            return Err(e);
        },
    };
    let calls = validated.plan(env);
    proof {
        lemma_make_plan_runs(
            *env,
            validated.accounts.table(),
            validated.instruction_data,
            validated.bump,
        );
    }
    run(env, accounts, &calls)
}

/// Validates and carries out `take` on an account list.
pub fn take(env: &Environment, accounts: &mut Vec<Account>, params: &[u8]) -> (r: Result<
    (),
    CustodyError,
>)
    ensures
        match take_transition(*env, params@, old(accounts).deep_view()) {
            Ok(t) => r is Ok && final(accounts).deep_view() == t,
            Err(e) => r == Err::<(), CustodyError>(e)
                && final(accounts).deep_view() == old(accounts).deep_view(),
        },
{
    let validated = match Take::try_from(env, params, accounts) {
        Ok(m) => m,
        Err(e) => {
            return Err(e);
        },
    };
    let calls = validated.plan(env);
    proof {
        lemma_take_plan_runs(*env, validated.accounts.table(), validated.escrow);
    }
    run(env, accounts, &calls)
}

/// Validates and carries out `refund` on an account list.
pub fn refund(env: &Environment, accounts: &mut Vec<Account>, params: &[u8]) -> (r: Result<
    (),
    CustodyError,
>)
    ensures
        match refund_transition(*env, params@, old(accounts).deep_view()) {
            Ok(t) => r is Ok && final(accounts).deep_view() == t,
            Err(e) => r == Err::<(), CustodyError>(e)
                && final(accounts).deep_view() == old(accounts).deep_view(),
        },
{
    let validated = match Refund::try_from(env, params, accounts) {
        Ok(m) => m,
        Err(e) => {
            return Err(e);
        },
    };
    let calls = validated.plan(env);
    proof {
        lemma_refund_plan_runs(*env, validated.accounts.table(), validated.escrow);
    }
    run(env, accounts, &calls)
}

/// Runs one invocation of the escrow program: decodes the instruction and
/// hands it to the operation it names. On success the account list holds
/// the accounts as the operation left them; on failure it is unchanged.
pub fn process_instruction(
    env: &Environment,
    accounts: &mut Vec<Account>,
    instruction_data: &[u8],
) -> (r: Result<(), CustodyError>)
    ensures
        match escrow_transition(*env, old(accounts).deep_view(), instruction_data@) {
            Ok(t) => r is Ok && final(accounts).deep_view() == t,
            Err(e) => r == Err::<(), CustodyError>(e)
                && final(accounts).deep_view() == old(accounts).deep_view(),
        },
{
    let instruction = match decode_escrow(instruction_data) {
        Ok(i) => i,
        Err(e) => {
            return Err(e);
        },
    };
    let params = slice_subrange(instruction_data, 1, instruction_data.len());
    match instruction {
        EscrowInstruction::Make { .. } => make(env, accounts, params),
        EscrowInstruction::Take => take(env, accounts, params),
        EscrowInstruction::Refund => refund(env, accounts, params),
    }
}

/// The decoder and `make` read the same parameters: where an instruction
/// decodes to a `make`, the parameters that `make` reads from the bytes
/// after the discriminator are the decoded ones, unless nothing is offered.
pub proof fn lemma_make_reads_what_was_decoded(data: Seq<u8>)
    requires
        decode_escrow_spec(data) is Ok,
        decode_escrow_spec(data)->Ok_0 is Make,
    ensures
        ({
            let params = data.subrange(1, data.len() as int);
            let decoded = decode_escrow_spec(data)->Ok_0;
            if decoded->amount == 0 {
                MakeInstructionData::parse(params) == Err::<MakeInstructionData, CustodyError>(
                    CustodyError::InvalidAmount,
                )
            } else {
                MakeInstructionData::parse(params) == Ok::<MakeInstructionData, CustodyError>(
                    MakeInstructionData {
                        seed: decoded->seed,
                        receive: decoded->receive,
                        amount: decoded->amount,
                    },
                )
            }
        }),
{
}

/// An invocation that is carried out keeps the number of accounts: the
/// escrow program never adds or drops an account.
pub proof fn lemma_escrow_keeps_the_list(env: Environment, t: Seq<AccountState>, data: Seq<u8>)
    ensures
        escrow_transition(env, t, data) matches Ok(after) ==> after.len() == t.len(),
{
    lemma_rules_accept(t, make_accounts_schema(env, t));
    lemma_rules_accept(t, take_accounts_schema(env));
    lemma_rules_accept(t, refund_accounts_schema(env));
}

} // verus!
