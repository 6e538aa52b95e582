//! The counter program: it counts its invocations in the first byte of an
//! account.

use vstd::prelude::*;
use crate::account::{Account, AccountState};

verus! {

/// The code of an invocation that counted.
pub const SUCCESS: u64 = 0;

/// The code of an invocation whose account may not be changed.
pub const ERROR_NOT_WRITABLE: u64 = 1;

/// The code of an invocation whose account holds no byte to count in.
pub const ERROR_NO_DATA: u64 = 100;

/// The count that follows `count`; after 255 it starts again at 0.
pub open spec fn next_count(count: u8) -> u8 {
    if count == 255 {
        0u8
    } else {
        (count + 1) as u8
    }
}

/// The code with which an invocation on the account ends.
pub open spec fn counter_code(account: AccountState) -> u64 {
    if !account.is_writable {
        ERROR_NOT_WRITABLE
    } else if account.data.len() == 0 {
        ERROR_NO_DATA
    } else {
        SUCCESS
    }
}

/// The account after an invocation: where the invocation succeeds, the
/// first byte has moved on by one and nothing else has changed; where it
/// fails, nothing has changed.
pub open spec fn counted(account: AccountState) -> AccountState {
    if counter_code(account) == SUCCESS {
        AccountState { data: account.data.update(0, next_count(account.data[0])), ..account }
    } else {
        account
    }
}

/// Runs one invocation of the counter on the account it is given, and
/// returns the code of the outcome.
pub fn entrypoint(account: &mut Account) -> (code: u64)
    ensures
        code == counter_code(old(account)@),
        final(account)@ == counted(old(account)@),
{
    if !account.is_writable() {
        return ERROR_NOT_WRITABLE;
    }
    if account.data.len() == 0 {
        return ERROR_NO_DATA;
    }
    let count: u8 = account.data[0];
    let next: u8 = if count == 255 {
        0
    } else {
        count + 1
    };
    account.data[0] = next;
    SUCCESS
}

/// Every invocation that succeeds changes the count: the next count is the
/// count plus one, taken modulo 256.
pub proof fn lemma_next_count_moves_on(count: u8)
    ensures
        next_count(count) != count,
        next_count(count) == (count + 1) % 256,
{
}

} // verus!
