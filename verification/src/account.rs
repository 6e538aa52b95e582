//! The accounts that an invocation is given, as plain values.

use vstd::prelude::*;
use crate::address::Address;

verus! {

/// One account as the program sees it during an invocation.
#[derive(Clone, Debug, PartialEq, Eq)]
pub struct Account {
    /// Where the account lives.
    pub address: Address,
    /// The program that owns the account and may change its data.
    pub owner: Address,
    /// Whether the account signed the transaction.
    pub is_signer: bool,
    /// Whether the invocation may change the account.
    pub is_writable: bool,
    /// The native value the account holds, its storage deposit included.
    pub lamports: u64,
    /// The units of its asset that the account holds, where it is an asset
    /// holding; zero otherwise.
    pub tokens: u64,
    /// The bytes stored in the account.
    pub data: Vec<u8>,
}

/// The mathematical value of an `Account`.
pub struct AccountState {
    pub address: Address,
    pub owner: Address,
    pub is_signer: bool,
    pub is_writable: bool,
    pub lamports: u64,
    pub tokens: u64,
    pub data: Seq<u8>,
}

impl View for Account {
    type V = AccountState;

    open spec fn view(&self) -> AccountState {
        AccountState {
            address: self.address,
            owner: self.owner,
            is_signer: self.is_signer,
            is_writable: self.is_writable,
            lamports: self.lamports,
            tokens: self.tokens,
            data: self.data@,
        }
    }
}

impl DeepView for Account {
    type V = AccountState;

    open spec fn deep_view(&self) -> AccountState {
        self@
    }
}

/// The addresses and charges that the surrounding ledger fixes for a program.
#[derive(Clone, Copy, Debug, PartialEq, Eq)]
pub struct Environment {
    /// The identity of this program; derived addresses are derived for it.
    pub program_id: Address,
    /// The program that creates accounts and moves native value.
    pub system_program: Address,
    /// The program that moves asset units between holdings.
    pub token_program: Address,
    /// The program that creates asset holdings at their derived addresses.
    pub associated_token_program: Address,
    /// The storage deposit for a custody record.
    pub record_deposit: u64,
    /// The storage deposit for an asset holding.
    pub holding_deposit: u64,
}

/// `n` zero bytes.
pub open spec fn zeros(n: nat) -> Seq<u8> {
    Seq::new(n, |i: int| 0u8)
}

/// A buffer of `n` zero bytes.
pub fn zeroed(n: usize) -> (r: Vec<u8>)
    ensures
        r@ == zeros(n as nat),
{
    let mut out: Vec<u8> = Vec::new();
    let mut i: usize = 0;
    while i < n
        invariant
            i <= n,
            out@ == zeros(i as nat),
        decreases n - i,
    {
        out.push(0u8);
        i = i + 1;
    }
    out
}

impl Account {
    /// The address of the account.
    pub fn address(&self) -> (r: &Address)
        ensures
            *r == self.address,
    {
        &self.address
    }

    /// Whether the account signed the transaction.
    pub fn is_signer(&self) -> (r: bool)
        ensures
            r == self.is_signer,
    {
        self.is_signer
    }

    /// Whether the invocation may change the account.
    pub fn is_writable(&self) -> (r: bool)
        ensures
            r == self.is_writable,
    {
        self.is_writable
    }

    /// Whether `program` owns the account.
    pub fn owned_by(&self, program: &Address) -> (r: bool)
        ensures
            r == (self.owner == *program),
    {
        self.owner.same(program)
    }

    /// The native value the account holds.
    pub fn lamports(&self) -> (r: u64)
        ensures
            r == self.lamports,
    {
        self.lamports
    }

    /// The number of bytes stored in the account.
    pub fn data_len(&self) -> (r: usize)
        ensures
            r == self.data@.len(),
    {
        self.data.len()
    }

    /// Whether the account stores no bytes.
    pub fn is_data_empty(&self) -> (r: bool)
        ensures
            r == (self.data@.len() == 0),
    {
        self.data.len() == 0
    }

    /// A copy of the account.
    pub fn duplicate(&self) -> (r: Account)
        ensures
            r@ == self@,
    {
        let data = self.data.clone();
        Account {
            address: self.address,
            owner: self.owner,
            is_signer: self.is_signer,
            is_writable: self.is_writable,
            lamports: self.lamports,
            tokens: self.tokens,
            data,
        }
    }
}

impl Default for Account {
    /// An account at the all-zero address that holds nothing, may not be
    /// changed and has not signed.
    fn default() -> (r: Account)
        ensures
            r.address.bytes@ == zeros(32),
            r.owner.bytes@ == zeros(32),
            !r.is_signer,
            !r.is_writable,
            r.lamports == 0,
            r.tokens == 0,
            r.data@ == Seq::<u8>::empty(),
    {
        let nowhere = Address { bytes: [0u8; 32] };
        Account {
            address: nowhere,
            owner: nowhere,
            is_signer: false,
            is_writable: false,
            lamports: 0,
            tokens: 0,
            data: Vec::new(),
        }
    }
}

/// Whether no address occurs twice among the accounts.
pub open spec fn distinct_addresses(accounts: Seq<AccountState>) -> bool {
    forall|i: int, j: int|
        0 <= i < j < accounts.len() ==> accounts[i].address != accounts[j].address
}

/// Whether each account of the list is supplied once only.
pub fn all_distinct(accounts: &Vec<Account>) -> (r: bool)
    ensures
        r == distinct_addresses(accounts.deep_view()),
{
    let mut j: usize = 0;
    while j < accounts.len()
        invariant
            j <= accounts.len(),
            forall|a: int, b: int|
                0 <= a < b < j ==> accounts.deep_view()[a].address
                    != accounts.deep_view()[b].address,
        decreases accounts.len() - j,
    {
        let mut i: usize = 0;
        while i < j
            invariant
                i <= j,
                j < accounts.len(),
                forall|a: int|
                    0 <= a < i ==> accounts.deep_view()[a].address
                        != accounts.deep_view()[j as int].address,
            decreases j - i,
        {
            if accounts[i].address.same(&accounts[j].address) {
                assert(accounts.deep_view()[i as int].address
                    == accounts.deep_view()[j as int].address);
                return false;
            }
            i = i + 1;
        }
        j = j + 1;
    }
    true
}

} // verus!
