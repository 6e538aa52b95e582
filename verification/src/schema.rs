//! Validation of an account list against the schema of an operation.
//!
//! A schema lists, in order, what the operation requires of each account:
//! its role, where it has to live, what it has to hold and who has to own
//! it. Validation changes nothing. It reports the first requirement that is
//! not met, going through the accounts in order. Where every requirement is
//! met, it refuses a list that supplies one account under two roles: the
//! operations change their accounts by place, and two places that are one
//! account would come apart.

use vstd::prelude::*;
use crate::account::{Account, AccountState, all_distinct, distinct_addresses};
use crate::address::Address;
use crate::error::CustodyError;
use crate::record::{Escrow, ESCROW_DISCRIMINATOR, ESCROW_LEN};

verus! {

/// The part an account plays in an operation.
#[derive(Clone, Copy, Debug, PartialEq, Eq)]
pub enum Role {
    /// The account authorizes the operation: it has to have signed.
    Signer,
    /// The operation changes the account. The ledger refuses the change
    /// where the account was not passed as writable.
    Writable,
    /// The operation only reads the account.
    ReadOnly,
    /// The account names a program that the operation calls.
    ProgramRef,
}

/// Where an account has to live.
#[derive(Clone, Copy, Debug, PartialEq, Eq)]
pub enum Pin {
    /// Any address will do.
    Anywhere,
    /// The account has to live at this address.
    At(Address),
    /// No address will do: the expected address could not be derived.
    Nowhere,
}

/// What an account has to hold.
#[derive(Clone, Copy, Debug, PartialEq, Eq)]
pub enum Content {
    /// Anything.
    Any,
    /// No data: the account is about to be created.
    Vacant,
    /// A custody record.
    Record,
    /// At least this many bytes.
    AtLeast(usize),
}

/// What an operation requires of one account.
#[derive(Clone, Copy, Debug, PartialEq, Eq)]
pub struct Requirement {
    pub role: Role,
    pub pin: Pin,
    pub content: Content,
    pub owner: Option<Address>,
}

/// The rule about its address that the account breaks, if any.
pub open spec fn pin_violation(a: AccountState, req: Requirement) -> Option<CustodyError> {
    let met = match req.pin {
        Pin::Anywhere => true,
        Pin::At(expected) => a.address == expected,
        Pin::Nowhere => false,
    };
    if met {
        None
    } else if req.role == Role::ProgramRef {
        Some(CustodyError::WrongProgram)
    } else {
        Some(CustodyError::AddressMismatch)
    }
}

/// The rule about its data and its owner that the account breaks, if any.
pub open spec fn content_violation(a: AccountState, req: Requirement) -> Option<CustodyError> {
    if req.content == Content::Vacant && a.data.len() != 0 {
        Some(CustodyError::AlreadyInitialized)
    } else if req.content == Content::Record && a.data.len() == 0 {
        Some(CustodyError::Uninitialized)
    } else if req.owner is Some && req.owner->Some_0 != a.owner {
        Some(CustodyError::WrongOwner)
    } else if req.content == Content::Record && !Escrow::is_record(a.data) {
        Some(CustodyError::WrongLayout)
    } else if req.content matches Content::AtLeast(n) && a.data.len() < n {
        Some(CustodyError::WrongLayout)
    } else {
        None
    }
}

/// The first rule that the account breaks, if any: the signature comes
/// first, then the address, then the data and the owner.
pub open spec fn violation(a: AccountState, req: Requirement) -> Option<CustodyError> {
    if req.role == Role::Signer && !a.is_signer {
        Some(CustodyError::MissingSignature)
    } else if pin_violation(a, req) is Some {
        pin_violation(a, req)
    } else {
        content_violation(a, req)
    }
}

/// The violation of the first account, from `from` on, that breaks a rule.
pub open spec fn first_violation(
    accounts: Seq<AccountState>,
    schema: Seq<Requirement>,
    from: int,
) -> Option<CustodyError>
    decreases accounts.len() - from,
{
    if from < 0 || from >= accounts.len() {
        None
    } else if violation(accounts[from], schema[from]) is Some {
        violation(accounts[from], schema[from])
    } else {
        first_violation(accounts, schema, from + 1)
    }
}

/// What holding a list to the rules of a schema answers: the list has to
/// be exactly as long as the schema, and then the accounts are held to
/// their requirements in order.
pub open spec fn rules_spec(accounts: Seq<AccountState>, schema: Seq<Requirement>) -> Result<
    (),
    CustodyError,
> {
    if accounts.len() != schema.len() {
        Err(CustodyError::NotEnoughAccounts)
    } else {
        match first_violation(accounts, schema, 0) {
            Some(e) => Err(e),
            None => Ok(()),
        }
    }
}

/// What validation answers.
///
/// The list has to be exactly as long as the schema; then the accounts are
/// held to their requirements in order; and last, where every account
/// meets its requirement, no account may be supplied twice.
pub open spec fn validate_spec(accounts: Seq<AccountState>, schema: Seq<Requirement>) -> Result<
    (),
    CustodyError,
> {
    match rules_spec(accounts, schema) {
        Err(e) => Err(e),
        Ok(_) => if distinct_addresses(accounts) {
            Ok(())
        } else {
            Err(CustodyError::AddressMismatch)
        },
    }
}

/// No account from `from` on breaks a rule exactly where the search finds
/// no violation.
pub proof fn lemma_first_violation_none(
    accounts: Seq<AccountState>,
    schema: Seq<Requirement>,
    from: int,
)
    requires
        0 <= from,
    ensures
        first_violation(accounts, schema, from) is None <==> (forall|i: int|
            from <= i < accounts.len() ==> violation(accounts[i], schema[i]) is None),
    decreases accounts.len() - from,
{
    if from < accounts.len() {
        lemma_first_violation_none(accounts, schema, from + 1);
        if first_violation(accounts, schema, from) is None {
            assert forall|i: int| from <= i < accounts.len() implies violation(
                accounts[i],
                schema[i],
            ) is None by {
                if i > from {
                }
            }
        }
    }
}

/// A list meets the rules of a schema exactly where it has the length of
/// the schema and every account meets its requirement.
pub proof fn lemma_rules_accept(accounts: Seq<AccountState>, schema: Seq<Requirement>)
    ensures
        rules_spec(accounts, schema) is Ok <==> accounts.len() == schema.len() && (forall|i: int|
            0 <= i < accounts.len() ==> violation(accounts[i], schema[i]) is None),
{
    lemma_first_violation_none(accounts, schema, 0);
}

/// Validation accepts a list exactly where it has the length of the schema,
/// every account meets its requirement, and no account is supplied twice.
pub proof fn lemma_validate_accepts(accounts: Seq<AccountState>, schema: Seq<Requirement>)
    ensures
        validate_spec(accounts, schema) is Ok <==> accounts.len() == schema.len()
            && distinct_addresses(accounts) && (forall|i: int|
            0 <= i < accounts.len() ==> violation(accounts[i], schema[i]) is None),
{
    lemma_first_violation_none(accounts, schema, 0);
}

/// A missing signature is reported before anything else about the accounts:
/// where the list has the length of the schema, the first account has to
/// sign and has not, validation answers `MissingSignature`, whatever else
/// is wrong with the list.
pub proof fn lemma_signature_comes_first(accounts: Seq<AccountState>, schema: Seq<Requirement>)
    requires
        accounts.len() == schema.len(),
        accounts.len() > 0,
        schema[0].role == Role::Signer,
        !accounts[0].is_signer,
    ensures
        rules_spec(accounts, schema) == Err::<(), CustodyError>(CustodyError::MissingSignature),
        validate_spec(accounts, schema) == Err::<(), CustodyError>(
            CustodyError::MissingSignature,
        ),
{
}

/// What holding one account to its requirement answers: the first rule
/// that the account breaks, if it breaks one.
pub open spec fn verdict(a: AccountState, req: Requirement) -> Result<(), CustodyError> {
    match violation(a, req) {
        Some(e) => Err(e),
        None => Ok(()),
    }
}

/// Holds one account to its requirement.
pub fn check_account(account: &Account, req: &Requirement) -> (r: Result<(), CustodyError>)
    ensures
        r == verdict(account@, *req),
{
    if matches!(req.role, Role::Signer) && !account.is_signer {
        return Err(CustodyError::MissingSignature);
    }
    let at_home = match req.pin {
        Pin::Anywhere => true,
        Pin::At(expected) => account.address.same(&expected),
        Pin::Nowhere => false,
    };
    if !at_home {
        if matches!(req.role, Role::ProgramRef) {
            return Err(CustodyError::WrongProgram);
        }
        return Err(CustodyError::AddressMismatch);
    }
    let len = account.data.len();
    if matches!(req.content, Content::Vacant) && len != 0 {
        return Err(CustodyError::AlreadyInitialized);
    }
    if matches!(req.content, Content::Record) && len == 0 {
        return Err(CustodyError::Uninitialized);
    }
    match req.owner {
        Some(owner) => {
            if !account.owner.same(&owner) {
                return Err(CustodyError::WrongOwner);
            }
        },
        None => {},
    }
    if matches!(req.content, Content::Record) && (len != ESCROW_LEN || account.data[0]
        != ESCROW_DISCRIMINATOR) {
        return Err(CustodyError::WrongLayout);
    }
    match req.content {
        Content::AtLeast(n) => {
            if len < n {
                return Err(CustodyError::WrongLayout);
            }
        },
        _ => {},
    }
    Ok(())
}

/// Holds an account list to the rules of a schema: the length, and then
/// each account's requirement in order.
pub fn hold_to(accounts: &Vec<Account>, schema: &Vec<Requirement>) -> (r: Result<(), CustodyError>)
    ensures
        r == rules_spec(accounts.deep_view(), schema@),
{
    if accounts.len() != schema.len() {
        return Err(CustodyError::NotEnoughAccounts);
    }
    let mut i: usize = accounts.len();
    let mut found: Option<CustodyError> = None;
    while i > 0
        invariant
            i <= accounts.len(),
            accounts.len() == schema.len(),
            found == first_violation(accounts.deep_view(), schema@, i as int),
        decreases i,
    {
        i = i - 1;
        match check_account(&accounts[i], &schema[i]) {
            Ok(()) => {},
            Err(e) => {
                found = Some(e);
            },
        }
    }
    match found {
        Some(e) => Err(e),
        None => Ok(()),
    }
}

/// Validates an account list against a schema: the rules of the schema
/// first, and then that no account is supplied twice.
pub fn validate(accounts: &Vec<Account>, schema: &Vec<Requirement>) -> (r: Result<(), CustodyError>)
    ensures
        r == validate_spec(accounts.deep_view(), schema@),
{
    match hold_to(accounts, schema) {
        Ok(()) => {},
        Err(e) => {
            return Err(e);
        },
    }
    if !all_distinct(accounts) {
        return Err(CustodyError::AddressMismatch);
    }
    Ok(())
}

/// A requirement that asks for nothing.
pub open spec fn anything() -> Requirement {
    Requirement { role: Role::ReadOnly, pin: Pin::Anywhere, content: Content::Any, owner: None }
}

/// A requirement that asks for nothing.
pub fn any_account() -> (r: Requirement)
    ensures
        r == anything(),
{
    Requirement { role: Role::ReadOnly, pin: Pin::Anywhere, content: Content::Any, owner: None }
}

/// The pin that an expected address stands for: where none could be
/// derived, no account can match.
pub open spec fn pin_of(expected: Option<Address>) -> Pin {
    match expected {
        Some(a) => Pin::At(a),
        None => Pin::Nowhere,
    }
}

/// The pin that an expected address stands for.
pub fn pin_to(expected: Option<Address>) -> (r: Pin)
    ensures
        r == pin_of(expected),
{
    match expected {
        Some(a) => Pin::At(a),
        None => Pin::Nowhere,
    }
}

/// A reference to the program at `address`.
pub open spec fn program_requirement(address: Address) -> Requirement {
    Requirement { role: Role::ProgramRef, pin: Pin::At(address), ..anything() }
}

/// An account at the expected address, or at none where none is expected.
pub open spec fn pinned(expected: Option<Address>) -> Requirement {
    Requirement { pin: pin_of(expected), ..anything() }
}

/// A requirement that refers to the program at `address`.
pub fn program_reference(address: Address) -> (r: Requirement)
    ensures
        r == program_requirement(address),
{
    Requirement {
        role: Role::ProgramRef,
        pin: Pin::At(address),
        content: Content::Any,
        owner: None,
    }
}

/// A requirement that pins an account to the expected address.
pub fn pinned_to(expected: Option<Address>) -> (r: Requirement)
    ensures
        r == pinned(expected),
{
    Requirement {
        role: Role::ReadOnly,
        pin: pin_to(expected),
        content: Content::Any,
        owner: None,
    }
}

} // verus!
