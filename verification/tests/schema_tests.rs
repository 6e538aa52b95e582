use blueshift_escrow::account::{all_distinct, zeroed, Account, Environment};
use blueshift_escrow::address::Address;
use blueshift_escrow::error::CustodyError;
use blueshift_escrow::helpers::{
    holding, holding_of, mint, record_of, signer, validate_associated_token_account,
    validate_associated_token_program, validate_maker_account, validate_mint_account, validate_mint_interface,
    validate_system_program, validate_token_program,
};
use blueshift_escrow::ledger::holding_address;
use blueshift_escrow::record::Escrow;
use blueshift_escrow::schema::{
    any_account, check_account, hold_to, pin_to, pinned_to, program_reference, validate, Content,
    Pin,
    Requirement, Role,
};

fn addr(byte: u8) -> Address {
    Address::new_from_array([byte; 32])
}

fn env() -> Environment {
    Environment {
        program_id: addr(0x70),
        system_program: addr(0),
        token_program: addr(0x60),
        associated_token_program: addr(0x61),
        record_deposit: 10,
        holding_deposit: 20,
    }
}

fn account(byte: u8) -> Account {
    Account {
        address: addr(byte),
        owner: addr(0),
        is_signer: false,
        is_writable: true,
        lamports: 0,
        tokens: 0,
        data: Vec::new(),
    }
}

fn record_bytes() -> Vec<u8> {
    Escrow {
        seed: 1,
        maker: addr(1),
        asset_a: addr(2),
        asset_b: addr(3),
        requested_amount: 4,
        bump: 5,
    }
    .pack()
}

#[test]
fn a_list_that_meets_its_schema() {
    let mut first = account(1);
    first.is_signer = true;
    let mut second = account(2);
    second.data = vec![0u8; 165];
    second.owner = env().token_program;
    let accounts = vec![first, second, account(3)];
    let schema = vec![signer(), holding(&env()), program_reference(addr(3))];
    assert_eq!(validate(&accounts, &schema), Ok(()));
}

#[test]
fn a_list_that_is_too_short_or_too_long() {
    let accounts = vec![account(1), account(2)];
    assert_eq!(
        validate(&accounts, &vec![any_account()]),
        Err(CustodyError::NotEnoughAccounts)
    );
    assert_eq!(
        validate(&accounts, &vec![any_account(), any_account(), any_account()]),
        Err(CustodyError::NotEnoughAccounts)
    );
    assert_eq!(validate(&Vec::new(), &Vec::new()), Ok(()));
}

#[test]
fn a_list_that_names_an_account_twice() {
    let accounts = vec![account(1), account(2), account(1)];
    assert!(!all_distinct(&accounts));
    assert!(all_distinct(&vec![account(1), account(2), account(3)]));
    assert_eq!(
        validate(&accounts, &vec![any_account(), any_account(), any_account()]),
        Err(CustodyError::AddressMismatch)
    );
}

#[test]
fn the_first_broken_rule_is_reported() {
    let accounts = vec![account(1), account(2), account(3)];
    let schema = vec![any_account(), program_reference(addr(9)), signer()];
    assert_eq!(validate(&accounts, &schema), Err(CustodyError::WrongProgram));
    let schema = vec![signer(), program_reference(addr(9)), signer()];
    assert_eq!(validate(&accounts, &schema), Err(CustodyError::MissingSignature));
    let schema = vec![any_account(), any_account(), pinned_to(None)];
    assert_eq!(validate(&accounts, &schema), Err(CustodyError::AddressMismatch));
}

#[test]
fn rules_of_one_account_in_order() {
    let mut a = account(1);
    a.data = vec![1u8];
    let everything = Requirement {
        role: Role::Signer,
        pin: Pin::At(addr(2)),
        content: Content::Vacant,
        owner: Some(addr(9)),
    };
    assert_eq!(check_account(&a, &everything), Err(CustodyError::MissingSignature));
    a.is_signer = true;
    assert_eq!(check_account(&a, &everything), Err(CustodyError::AddressMismatch));
    a.address = addr(2);
    assert_eq!(check_account(&a, &everything), Err(CustodyError::AlreadyInitialized));
    a.data = Vec::new();
    assert_eq!(check_account(&a, &everything), Err(CustodyError::WrongOwner));
    a.owner = addr(9);
    assert_eq!(check_account(&a, &everything), Ok(()));
}

#[test]
fn rules_of_a_record_in_order() {
    let mut a = account(1);
    let requirement = record_of(&env());
    assert_eq!(check_account(&a, &requirement), Err(CustodyError::Uninitialized));
    a.data = vec![0u8; 3];
    assert_eq!(check_account(&a, &requirement), Err(CustodyError::WrongOwner));
    a.owner = env().program_id;
    assert_eq!(check_account(&a, &requirement), Err(CustodyError::WrongLayout));
    a.data = zeroed(114);
    assert_eq!(check_account(&a, &requirement), Err(CustodyError::WrongLayout));
    a.data = record_bytes();
    assert_eq!(check_account(&a, &requirement), Ok(()));
}

#[test]
fn least_sizes() {
    let mut a = account(1);
    a.data = vec![0u8; 7];
    assert_eq!(check_account(&a, &mint(&env())), Err(CustodyError::WrongOwner));
    a.owner = env().token_program;
    assert_eq!(check_account(&a, &mint(&env())), Err(CustodyError::WrongLayout));
    a.data = vec![0u8; 8];
    assert_eq!(check_account(&a, &mint(&env())), Ok(()));
    assert_eq!(check_account(&a, &holding(&env())), Err(CustodyError::WrongLayout));
    a.data = vec![0u8; 165];
    assert_eq!(check_account(&a, &holding(&env())), Ok(()));
    a.owner = env().system_program;
    assert_eq!(check_account(&a, &holding(&env())), Err(CustodyError::WrongOwner));
}

#[test]
fn pins() {
    assert_eq!(pin_to(Some(addr(1))), Pin::At(addr(1)));
    assert_eq!(pin_to(None), Pin::Nowhere);
    assert_eq!(check_account(&account(1), &pinned_to(Some(addr(1)))), Ok(()));
    assert_eq!(
        check_account(&account(1), &pinned_to(Some(addr(2)))),
        Err(CustodyError::AddressMismatch)
    );
    assert_eq!(check_account(&account(1), &pinned_to(None)), Err(CustodyError::AddressMismatch));
    assert_eq!(check_account(&account(1), &program_reference(addr(1))), Ok(()));
    assert_eq!(
        check_account(&account(1), &program_reference(addr(2))),
        Err(CustodyError::WrongProgram)
    );
}

#[test]
fn maker_has_to_sign() {
    let mut maker = account(1);
    assert_eq!(validate_maker_account(&maker), Err(CustodyError::MissingSignature));
    maker.is_signer = true;
    assert_eq!(validate_maker_account(&maker), Ok(()));
}

#[test]
fn asset_types_have_to_be_plausible() {
    let mut asset = account(1);
    assert_eq!(validate_mint_account(&asset, &env()), Err(CustodyError::WrongOwner));
    assert_eq!(validate_mint_interface(&asset, &env()), Err(CustodyError::WrongOwner));
    asset.owner = env().token_program;
    assert_eq!(validate_mint_account(&asset, &env()), Err(CustodyError::WrongLayout));
    assert_eq!(validate_mint_interface(&asset, &env()), Err(CustodyError::WrongLayout));
    asset.data = vec![0u8; 8];
    assert_eq!(validate_mint_account(&asset, &env()), Ok(()));
    assert_eq!(validate_mint_interface(&asset, &env()), Ok(()));
}

#[test]
fn holdings_have_to_live_at_their_derived_address() {
    let owner = account(1);
    let asset = account(2);
    let at = holding_address(&addr(0x60), &addr(0x61), &addr(1), &addr(2)).unwrap();
    assert_eq!(holding_of(&env(), &addr(1), &addr(2)), Some(at));
    let mut ata = account(3);
    ata.data = vec![0u8; 165];
    assert_eq!(
        validate_associated_token_account(&ata, &owner, &asset, &env()),
        Err(CustodyError::AddressMismatch)
    );
    ata.address = at;
    assert_eq!(
        validate_associated_token_account(&ata, &owner, &asset, &env()),
        Err(CustodyError::WrongOwner)
    );
    ata.owner = env().token_program;
    assert_eq!(validate_associated_token_account(&ata, &owner, &asset, &env()), Ok(()));
    assert_eq!(
        validate_associated_token_account(&ata, &asset, &owner, &env()),
        Err(CustodyError::AddressMismatch)
    );
    let mut elsewhere = env();
    elsewhere.token_program = addr(0x62);
    assert_eq!(
        validate_associated_token_account(&ata, &owner, &asset, &elsewhere),
        Err(CustodyError::AddressMismatch)
    );
    ata.data = vec![0u8; 164];
    assert_eq!(
        validate_associated_token_account(&ata, &owner, &asset, &env()),
        Err(CustodyError::WrongLayout)
    );
}

#[test]
fn programs_have_to_be_the_known_ones() {
    assert_eq!(validate_system_program(&account(0), &env()), Ok(()));
    assert_eq!(validate_system_program(&account(1), &env()), Err(CustodyError::WrongProgram));
    assert_eq!(validate_token_program(&account(0x60), &env()), Ok(()));
    assert_eq!(validate_token_program(&account(0), &env()), Err(CustodyError::WrongProgram));
    assert_eq!(validate_associated_token_program(&account(0x61), &env()), Ok(()));
    assert_eq!(
        validate_associated_token_program(&account(0x60), &env()),
        Err(CustodyError::WrongProgram)
    );
}

#[test]
fn account_getters() {
    let mut a = account(1);
    a.lamports = 7;
    a.data = vec![1, 2];
    assert_eq!(*a.address(), addr(1));
    assert!(!a.is_signer());
    assert!(a.is_writable());
    assert!(a.owned_by(&addr(0)));
    assert!(!a.owned_by(&addr(1)));
    assert_eq!(a.lamports(), 7);
    assert_eq!(a.data_len(), 2);
    assert!(!a.is_data_empty());
    assert_eq!(a.duplicate(), a);
    let blank = Account::default();
    assert_eq!(blank.address, addr(0));
    assert!(blank.is_data_empty());
    assert!(!blank.is_signer && !blank.is_writable);
    assert_eq!(zeroed(3), vec![0u8, 0, 0]);
}

#[test]
fn a_repeated_account_is_reported_last() {
    let accounts = vec![account(1), account(2), account(1)];
    assert_eq!(
        validate(&accounts, &vec![signer(), any_account(), any_account()]),
        Err(CustodyError::MissingSignature)
    );
    assert_eq!(
        validate(&accounts, &vec![any_account(), any_account(), program_reference(addr(9))]),
        Err(CustodyError::WrongProgram)
    );
    assert_eq!(
        validate(&accounts, &vec![any_account(), any_account()]),
        Err(CustodyError::NotEnoughAccounts)
    );
    assert_eq!(hold_to(&accounts, &vec![any_account(), any_account(), any_account()]), Ok(()));
    assert_eq!(
        hold_to(&accounts, &vec![any_account(), signer(), any_account()]),
        Err(CustodyError::MissingSignature)
    );
    assert_eq!(
        hold_to(&accounts, &vec![any_account()]),
        Err(CustodyError::NotEnoughAccounts)
    );
}
