use blueshift_escrow::account::{Account, Environment};
use blueshift_escrow::address::{derive_address, Address};
use blueshift_escrow::calls::{run, Call};
use blueshift_escrow::error::CustodyError;
use blueshift_escrow::escrow;
use blueshift_escrow::ledger::holding_address;
use blueshift_escrow::lifecycle::{state_of, RecordState};
use blueshift_escrow::make;
use blueshift_escrow::make::{Make, MakeAccounts, MakeInstructionData};
use blueshift_escrow::record::{escrow_seeds, Escrow};
use blueshift_escrow::refund;
use blueshift_escrow::refund::Refund;
use blueshift_escrow::take;
use blueshift_escrow::take::{Take, TakeAccounts};

const RECORD_DEPOSIT: u64 = 1_684_320;
const HOLDING_DEPOSIT: u64 = 2_039_280;

fn addr(byte: u8) -> Address {
    Address::new_from_array([byte; 32])
}

fn env() -> Environment {
    Environment {
        program_id: addr(0x70),
        system_program: addr(0),
        token_program: addr(0x60),
        associated_token_program: addr(0x61),
        record_deposit: RECORD_DEPOSIT,
        holding_deposit: HOLDING_DEPOSIT,
    }
}

fn wallet(address: Address, signer: bool, lamports: u64) -> Account {
    Account {
        address,
        owner: env().system_program,
        is_signer: signer,
        is_writable: true,
        lamports,
        tokens: 0,
        data: Vec::new(),
    }
}

fn mint(address: Address) -> Account {
    Account {
        address,
        owner: env().token_program,
        is_signer: false,
        is_writable: false,
        lamports: 1_461_600,
        tokens: 0,
        data: vec![0u8; 82],
    }
}

fn holding_at(holder: &Address, asset: &Address) -> Address {
    holding_address(&env().token_program, &env().associated_token_program, holder, asset).unwrap()
}

fn holding(holder: &Address, asset: &Address, tokens: u64) -> Account {
    Account {
        address: holding_at(holder, asset),
        owner: env().token_program,
        is_signer: false,
        is_writable: true,
        lamports: HOLDING_DEPOSIT,
        tokens,
        data: vec![0u8; 165],
    }
}

fn vacant(address: Address) -> Account {
    Account {
        address,
        owner: env().system_program,
        is_signer: false,
        is_writable: true,
        lamports: 0,
        tokens: 0,
        data: Vec::new(),
    }
}

fn program(address: Address) -> Account {
    Account {
        address,
        owner: addr(0xfe),
        is_signer: false,
        is_writable: false,
        lamports: 1,
        tokens: 0,
        data: Vec::new(),
    }
}

fn maker() -> Address {
    addr(0x11)
}

fn taker() -> Address {
    addr(0x12)
}

fn asset_a() -> Address {
    addr(0x2a)
}

fn asset_b() -> Address {
    addr(0x2b)
}

fn escrow_at(seed: u64) -> (Address, u8) {
    derive_address(&escrow_seeds(&maker(), seed), &env().program_id).unwrap()
}

fn make_accounts(seed: u64) -> Vec<Account> {
    let (record, _) = escrow_at(seed);
    vec![
        wallet(maker(), true, 10_000_000),
        vacant(record),
        mint(asset_a()),
        mint(asset_b()),
        holding(&maker(), &asset_a(), 5000),
        vacant(holding_at(&record, &asset_a())),
        program(env().system_program),
        program(env().token_program),
        program(env().associated_token_program),
    ]
}

fn make_data(seed: u64, receive: u64, amount: u64) -> Vec<u8> {
    let mut data: Vec<u8> = vec![0];
    data.extend_from_slice(&seed.to_le_bytes());
    data.extend_from_slice(&receive.to_le_bytes());
    data.extend_from_slice(&amount.to_le_bytes());
    data
}

fn take_accounts(after_make: &Vec<Account>) -> Vec<Account> {
    let mut maker_account = after_make[make::MAKER].clone();
    maker_account.is_signer = false;
    vec![
        wallet(taker(), true, 5_000_000),
        maker_account,
        after_make[make::ESCROW].clone(),
        after_make[make::MINT_A].clone(),
        after_make[make::MINT_B].clone(),
        after_make[make::VAULT].clone(),
        holding(&taker(), &asset_a(), 0),
        holding(&taker(), &asset_b(), 700),
        holding(&maker(), &asset_b(), 0),
        program(env().system_program),
        program(env().token_program),
        program(env().associated_token_program),
    ]
}

fn refund_accounts(after_make: &Vec<Account>) -> Vec<Account> {
    vec![
        after_make[make::MAKER].clone(),
        after_make[make::ESCROW].clone(),
        after_make[make::MINT_A].clone(),
        after_make[make::VAULT].clone(),
        after_make[make::MAKER_ATA_A].clone(),
        program(env().associated_token_program),
        program(env().token_program),
        program(env().system_program),
    ]
}

fn made() -> Vec<Account> {
    let mut accounts = make_accounts(1);
    assert_eq!(escrow::process_instruction(&env(), &mut accounts, &make_data(1, 500, 1000)), Ok(()));
    accounts
}

#[test]
fn make_locks_the_offer_and_writes_the_record() {
    let before = make_accounts(1);
    let accounts = made();
    let (record_address, bump) = escrow_at(1);
    assert_eq!(accounts[make::VAULT].tokens, 1000);
    assert_eq!(accounts[make::MAKER_ATA_A].tokens, 4000);
    assert_eq!(accounts[make::VAULT].data.len(), 165);
    assert_eq!(accounts[make::VAULT].owner, env().token_program);
    assert_eq!(accounts[make::VAULT].lamports, HOLDING_DEPOSIT);
    assert_eq!(accounts[make::ESCROW].address, record_address);
    assert_eq!(accounts[make::ESCROW].owner, env().program_id);
    assert_eq!(accounts[make::ESCROW].lamports, RECORD_DEPOSIT);
    assert_eq!(accounts[make::MAKER].lamports, 10_000_000 - RECORD_DEPOSIT - HOLDING_DEPOSIT);
    assert_eq!(
        Escrow::unpack(&accounts[make::ESCROW].data),
        Ok(Escrow {
            seed: 1,
            maker: maker(),
            asset_a: asset_a(),
            asset_b: asset_b(),
            requested_amount: 500,
            bump,
        })
    );
    for i in [make::MINT_A, make::MINT_B, make::SYSTEM_PROGRAM, make::TOKEN_PROGRAM, 8] {
        assert_eq!(accounts[i], before[i]);
    }
}

#[test]
fn make_then_take() {
    let after_make = made();
    let mut accounts = take_accounts(&after_make);
    assert_eq!(escrow::process_instruction(&env(), &mut accounts, &[1]), Ok(()));
    assert_eq!(accounts[take::TAKER_ATA_B].tokens, 200);
    assert_eq!(accounts[take::MAKER_ATA_B].tokens, 500);
    assert_eq!(accounts[take::TAKER_ATA_A].tokens, 1000);
    assert_eq!(accounts[take::VAULT].tokens, 0);
    assert_eq!(accounts[take::VAULT].lamports, 0);
    assert!(accounts[take::VAULT].data.is_empty());
    assert!(accounts[take::ESCROW].data.is_empty());
    assert_eq!(accounts[take::ESCROW].lamports, 0);
    assert_eq!(accounts[take::ESCROW].owner, env().system_program);
    assert_eq!(accounts[take::MAKER].lamports, 10_000_000);
    assert_eq!(accounts[take::TAKER].lamports, 5_000_000);
}

#[test]
fn take_twice_finds_no_record() {
    let after_make = made();
    let mut accounts = take_accounts(&after_make);
    assert_eq!(escrow::process_instruction(&env(), &mut accounts, &[1]), Ok(()));
    let after_take = accounts.clone();
    assert_eq!(
        escrow::process_instruction(&env(), &mut accounts, &[1]),
        Err(CustodyError::Uninitialized)
    );
    assert_eq!(accounts, after_take);
}

#[test]
fn refund_after_take_finds_no_record() {
    let after_make = made();
    let mut accounts = take_accounts(&after_make);
    assert_eq!(escrow::process_instruction(&env(), &mut accounts, &[1]), Ok(()));
    let mut signing_maker = accounts[take::MAKER].clone();
    signing_maker.is_signer = true;
    let mut list = vec![
        signing_maker,
        accounts[take::ESCROW].clone(),
        accounts[take::MINT_A].clone(),
        accounts[take::VAULT].clone(),
        after_make[make::MAKER_ATA_A].clone(),
        program(env().associated_token_program),
        program(env().token_program),
        program(env().system_program),
    ];
    assert_eq!(
        escrow::process_instruction(&env(), &mut list, &[2]),
        Err(CustodyError::Uninitialized)
    );
}

#[test]
fn make_then_refund_then_take() {
    let before = make_accounts(1);
    let after_make = made();
    let mut accounts = refund_accounts(&after_make);
    assert_eq!(escrow::process_instruction(&env(), &mut accounts, &[2]), Ok(()));
    assert_eq!(accounts[refund::MAKER_ATA_A].tokens, 5000);
    assert_eq!(accounts[refund::MAKER_ATA_A], before[make::MAKER_ATA_A]);
    assert_eq!(accounts[refund::MAKER].lamports, 10_000_000);
    assert_eq!(accounts[refund::VAULT].tokens, 0);
    assert!(accounts[refund::VAULT].data.is_empty());
    assert!(accounts[refund::ESCROW].data.is_empty());
    assert_eq!(accounts[refund::ESCROW].lamports, 0);
    assert_eq!(accounts[refund::MINT_A], after_make[make::MINT_A]);

    let mut later = take_accounts(&after_make);
    later[take::ESCROW] = accounts[refund::ESCROW].clone();
    later[take::VAULT] = accounts[refund::VAULT].clone();
    later[take::MAKER] = accounts[refund::MAKER].clone();
    let untouched = later.clone();
    assert_eq!(
        escrow::process_instruction(&env(), &mut later, &[1]),
        Err(CustodyError::Uninitialized)
    );
    assert_eq!(later, untouched);
}

#[test]
fn make_with_nothing_offered() {
    let mut accounts = make_accounts(1);
    let before = accounts.clone();
    assert_eq!(
        escrow::process_instruction(&env(), &mut accounts, &make_data(1, 500, 0)),
        Err(CustodyError::InvalidAmount)
    );
    assert_eq!(accounts, before);
    let mut none: Vec<Account> = Vec::new();
    assert_eq!(
        escrow::process_instruction(&env(), &mut none, &make_data(1, 500, 0)),
        Err(CustodyError::InvalidAmount)
    );
}

#[test]
fn make_twice() {
    let mut accounts = made();
    let after_first = accounts.clone();
    assert_eq!(
        escrow::process_instruction(&env(), &mut accounts, &make_data(1, 500, 1000)),
        Err(CustodyError::AlreadyInitialized)
    );
    assert_eq!(accounts, after_first);
    assert_eq!(
        escrow::process_instruction(&env(), &mut accounts, &make_data(1, 9, 1)),
        Err(CustodyError::AlreadyInitialized)
    );
}

#[test]
fn make_with_another_seed_is_another_record() {
    let first = made();
    let mut accounts = make_accounts(2);
    accounts[make::MAKER] = first[make::MAKER].clone();
    accounts[make::MAKER_ATA_A] = first[make::MAKER_ATA_A].clone();
    assert_eq!(escrow::process_instruction(&env(), &mut accounts, &make_data(2, 5, 4000)), Ok(()));
    assert_eq!(accounts[make::VAULT].tokens, 4000);
    assert_eq!(accounts[make::MAKER_ATA_A].tokens, 0);
    assert_ne!(accounts[make::ESCROW].address, first[make::ESCROW].address);
}

#[test]
fn take_with_another_offered_asset() {
    let after_make = made();
    let mut accounts = take_accounts(&after_make);
    accounts[take::MINT_A] = mint(addr(0x2c));
    let before = accounts.clone();
    assert_eq!(
        escrow::process_instruction(&env(), &mut accounts, &[1]),
        Err(CustodyError::AddressMismatch)
    );
    assert_eq!(accounts, before);
}

#[test]
fn take_with_another_requested_asset_or_maker() {
    let after_make = made();
    let mut accounts = take_accounts(&after_make);
    accounts[take::MINT_B] = mint(addr(0x2c));
    assert_eq!(
        escrow::process_instruction(&env(), &mut accounts, &[1]),
        Err(CustodyError::AddressMismatch)
    );
    let mut accounts = take_accounts(&after_make);
    accounts[take::MAKER] = wallet(addr(0x13), false, 1);
    assert_eq!(
        escrow::process_instruction(&env(), &mut accounts, &[1]),
        Err(CustodyError::AddressMismatch)
    );
}

#[test]
fn take_with_a_holding_of_someone_else() {
    let after_make = made();
    let mut accounts = take_accounts(&after_make);
    accounts[take::MAKER_ATA_B] = holding(&addr(0x13), &asset_b(), 0);
    assert_eq!(
        escrow::process_instruction(&env(), &mut accounts, &[1]),
        Err(CustodyError::AddressMismatch)
    );
    let mut accounts = take_accounts(&after_make);
    accounts[take::TAKER_ATA_A] = holding(&taker(), &addr(0x2c), 0);
    assert_eq!(
        escrow::process_instruction(&env(), &mut accounts, &[1]),
        Err(CustodyError::AddressMismatch)
    );
}

#[test]
fn take_without_signature() {
    let after_make = made();
    let mut accounts = take_accounts(&after_make);
    accounts[take::TAKER].is_signer = false;
    assert_eq!(
        escrow::process_instruction(&env(), &mut accounts, &[1]),
        Err(CustodyError::MissingSignature)
    );
}

#[test]
fn take_that_the_taker_cannot_pay() {
    let after_make = made();
    let mut accounts = take_accounts(&after_make);
    accounts[take::TAKER_ATA_B].tokens = 499;
    let before = accounts.clone();
    assert_eq!(
        escrow::process_instruction(&env(), &mut accounts, &[1]),
        Err(CustodyError::TransferFailed)
    );
    assert_eq!(accounts, before);
}

#[test]
fn take_of_a_record_of_another_program() {
    let after_make = made();
    let mut accounts = take_accounts(&after_make);
    accounts[take::ESCROW].owner = addr(0x71);
    assert_eq!(
        escrow::process_instruction(&env(), &mut accounts, &[1]),
        Err(CustodyError::WrongOwner)
    );
}

#[test]
fn take_of_something_that_is_no_record() {
    let after_make = made();
    let mut accounts = take_accounts(&after_make);
    accounts[take::ESCROW].data = vec![0u8; 114];
    assert_eq!(
        escrow::process_instruction(&env(), &mut accounts, &[1]),
        Err(CustodyError::WrongLayout)
    );
    accounts[take::ESCROW].data = vec![1u8; 113];
    assert_eq!(
        escrow::process_instruction(&env(), &mut accounts, &[1]),
        Err(CustodyError::WrongLayout)
    );
}

#[test]
fn take_with_a_lookalike_program() {
    let after_make = made();
    let mut accounts = take_accounts(&after_make);
    accounts[take::TOKEN_PROGRAM] = program(addr(0x62));
    assert_eq!(
        escrow::process_instruction(&env(), &mut accounts, &[1]),
        Err(CustodyError::WrongProgram)
    );
}

#[test]
fn account_lists_of_the_wrong_length() {
    let mut short = make_accounts(1);
    short.pop();
    assert_eq!(
        escrow::process_instruction(&env(), &mut short, &make_data(1, 500, 1000)),
        Err(CustodyError::NotEnoughAccounts)
    );
    let mut long = make_accounts(1);
    long.push(program(addr(0x63)));
    assert_eq!(
        escrow::process_instruction(&env(), &mut long, &make_data(1, 500, 1000)),
        Err(CustodyError::NotEnoughAccounts)
    );
    let after_make = made();
    let mut take_list = take_accounts(&after_make);
    take_list.pop();
    assert_eq!(
        escrow::process_instruction(&env(), &mut take_list, &[1]),
        Err(CustodyError::NotEnoughAccounts)
    );
    let mut refund_list = refund_accounts(&after_make);
    refund_list.push(program(addr(0x63)));
    assert_eq!(
        escrow::process_instruction(&env(), &mut refund_list, &[2]),
        Err(CustodyError::NotEnoughAccounts)
    );
}

#[test]
fn one_account_under_two_roles() {
    let mut accounts = make_accounts(1);
    accounts[make::MINT_B] = accounts[make::MINT_A].clone();
    assert_eq!(
        escrow::process_instruction(&env(), &mut accounts, &make_data(1, 500, 1000)),
        Err(CustodyError::AddressMismatch)
    );
}

#[test]
fn make_without_signature() {
    let mut accounts = make_accounts(1);
    accounts[make::MAKER].is_signer = false;
    assert_eq!(
        escrow::process_instruction(&env(), &mut accounts, &make_data(1, 500, 1000)),
        Err(CustodyError::MissingSignature)
    );
}

#[test]
fn make_at_another_address() {
    let mut accounts = make_accounts(1);
    let (other, _) = escrow_at(2);
    accounts[make::ESCROW] = vacant(other);
    assert_eq!(
        escrow::process_instruction(&env(), &mut accounts, &make_data(1, 500, 1000)),
        Err(CustodyError::AddressMismatch)
    );
    let mut accounts = make_accounts(1);
    accounts[make::VAULT] = vacant(addr(0x44));
    assert_eq!(
        escrow::process_instruction(&env(), &mut accounts, &make_data(1, 500, 1000)),
        Err(CustodyError::AddressMismatch)
    );
    let mut accounts = make_accounts(1);
    accounts[make::MAKER_ATA_A] = holding(&taker(), &asset_a(), 5000);
    assert_eq!(
        escrow::process_instruction(&env(), &mut accounts, &make_data(1, 500, 1000)),
        Err(CustodyError::AddressMismatch)
    );
}

#[test]
fn make_with_implausible_assets() {
    let mut accounts = make_accounts(1);
    accounts[make::MINT_A].data = vec![0u8; 7];
    assert_eq!(
        escrow::process_instruction(&env(), &mut accounts, &make_data(1, 500, 1000)),
        Err(CustodyError::WrongLayout)
    );
    let mut accounts = make_accounts(1);
    accounts[make::MAKER_ATA_A].data = vec![0u8; 164];
    assert_eq!(
        escrow::process_instruction(&env(), &mut accounts, &make_data(1, 500, 1000)),
        Err(CustodyError::WrongLayout)
    );
}

#[test]
fn make_with_assets_of_another_program() {
    let mut accounts = make_accounts(1);
    accounts[make::MINT_B].owner = addr(0x62);
    assert_eq!(
        escrow::process_instruction(&env(), &mut accounts, &make_data(1, 500, 1000)),
        Err(CustodyError::WrongOwner)
    );
    let mut accounts = make_accounts(1);
    accounts[make::MAKER_ATA_A].owner = env().system_program;
    assert_eq!(
        escrow::process_instruction(&env(), &mut accounts, &make_data(1, 500, 1000)),
        Err(CustodyError::WrongOwner)
    );
}

#[test]
fn make_after_take_uses_the_address_again() {
    let after_make = made();
    let mut taken = take_accounts(&after_make);
    assert_eq!(escrow::process_instruction(&env(), &mut taken, &[1]), Ok(()));
    let mut accounts = make_accounts(1);
    accounts[make::MAKER] = taken[take::MAKER].clone();
    accounts[make::MAKER].is_signer = true;
    accounts[make::ESCROW] = taken[take::ESCROW].clone();
    accounts[make::VAULT] = taken[take::VAULT].clone();
    accounts[make::MAKER_ATA_A] = after_make[make::MAKER_ATA_A].clone();
    assert_eq!(escrow::process_instruction(&env(), &mut accounts, &make_data(1, 7, 4000)), Ok(()));
    assert_eq!(accounts[make::VAULT].tokens, 4000);
    assert_eq!(Escrow::unpack(&accounts[make::ESCROW].data).unwrap().requested_amount, 7);
}

#[test]
fn record_states() {
    let before = make_accounts(1);
    assert_eq!(state_of(&env(), &before[make::ESCROW]), RecordState::Absent);
    let after_make = made();
    assert_eq!(state_of(&env(), &after_make[make::ESCROW]), RecordState::Active);
    assert_eq!(state_of(&env(), &after_make[make::VAULT]), RecordState::Foreign);
    let mut taken = take_accounts(&after_make);
    assert_eq!(escrow::process_instruction(&env(), &mut taken, &[1]), Ok(()));
    assert_eq!(state_of(&env(), &taken[take::ESCROW]), RecordState::Absent);
    let mut elsewhere = after_make[make::ESCROW].clone();
    elsewhere.owner = addr(0x71);
    assert_eq!(state_of(&env(), &elsewhere), RecordState::Foreign);
}

#[test]
fn make_with_a_lookalike_program() {
    for place in [make::SYSTEM_PROGRAM, make::TOKEN_PROGRAM, make::ASSOCIATED_TOKEN_PROGRAM] {
        let mut accounts = make_accounts(1);
        accounts[place] = program(addr(0x6f));
        assert_eq!(
            escrow::process_instruction(&env(), &mut accounts, &make_data(1, 500, 1000)),
            Err(CustodyError::WrongProgram)
        );
    }
}

#[test]
fn make_that_the_maker_cannot_cover() {
    let mut accounts = make_accounts(1);
    let before = accounts.clone();
    assert_eq!(
        escrow::process_instruction(&env(), &mut accounts, &make_data(1, 500, 5001)),
        Err(CustodyError::TransferFailed)
    );
    assert_eq!(accounts, before);
    accounts[make::MAKER].lamports = RECORD_DEPOSIT + HOLDING_DEPOSIT - 1;
    let before = accounts.clone();
    assert_eq!(
        escrow::process_instruction(&env(), &mut accounts, &make_data(1, 500, 1000)),
        Err(CustodyError::TransferFailed)
    );
    assert_eq!(accounts, before);
}

#[test]
fn refund_by_someone_else() {
    let after_make = made();
    let mut accounts = refund_accounts(&after_make);
    accounts[refund::MAKER] = wallet(addr(0x13), true, 1);
    assert_eq!(
        escrow::process_instruction(&env(), &mut accounts, &[2]),
        Err(CustodyError::AddressMismatch)
    );
    let mut accounts = refund_accounts(&after_make);
    accounts[refund::MAKER].is_signer = false;
    assert_eq!(
        escrow::process_instruction(&env(), &mut accounts, &[2]),
        Err(CustodyError::MissingSignature)
    );
}

#[test]
fn unknown_and_malformed_instructions() {
    let mut accounts = make_accounts(1);
    for data in [vec![], vec![3u8], vec![0u8], vec![1u8, 0], vec![2u8, 0]] {
        assert_eq!(
            escrow::process_instruction(&env(), &mut accounts, &data),
            Err(CustodyError::InvalidInstructionData)
        );
    }
    assert_eq!(accounts, make_accounts(1));
}

#[test]
fn validated_make_carries_parameters_and_bump() {
    let accounts = make_accounts(1);
    let data = make_data(1, 500, 1000);
    let validated = Make::try_from(&env(), &data[1..], &accounts).unwrap();
    assert_eq!(
        validated.instruction_data,
        MakeInstructionData { seed: 1, receive: 500, amount: 1000 }
    );
    assert_eq!(validated.bump, escrow_at(1).1);
    assert_eq!(validated.accounts.to_vec(), accounts);
    assert_eq!(Make::DISCRIMINATOR, 0);
    assert_eq!(Take::DISCRIMINATOR, 1);
    assert_eq!(Refund::DISCRIMINATOR, 2);
    assert_eq!(MakeAccounts::try_from(&env(), &accounts).unwrap(), validated.accounts);
}

#[test]
fn validated_take_and_refund_carry_the_record() {
    let after_make = made();
    let record = Escrow::unpack(&after_make[make::ESCROW].data).unwrap();
    let list = take_accounts(&after_make);
    let validated = Take::try_from(&env(), &[], &list).unwrap();
    assert_eq!(validated.escrow, record);
    assert_eq!(TakeAccounts::try_from(&env(), &list).unwrap().to_vec(), list);
    let list = refund_accounts(&after_make);
    let mut validated = Refund::try_from(&env(), &[], &list).unwrap();
    assert_eq!(validated.escrow, record);
    assert_eq!(refund::refund::try_from(&env(), &list).unwrap().to_vec(), list);
    assert_eq!(validated.process(&env()), Ok(()));
    assert_eq!(validated.accounts.maker_ata_a.tokens, 5000);
    assert_eq!(Take::try_from(&env(), &[0], &take_accounts(&after_make)).err(), Some(CustodyError::InvalidInstructionData));
}

#[test]
fn operations_by_name() {
    let mut accounts = make_accounts(1);
    let data = make_data(1, 500, 1000);
    assert_eq!(escrow::make(&env(), &mut accounts, &data[1..]), Ok(()));
    let mut refund_list = refund_accounts(&accounts);
    let mut take_list = take_accounts(&accounts);
    assert_eq!(escrow::take(&env(), &mut take_list, &[]), Ok(()));
    assert_eq!(take_list[take::TAKER_ATA_A].tokens, 1000);
    assert_eq!(escrow::refund(&env(), &mut refund_list, &[]), Ok(()));
    assert_eq!(refund_list[refund::MAKER_ATA_A].tokens, 5000);
}

#[test]
fn make_is_planned_as_four_calls() {
    let accounts = make_accounts(1);
    let data = make_data(1, 500, 1000);
    let validated = Make::try_from(&env(), &data[1..], &accounts).unwrap();
    let (_, bump) = escrow_at(1);
    let record = Escrow {
        seed: 1,
        maker: maker(),
        asset_a: asset_a(),
        asset_b: asset_b(),
        requested_amount: 500,
        bump,
    };
    let mut seeds = escrow_seeds(&maker(), 1);
    seeds.push(vec![bump]);
    assert_eq!(
        validated.plan(&env()),
        vec![
            Call::CreateStorage {
                payer: make::MAKER,
                target: make::ESCROW,
                deposit: RECORD_DEPOSIT,
                size: 114,
                owner: env().program_id,
                signer_seeds: Some(seeds),
            },
            Call::CreateAssociatedHolding {
                payer: make::MAKER,
                holding: make::VAULT,
                holder: make::ESCROW,
                asset: make::MINT_A,
            },
            Call::Write { target: make::ESCROW, data: record.pack() },
            Call::TransferTokens {
                from: make::MAKER_ATA_A,
                to: make::VAULT,
                authority: make::MAKER,
                amount: 1000,
            },
        ]
    );
    let mut by_calls = accounts.clone();
    assert_eq!(run(&env(), &mut by_calls, &validated.plan(&env())), Ok(()));
    assert_eq!(by_calls, made());
    let mut by_struct = validated.clone();
    assert_eq!(by_struct.process(&env()), Ok(()));
    assert_eq!(by_struct.accounts.to_vec(), made());
}

#[test]
fn take_and_refund_are_planned_in_order() {
    let after_make = made();
    let (_, bump) = escrow_at(1);
    let mut seeds = escrow_seeds(&maker(), 1);
    seeds.push(vec![bump]);
    let list = take_accounts(&after_make);
    let validated = Take::try_from(&env(), &[], &list).unwrap();
    assert_eq!(
        validated.plan(&env()),
        vec![
            Call::TransferTokens {
                from: take::TAKER_ATA_B,
                to: take::MAKER_ATA_B,
                authority: take::TAKER,
                amount: 500,
            },
            Call::TransferTokensSigned {
                from: take::VAULT,
                to: take::TAKER_ATA_A,
                authority: take::ESCROW,
                amount: 1000,
                seeds: seeds.clone(),
            },
            Call::CloseHolding {
                holding: take::VAULT,
                destination: take::MAKER,
                authority: take::ESCROW,
                seeds: seeds.clone(),
            },
            Call::CloseRecord { record: take::ESCROW, destination: take::MAKER },
        ]
    );
    let mut processed = validated.clone();
    assert_eq!(processed.process(&env()), Ok(()));
    let mut dispatched = list.clone();
    assert_eq!(escrow::process_instruction(&env(), &mut dispatched, &[1]), Ok(()));
    assert_eq!(processed.accounts.to_vec(), dispatched);

    let list = refund_accounts(&after_make);
    let validated = Refund::try_from(&env(), &[], &list).unwrap();
    assert_eq!(
        validated.plan(&env()),
        vec![
            Call::TransferTokensSigned {
                from: refund::VAULT,
                to: refund::MAKER_ATA_A,
                authority: refund::ESCROW,
                amount: 1000,
                seeds: seeds.clone(),
            },
            Call::CloseHolding {
                holding: refund::VAULT,
                destination: refund::MAKER,
                authority: refund::ESCROW,
                seeds,
            },
            Call::CloseRecord { record: refund::ESCROW, destination: refund::MAKER },
        ]
    );
}

#[test]
fn account_structs_from_lists() {
    let accounts = make_accounts(1);
    assert_eq!(MakeAccounts::from_list(&accounts).unwrap().to_vec(), accounts);
    assert_eq!(MakeAccounts::from_list(&accounts[1..].to_vec()), None);
    assert_eq!(TakeAccounts::from_list(&accounts), None);
    assert_eq!(refund::refund::from_list(&accounts), None);
}

#[test]
fn make_reports_the_missing_signature_before_a_repeated_account() {
    let mut accounts = make_accounts(1);
    accounts[make::MAKER].is_signer = false;
    accounts[make::VAULT] = accounts[make::ESCROW].clone();
    assert_eq!(
        MakeAccounts::try_from(&env(), &accounts).err(),
        Some(CustodyError::MissingSignature)
    );
    assert_eq!(
        escrow::process_instruction(&env(), &mut accounts, &make_data(1, 500, 1000)),
        Err(CustodyError::MissingSignature)
    );
    let mut twice = make_accounts(1);
    twice[make::MINT_B] = twice[make::MINT_A].clone();
    twice[make::MAKER].is_signer = false;
    assert_eq!(
        escrow::process_instruction(&env(), &mut twice, &make_data(1, 500, 1000)),
        Err(CustodyError::MissingSignature)
    );
}

#[test]
fn make_reports_every_rule_before_a_repeated_account() {
    let mut accounts = made();
    accounts[make::SYSTEM_PROGRAM] = accounts[make::MINT_B].clone();
    assert_eq!(
        escrow::process_instruction(&env(), &mut accounts, &make_data(1, 500, 1000)),
        Err(CustodyError::WrongProgram)
    );
    let mut accounts = made();
    accounts[make::MINT_B] = accounts[make::MINT_A].clone();
    assert_eq!(
        escrow::process_instruction(&env(), &mut accounts, &make_data(1, 500, 1000)),
        Err(CustodyError::AlreadyInitialized)
    );
    let mut accounts = make_accounts(1);
    accounts[make::MINT_B] = accounts[make::MINT_A].clone();
    assert!(MakeAccounts::try_from(&env(), &accounts).is_ok());
    assert_eq!(
        Make::try_from(&env(), &make_data(1, 500, 1000)[1..], &accounts).err(),
        Some(CustodyError::AddressMismatch)
    );
}

#[test]
fn later_operations_on_a_taken_record_never_succeed() {
    let after_make = made();
    let mut taken = take_accounts(&after_make);
    assert_eq!(escrow::process_instruction(&env(), &mut taken, &[1]), Ok(()));
    let mut unsigned = taken.clone();
    unsigned[take::TAKER].is_signer = false;
    assert_eq!(
        escrow::process_instruction(&env(), &mut unsigned, &[1]),
        Err(CustodyError::MissingSignature)
    );
    let mut short = taken.clone();
    short.pop();
    assert_eq!(
        escrow::process_instruction(&env(), &mut short, &[1]),
        Err(CustodyError::NotEnoughAccounts)
    );
    let mut twice = taken.clone();
    twice[take::MINT_B] = twice[take::MINT_A].clone();
    assert_eq!(
        escrow::process_instruction(&env(), &mut twice, &[1]),
        Err(CustodyError::Uninitialized)
    );
    assert_eq!(
        escrow::process_instruction(&env(), &mut taken, &[1, 0]),
        Err(CustodyError::InvalidInstructionData)
    );
}

#[test]
fn take_with_one_account_under_two_roles() {
    let after_make = made();
    let mut accounts = take_accounts(&after_make);
    accounts[take::SYSTEM_PROGRAM] = accounts[take::TOKEN_PROGRAM].clone();
    assert_eq!(
        escrow::process_instruction(&env(), &mut accounts, &[1]),
        Err(CustodyError::WrongProgram)
    );
    let mut accounts = take_accounts(&after_make);
    accounts[take::TAKER] = accounts[take::MAKER].clone();
    accounts[take::TAKER].is_signer = true;
    assert_eq!(
        escrow::process_instruction(&env(), &mut accounts, &[1]),
        Err(CustodyError::AddressMismatch)
    );
}
