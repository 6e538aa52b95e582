use blueshift_escrow::account::{Account, Environment};
use blueshift_escrow::address::{derive_address, Address};
use blueshift_escrow::calls::{run, Call};
use blueshift_escrow::counter;
use blueshift_escrow::error::CustodyError;
use blueshift_escrow::owned_vault;
use blueshift_escrow::router;
use blueshift_escrow::storage;
use blueshift_escrow::storage::{Data, Init, PxsolError, Update};
use blueshift_escrow::token_vault;
use blueshift_escrow::token_vault::{Initialize, TransferAccounts};

fn addr(byte: u8) -> Address {
    Address::new_from_array([byte; 32])
}

fn env() -> Environment {
    Environment {
        program_id: addr(0x22),
        system_program: addr(0),
        token_program: addr(0x60),
        associated_token_program: addr(0x61),
        record_deposit: 0,
        holding_deposit: 0,
    }
}

fn elsewhere() -> Environment {
    let mut other = env();
    other.program_id = addr(0x23);
    other
}

fn account(address: Address, signer: bool, lamports: u64) -> Account {
    Account {
        address,
        owner: addr(0),
        is_signer: signer,
        is_writable: true,
        lamports,
        tokens: 0,
        data: Vec::new(),
    }
}

#[test]
fn counter_counts_in_the_first_byte() {
    let mut a = account(addr(1), false, 0);
    a.data = vec![41, 7];
    assert_eq!(counter::entrypoint(&mut a), 0);
    assert_eq!(a.data, vec![42, 7]);
    assert_eq!(counter::SUCCESS, 0);
}

#[test]
fn counter_wraps_around() {
    let mut a = account(addr(1), false, 0);
    a.data = vec![255];
    assert_eq!(counter::entrypoint(&mut a), 0);
    assert_eq!(a.data, vec![0]);
}

#[test]
fn counter_needs_a_writable_account() {
    let mut a = account(addr(1), false, 0);
    a.is_writable = false;
    a.data = vec![5];
    assert_eq!(counter::entrypoint(&mut a), 1);
    assert_eq!(counter::ERROR_NOT_WRITABLE, 1);
    assert_eq!(a.data, vec![5]);
    a.data = vec![];
    assert_eq!(counter::entrypoint(&mut a), 1);
}

#[test]
fn counter_needs_a_byte() {
    let mut a = account(addr(1), false, 0);
    assert_eq!(counter::entrypoint(&mut a), 100);
    assert_eq!(counter::ERROR_NO_DATA, 100);
    assert!(a.data.is_empty());
}

#[test]
fn router_hands_on_known_operations() {
    let accounts: Vec<Account> = Vec::new();
    assert_eq!(router::process_instruction(&addr(1), &accounts, &[0]), Ok(()));
    assert_eq!(router::process_instruction(&addr(1), &accounts, &[1, 2, 3]), Ok(()));
    assert_eq!(router::process_instruction_mint(&addr(1), &accounts, &[]), Ok(()));
    assert_eq!(router::process_instruction_transfer(&addr(1), &accounts, &[9]), Ok(()));
}

#[test]
fn router_rejects_everything_else() {
    let accounts: Vec<Account> = Vec::new();
    assert_eq!(
        router::process_instruction(&addr(1), &accounts, &[]),
        Err(CustodyError::InvalidInstructionData)
    );
    assert_eq!(
        router::process_instruction(&addr(1), &accounts, &[2]),
        Err(CustodyError::InvalidInstructionData)
    );
}

fn owned(vault_lamports: u64, owner_lamports: u64) -> Vec<Account> {
    let mut vault = account(addr(0x41), false, vault_lamports);
    vault.owner = addr(0x22);
    vec![vault, account(addr(0x42), true, owner_lamports)]
}

fn deposit_data(amount: u64) -> Vec<u8> {
    let mut data = vec![0u8];
    data.extend_from_slice(&amount.to_le_bytes());
    data
}

#[test]
fn owned_vault_deposit() {
    let mut list = owned(1_000_000_000, 700);
    assert_eq!(owned_vault::process_instruction(&env(), &mut list, &deposit_data(300)), Ok(()));
    assert_eq!(list[owned_vault::VAULT].lamports, 1_000_000_300);
    assert_eq!(list[owned_vault::OWNER].lamports, 400);
}

#[test]
fn owned_vault_withdraw_keeps_the_reserve() {
    let mut list = owned(1_000_000_300, 400);
    assert_eq!(owned_vault::process_instruction(&env(), &mut list, &[1]), Ok(()));
    assert_eq!(list[owned_vault::VAULT].lamports, owned_vault::RENT_EXEMPT_RESERVE);
    assert_eq!(list[owned_vault::VAULT].lamports, 1_000_000_000);
    assert_eq!(list[owned_vault::OWNER].lamports, 700);
}

#[test]
fn owned_vault_withdraw_below_the_reserve() {
    for held in [0u64, 999_999_999, 1_000_000_000] {
        let mut list = owned(held, 400);
        assert_eq!(
            owned_vault::process_instruction(&env(), &mut list, &[1]),
            Err(CustodyError::InvalidAmount)
        );
        assert_eq!(list, owned(held, 400));
    }
}

#[test]
fn owned_vault_rejections() {
    let mut list = owned(1_000_000_300, 400);
    assert_eq!(
        owned_vault::process_instruction(&elsewhere(), &mut list, &[1]),
        Err(CustodyError::WrongOwner)
    );
    list[owned_vault::OWNER].is_signer = false;
    assert_eq!(
        owned_vault::process_instruction(&env(), &mut list, &[1]),
        Err(CustodyError::MissingSignature)
    );
    assert_eq!(
        owned_vault::process_instruction(&env(), &mut list, &deposit_data(1)),
        Err(CustodyError::MissingSignature)
    );
    let mut list = owned(1_000_000_300, 400);
    assert_eq!(
        owned_vault::process_instruction(&env(), &mut list, &deposit_data(0)),
        Err(CustodyError::InvalidAmount)
    );
    assert_eq!(
        owned_vault::process_instruction(&env(), &mut list, &deposit_data(401)),
        Err(CustodyError::TransferFailed)
    );
    assert_eq!(
        owned_vault::process_instruction(&env(), &mut list, &[0, 1]),
        Err(CustodyError::InvalidInstructionData)
    );
    assert_eq!(
        owned_vault::process_instruction(&env(), &mut list, &[]),
        Err(CustodyError::InvalidInstructionData)
    );
    list.pop();
    assert_eq!(
        owned_vault::process_instruction(&env(), &mut list, &[1]),
        Err(CustodyError::NotEnoughAccounts)
    );
    let mut unsigned_twice = owned(1_000_000_300, 400);
    unsigned_twice[1].address = unsigned_twice[0].address;
    unsigned_twice[1].is_signer = false;
    assert_eq!(
        owned_vault::process_instruction(&env(), &mut unsigned_twice, &[1]),
        Err(CustodyError::MissingSignature)
    );
    let mut twice = owned(1_000_000_300, 400);
    twice[1].address = twice[0].address;
    assert_eq!(
        owned_vault::process_instruction(&env(), &mut twice, &[1]),
        Err(CustodyError::AddressMismatch)
    );
}

#[test]
fn owned_vault_structs() {
    let list = owned(1_000_000_300, 400);
    let mut deposit = owned_vault::Deposit::try_from(&5u64.to_le_bytes(), &list).unwrap();
    assert_eq!(deposit.lamports, 5);
    assert_eq!(deposit.accounts().vault, list[0]);
    assert_eq!(deposit.accounts().owner, list[1]);
    assert_eq!(deposit.process(&addr(0x22)), Ok(()));
    assert_eq!(deposit.accounts.vault.lamports, 1_000_000_305);
    let mut withdraw = owned_vault::Withdraw::try_from(&list).unwrap();
    assert_eq!(withdraw.accounts().vault, list[0]);
    assert_eq!(withdraw.process(&addr(0x22)), Ok(()));
    assert_eq!(withdraw.accounts.owner.lamports, 700);
    assert_eq!(owned_vault::Deposit::DISCRIMINATOR, 0);
    assert_eq!(owned_vault::Withdraw::DISCRIMINATOR, 1);
    assert_eq!(owned_vault::DepositAccounts::try_from(&list).unwrap().owner, list[1]);
    assert_eq!(owned_vault::WithdrawAccounts::try_from(&list).unwrap().vault, list[0]);
    assert_eq!(
        owned_vault::Deposit::try_from(&[1, 2, 3], &list).err(),
        Some(CustodyError::InvalidInstructionData)
    );
}

fn store_accounts() -> Vec<Account> {
    let user = addr(0x51);
    let (at, _) = derive_address(&storage::data_seeds(&user), &addr(0x22)).unwrap();
    vec![
        account(user, true, 10_000),
        account(at, false, 0),
        account(addr(0), false, 1),
        account(addr(0x52), false, 1),
    ]
}

#[test]
fn store_creates_the_account_and_writes_once() {
    let mut list = store_accounts();
    assert_eq!(storage::process_instruction(&env(), &mut list, &[1, 2, 3], 900), Ok(()));
    assert_eq!(list[storage::DATA].data, vec![1, 2, 3]);
    assert_eq!(list[storage::DATA].lamports, 900);
    assert_eq!(list[storage::DATA].owner, addr(0x22));
    assert_eq!(list[storage::USER].lamports, 9_100);
    let after = list.clone();
    assert_eq!(storage::process_instruction(&env(), &mut list, &[9, 9], 900), Ok(()));
    assert_eq!(list, after);
}

#[test]
fn store_rejections() {
    let mut list = store_accounts();
    list[storage::DATA].address = addr(0x53);
    assert_eq!(
        storage::process_instruction(&env(), &mut list, &[1], 900),
        Err(CustodyError::TransferFailed)
    );
    let mut list = store_accounts();
    assert_eq!(
        storage::process_instruction(&env(), &mut list, &[1], 10_001),
        Err(CustodyError::TransferFailed)
    );
    assert_eq!(list, store_accounts());
    list.pop();
    assert_eq!(
        storage::process_instruction(&env(), &mut list, &[1], 900),
        Err(CustodyError::NotEnoughAccounts)
    );
    let mut list = store_accounts();
    list[storage::RENT].address = addr(0);
    assert_eq!(
        storage::process_instruction(&env(), &mut list, &[1], 900),
        Err(CustodyError::AddressMismatch)
    );
}

#[test]
fn managed_space() {
    assert_eq!(Data::space_for(0), 45);
    assert_eq!(Data::space_for(10), 55);
    assert_eq!(storage::DATA_HEADER_LEN, 45);
}

fn managed(user_lamports: u64, pda_lamports: u64) -> (Update, Data) {
    let user = addr(0x51);
    let mut seeds = vec![b"seeds".to_vec(), vec![0x51u8; 32]];
    let (at, bump) = derive_address(&seeds, &addr(0x22)).unwrap();
    seeds.push(vec![bump]);
    assert_eq!(storage::managed_signer_seeds(&user, bump), seeds);
    let ctx = Init {
        user: account(user, true, user_lamports),
        user_pda: account(at, false, pda_lamports),
        system_program: account(addr(0), false, 1),
    };
    let state = storage::init(&ctx, bump);
    assert_eq!(state, Data { auth: user, bump, data: vec![] });
    (Update { user: ctx.user, user_pda: ctx.user_pda, system_program: ctx.system_program }, state)
}

#[test]
fn update_replaces_the_data_and_refunds_the_surplus() {
    let (mut ctx, mut state) = managed(100, 5000);
    assert_eq!(storage::update(&mut ctx, &mut state, vec![1, 2], 1200, &addr(0x22)), Ok(()));
    assert_eq!(state.data, vec![1, 2]);
    assert_eq!(ctx.user_pda.lamports, 1200);
    assert_eq!(ctx.user.lamports, 3900);
}

#[test]
fn update_without_surplus_moves_nothing() {
    let (mut ctx, mut state) = managed(100, 1200);
    assert_eq!(storage::update(&mut ctx, &mut state, vec![7], 1200, &addr(0x22)), Ok(()));
    assert_eq!(state.data, vec![7]);
    assert_eq!(ctx.user_pda.lamports, 1200);
    assert_eq!(ctx.user.lamports, 100);
    assert_eq!(storage::update(&mut ctx, &mut state, vec![8], 1300, &addr(0x22)), Ok(()));
    assert_eq!(ctx.user_pda.lamports, 1200);
}

#[test]
fn update_by_someone_else() {
    let (mut ctx, mut state) = managed(100, 5000);
    state.auth = addr(0x54);
    assert_eq!(
        storage::update(&mut ctx, &mut state, vec![1], 1200, &addr(0x22)),
        Err(CustodyError::AddressMismatch)
    );
    assert_eq!(PxsolError::Unauthorized.kind(), CustodyError::AddressMismatch);
    assert_eq!(PxsolError::InvalidData.kind(), CustodyError::InvalidInstructionData);
    assert!(state.data.is_empty());
    assert_eq!(ctx.user_pda.lamports, 5000);
}

#[test]
fn update_with_the_wrong_bump_is_refused_by_the_ledger() {
    let (mut ctx, mut state) = managed(100, 5000);
    state.bump = state.bump.wrapping_sub(1);
    assert_eq!(
        storage::update(&mut ctx, &mut state, vec![1], 1200, &addr(0x22)),
        Err(CustodyError::TransferFailed)
    );
    assert!(state.data.is_empty());
    assert_eq!(ctx.user.lamports, 100);
}

fn token_accounts() -> Vec<Account> {
    let asset = addr(0x2a);
    let (authority, _) = derive_address(&token_vault::authority_seeds(), &addr(0x22)).unwrap();
    let (vault, _) = derive_address(&token_vault::vault_seeds(&asset), &addr(0x22)).unwrap();
    let mut vault_account = account(vault, false, 1);
    vault_account.data = vec![0u8; 165];
    vault_account.owner = addr(0x60);
    let mut sender = account(addr(0x71), false, 1);
    sender.data = vec![0u8; 165];
    sender.owner = addr(0x60);
    sender.tokens = 900;
    let mut asset_account = account(asset, false, 1);
    asset_account.data = vec![0u8; 82];
    asset_account.owner = addr(0x60);
    vec![
        account(authority, false, 1),
        vault_account,
        sender,
        asset_account,
        account(addr(0x72), true, 1),
        account(addr(0), false, 1),
        account(addr(0x60), false, 1),
        account(addr(0x73), false, 1),
    ]
}

#[test]
fn token_vault_in_and_out() {
    let list = token_accounts();
    let (mut ctx, bump) = TransferAccounts::try_accounts(&env(), &list).unwrap();
    assert_eq!(token_vault::transfer_in(&mut ctx, 600), Ok(()));
    assert_eq!(ctx.sender_token_account.tokens, 300);
    assert_eq!(ctx.vault_token_account.tokens, 600);
    assert_eq!(token_vault::transfer_out(&mut ctx, &env(), 250, bump), Ok(()));
    assert_eq!(ctx.sender_token_account.tokens, 550);
    assert_eq!(ctx.vault_token_account.tokens, 350);
    assert_eq!(
        token_vault::transfer_out(&mut ctx, &env(), 351, bump),
        Err(CustodyError::TransferFailed)
    );
    assert_eq!(
        token_vault::transfer_out(&mut ctx, &env(), 1, bump.wrapping_sub(1)),
        Err(CustodyError::TransferFailed)
    );
    assert_eq!(ctx.vault_token_account.tokens, 350);
    assert_eq!(token_vault::transfer_in(&mut ctx, 0), Err(CustodyError::InvalidAmount));
    assert_eq!(token_vault::transfer_in(&mut ctx, 551), Err(CustodyError::TransferFailed));
    ctx.signer.is_signer = false;
    assert_eq!(token_vault::transfer_in(&mut ctx, 1), Err(CustodyError::TransferFailed));
}

#[test]
fn token_vault_seeds() {
    assert_eq!(token_vault::authority_seeds(), vec![b"token_account_owner_pda".to_vec()]);
    assert_eq!(
        token_vault::authority_signer_seeds(3),
        vec![b"token_account_owner_pda".to_vec(), vec![3u8]]
    );
    assert_eq!(
        token_vault::vault_seeds(&addr(0x2a)),
        vec![b"token_vault".to_vec(), vec![0x2au8; 32]]
    );
}

#[test]
fn token_vault_rejections() {
    let mut list = token_accounts();
    list[token_vault::VAULT_TOKEN_ACCOUNT].address = addr(0x74);
    assert_eq!(
        TransferAccounts::try_accounts(&env(), &list).err(),
        Some(CustodyError::AddressMismatch)
    );
    let mut list = token_accounts();
    list[token_vault::SIGNER].is_signer = false;
    assert_eq!(
        TransferAccounts::try_accounts(&env(), &list).err(),
        Some(CustodyError::MissingSignature)
    );
    let mut list = token_accounts();
    list[token_vault::TOKEN_PROGRAM].address = addr(0x62);
    assert_eq!(
        TransferAccounts::try_accounts(&env(), &list).err(),
        Some(CustodyError::WrongProgram)
    );
    let mut list = token_accounts();
    list[token_vault::SENDER_TOKEN_ACCOUNT].owner = addr(0);
    assert_eq!(
        TransferAccounts::try_accounts(&env(), &list).err(),
        Some(CustodyError::WrongOwner)
    );
    let mut list = token_accounts();
    list[token_vault::SENDER_TOKEN_ACCOUNT].data = vec![0u8; 10];
    assert_eq!(
        TransferAccounts::try_accounts(&env(), &list).err(),
        Some(CustodyError::WrongLayout)
    );
    list.pop();
    assert_eq!(
        TransferAccounts::try_accounts(&env(), &list).err(),
        Some(CustodyError::NotEnoughAccounts)
    );
}

#[test]
fn token_vault_initialize() {
    let list = token_accounts();
    let ctx = Initialize {
        token_account_owner_pda: list[0].clone(),
        vault_token_account: list[1].clone(),
        mint_of_token_being_sent: list[3].clone(),
        signer: list[4].clone(),
        system_program: list[5].clone(),
        token_program: list[6].clone(),
        rent: list[7].clone(),
    };
    assert_eq!(token_vault::initialize(&ctx), Ok(()));
}

#[test]
fn owned_vault_plans() {
    let list = owned(1_000_000_300, 400);
    let deposit = owned_vault::Deposit::try_from(&5u64.to_le_bytes(), &list).unwrap();
    assert_eq!(
        deposit.plan(&addr(0x22)),
        Ok(vec![Call::Transfer { from: owned_vault::OWNER, to: owned_vault::VAULT, amount: 5 }])
    );
    assert_eq!(deposit.plan(&addr(0x23)), Err(CustodyError::WrongOwner));
    let withdraw = owned_vault::Withdraw::try_from(&list).unwrap();
    assert_eq!(
        withdraw.plan(&addr(0x22)),
        Ok(vec![Call::WithdrawOwned {
            from: owned_vault::VAULT,
            to: owned_vault::OWNER,
            amount: 300
        }])
    );
    let nothing = owned_vault::Deposit::try_from(&0u64.to_le_bytes(), &list).unwrap();
    assert_eq!(nothing.plan(&addr(0x22)), Err(CustodyError::InvalidAmount));
}

#[test]
fn store_plans() {
    let list = store_accounts();
    let user = addr(0x51);
    let mut seeds = storage::data_seeds(&user);
    let (_, bump) = derive_address(&seeds, &addr(0x22)).unwrap();
    seeds.push(vec![bump]);
    assert_eq!(
        storage::store_plan(&env(), &list, &[1, 2, 3], 900),
        Ok(vec![
            Call::CreateStorage {
                payer: storage::USER,
                target: storage::DATA,
                deposit: 900,
                size: 3,
                owner: addr(0x22),
                signer_seeds: Some(seeds),
            },
            Call::Write { target: storage::DATA, data: vec![1, 2, 3] },
        ])
    );
    let mut made = list.clone();
    made[storage::DATA].lamports = 1;
    assert_eq!(storage::store_plan(&env(), &made, &[1], 900), Ok(vec![]));
}

#[test]
fn update_plans() {
    let (ctx, state) = managed(100, 5000);
    let seeds = storage::managed_signer_seeds(&ctx.user.address, state.bump);
    assert_eq!(
        storage::update_plan(&ctx, &state, 1200),
        Ok(vec![Call::TransferSigned {
            from: storage::MANAGED_USER_PDA,
            to: storage::MANAGED_USER,
            amount: 3800,
            seeds,
        }])
    );
    assert_eq!(storage::update_plan(&ctx, &state, 5000), Ok(vec![]));
    let mut other = state.clone();
    other.auth = addr(0x54);
    assert_eq!(storage::update_plan(&ctx, &other, 1200), Err(CustodyError::AddressMismatch));
    let mut list = vec![ctx.user.clone(), ctx.user_pda.clone(), ctx.system_program.clone()];
    let calls = storage::update_plan(&ctx, &state, 1200).unwrap();
    assert_eq!(run(&env(), &mut list, &calls), Ok(()));
    assert_eq!(list[storage::MANAGED_USER].lamports, 3900);
    assert_eq!(list[storage::MANAGED_USER_PDA].lamports, 1200);
}

#[test]
fn token_vault_plans() {
    assert_eq!(token_vault::transfer_in_plan(0), Err(CustodyError::InvalidAmount));
    assert_eq!(
        token_vault::transfer_in_plan(600),
        Ok(vec![Call::TransferTokens {
            from: token_vault::SENDER_TOKEN_ACCOUNT,
            to: token_vault::VAULT_TOKEN_ACCOUNT,
            authority: token_vault::SIGNER,
            amount: 600,
        }])
    );
    let list = token_accounts();
    let (_, bump) = TransferAccounts::try_accounts(&env(), &list).unwrap();
    let out = token_vault::transfer_out_plan(250, bump);
    assert_eq!(
        out,
        vec![Call::TransferTokensSigned {
            from: token_vault::VAULT_TOKEN_ACCOUNT,
            to: token_vault::SENDER_TOKEN_ACCOUNT,
            authority: token_vault::TOKEN_ACCOUNT_OWNER_PDA,
            amount: 250,
            seeds: token_vault::authority_signer_seeds(bump),
        }]
    );
    let mut table = list.clone();
    assert_eq!(run(&env(), &mut table, &token_vault::transfer_in_plan(600).unwrap()), Ok(()));
    assert_eq!(run(&env(), &mut table, &out), Ok(()));
    assert_eq!(table[token_vault::SENDER_TOKEN_ACCOUNT].tokens, 550);
    assert_eq!(table[token_vault::VAULT_TOKEN_ACCOUNT].tokens, 350);
}
