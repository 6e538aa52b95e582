use blueshift_escrow::account::{Account, Environment};
use blueshift_escrow::address::{derive_address, Address};
use blueshift_escrow::calls::{apply, copy_of, overwrite, run, Call};
use blueshift_escrow::error::CustodyError;

fn addr(byte: u8) -> Address {
    Address::new_from_array([byte; 32])
}

fn env() -> Environment {
    Environment {
        program_id: addr(0x22),
        system_program: addr(0),
        token_program: addr(0x60),
        associated_token_program: addr(0x61),
        record_deposit: 100,
        holding_deposit: 200,
    }
}

fn account(byte: u8, signer: bool, lamports: u64, tokens: u64) -> Account {
    Account {
        address: addr(byte),
        owner: addr(0),
        is_signer: signer,
        is_writable: true,
        lamports,
        tokens,
        data: Vec::new(),
    }
}

fn list() -> Vec<Account> {
    vec![account(1, true, 1000, 10), account(2, false, 5, 20), account(3, false, 0, 0)]
}

#[test]
fn one_call_changes_its_two_accounts() {
    let mut accounts = list();
    assert_eq!(apply(&env(), &mut accounts, &Call::Transfer { from: 0, to: 1, amount: 400 }), Ok(()));
    assert_eq!(accounts[0].lamports, 600);
    assert_eq!(accounts[1].lamports, 405);
    assert_eq!(accounts[2], list()[2]);
    assert_eq!(
        apply(
            &env(),
            &mut accounts,
            &Call::TransferTokens { from: 1, to: 2, authority: 0, amount: 20 }
        ),
        Ok(())
    );
    assert_eq!(accounts[1].tokens, 0);
    assert_eq!(accounts[2].tokens, 20);
}

#[test]
fn a_call_that_names_no_two_accounts_is_refused() {
    let mut accounts = list();
    for call in [
        Call::Transfer { from: 0, to: 0, amount: 1 },
        Call::Transfer { from: 0, to: 3, amount: 1 },
        Call::Transfer { from: 3, to: 0, amount: 1 },
        Call::TransferTokens { from: 0, to: 1, authority: 3, amount: 1 },
        Call::Write { target: 3, data: vec![] },
        Call::CloseRecord { record: 1, destination: 1 },
        Call::WithdrawOwned { from: 2, to: 2, amount: 0 },
        Call::CreateAssociatedHolding { payer: 0, holding: 2, holder: 3, asset: 1 },
    ] {
        assert_eq!(apply(&env(), &mut accounts, &call), Err(CustodyError::TransferFailed));
    }
    assert_eq!(accounts, list());
}

#[test]
fn a_refused_call_undoes_the_calls_before_it() {
    let mut accounts = list();
    let calls = vec![
        Call::Transfer { from: 0, to: 1, amount: 400 },
        Call::Transfer { from: 0, to: 2, amount: 601 },
    ];
    assert_eq!(run(&env(), &mut accounts, &calls), Err(CustodyError::TransferFailed));
    assert_eq!(accounts, list());
    let calls = vec![
        Call::Transfer { from: 0, to: 1, amount: 400 },
        Call::Transfer { from: 0, to: 2, amount: 600 },
    ];
    assert_eq!(run(&env(), &mut accounts, &calls), Ok(()));
    assert_eq!(accounts[0].lamports, 0);
    assert_eq!(accounts[1].lamports, 405);
    assert_eq!(accounts[2].lamports, 600);
    assert_eq!(run(&env(), &mut accounts, &Vec::new()), Ok(()));
}

#[test]
fn storage_is_created_and_written() {
    let mut seeds = vec![b"record".to_vec()];
    let (at, bump) = derive_address(&seeds, &addr(0x22)).unwrap();
    seeds.push(vec![bump]);
    let mut accounts = list();
    accounts[2].address = at;
    let calls = vec![
        Call::CreateStorage {
            payer: 0,
            target: 2,
            deposit: 100,
            size: 3,
            owner: addr(0x22),
            signer_seeds: Some(seeds.clone()),
        },
        Call::Write { target: 2, data: vec![7, 8, 9] },
    ];
    assert_eq!(run(&env(), &mut accounts, &calls), Ok(()));
    assert_eq!(accounts[2].data, vec![7, 8, 9]);
    assert_eq!(accounts[2].owner, addr(0x22));
    assert_eq!(accounts[2].lamports, 100);
    assert_eq!(accounts[0].lamports, 900);
    assert_eq!(
        apply(&env(), &mut accounts, &Call::Write { target: 2, data: vec![1, 2] }),
        Err(CustodyError::TransferFailed)
    );
    assert_eq!(
        apply(&env(), &mut accounts, &Call::Write { target: 1, data: vec![] }),
        Err(CustodyError::TransferFailed)
    );
    assert_eq!(
        apply(&env(), &mut accounts, &Call::CloseRecord { record: 2, destination: 0 }),
        Ok(())
    );
    assert_eq!(accounts[0].lamports, 1000);
    assert!(accounts[2].data.is_empty());
    let mut unsigned = list();
    let create = Call::CreateStorage {
        payer: 0,
        target: 2,
        deposit: 100,
        size: 3,
        owner: addr(0x22),
        signer_seeds: None,
    };
    assert_eq!(apply(&env(), &mut unsigned, &create), Err(CustodyError::TransferFailed));
    unsigned[2].is_signer = true;
    assert_eq!(apply(&env(), &mut unsigned, &create), Ok(()));
}

#[test]
fn signed_calls_need_the_seeds_of_the_authority() {
    let mut seeds = vec![b"vault".to_vec()];
    let (at, bump) = derive_address(&seeds, &addr(0x22)).unwrap();
    seeds.push(vec![bump]);
    let mut accounts = list();
    accounts[1].address = at;
    let signed = Call::TransferSigned { from: 1, to: 0, amount: 5, seeds: seeds.clone() };
    assert_eq!(apply(&env(), &mut accounts, &signed), Ok(()));
    assert_eq!(accounts[0].lamports, 1005);
    let wrong = Call::TransferSigned { from: 2, to: 0, amount: 0, seeds: seeds.clone() };
    assert_eq!(apply(&env(), &mut accounts, &wrong), Err(CustodyError::TransferFailed));
    let tokens = Call::TransferTokensSigned {
        from: 0,
        to: 2,
        authority: 1,
        amount: 10,
        seeds: seeds.clone(),
    };
    assert_eq!(apply(&env(), &mut accounts, &tokens), Ok(()));
    assert_eq!(accounts[2].tokens, 10);
    let close = Call::CloseHolding { holding: 0, destination: 2, authority: 1, seeds };
    assert_eq!(apply(&env(), &mut accounts, &close), Ok(()));
    assert_eq!(accounts[2].lamports, 1005);
    assert_eq!(accounts[0].lamports, 0);
}

#[test]
fn writing_and_copying() {
    let mut target = account(1, false, 0, 0);
    target.owner = addr(0x22);
    target.data = vec![0, 0];
    assert_eq!(overwrite(&mut target, &vec![4, 5], &env()), Ok(()));
    assert_eq!(target.data, vec![4, 5]);
    assert_eq!(overwrite(&mut target, &vec![4], &env()), Err(CustodyError::TransferFailed));
    target.is_writable = false;
    assert_eq!(overwrite(&mut target, &vec![6, 7], &env()), Err(CustodyError::TransferFailed));
    assert_eq!(target.data, vec![4, 5]);
    assert_eq!(copy_of(&list()), list());
}
