use blueshift_escrow::account::{Account, Environment};
use blueshift_escrow::address::{derive_address, Address};
use blueshift_escrow::error::CustodyError;
use blueshift_escrow::ledger::{
    close_holding, close_record, create_associated_holding, create_storage, holding_address,
    holding_seeds, transfer, transfer_signed, transfer_tokens, transfer_tokens_signed,
    withdraw_owned, HOLDING_LEN,
};

fn addr(byte: u8) -> Address {
    Address::new_from_array([byte; 32])
}

fn env() -> Environment {
    Environment {
        program_id: addr(0x22),
        system_program: addr(0),
        token_program: addr(0x60),
        associated_token_program: addr(0x61),
        record_deposit: 100,
        holding_deposit: 200,
    }
}

fn account(address: Address, signer: bool, lamports: u64, tokens: u64) -> Account {
    Account {
        address,
        owner: addr(0),
        is_signer: signer,
        is_writable: true,
        lamports,
        tokens,
        data: Vec::new(),
    }
}

fn seeds_for(tag: &[u8]) -> (Vec<Vec<u8>>, Address) {
    let mut seeds = vec![tag.to_vec()];
    let (at, bump) = derive_address(&seeds, &addr(0x22)).unwrap();
    seeds.push(vec![bump]);
    (seeds, at)
}

#[test]
fn transfer_moves_exactly_the_amount() {
    let mut from = account(addr(1), true, 1000, 0);
    let mut to = account(addr(2), false, 5, 0);
    assert_eq!(transfer(&mut from, &mut to, 400), Ok(()));
    assert_eq!((from.lamports, to.lamports), (600, 405));
    assert_eq!(transfer(&mut from, &mut to, 0), Ok(()));
    assert_eq!(transfer(&mut from, &mut to, 600), Ok(()));
    assert_eq!((from.lamports, to.lamports), (0, 1005));
}

#[test]
fn transfer_is_refused() {
    let mut from = account(addr(1), true, 1000, 0);
    let mut to = account(addr(2), false, 5, 0);
    assert_eq!(transfer(&mut from, &mut to, 1001), Err(CustodyError::TransferFailed));
    from.is_signer = false;
    assert_eq!(transfer(&mut from, &mut to, 1), Err(CustodyError::TransferFailed));
    from.is_signer = true;
    from.is_writable = false;
    assert_eq!(transfer(&mut from, &mut to, 1), Err(CustodyError::TransferFailed));
    from.is_writable = true;
    to.is_writable = false;
    assert_eq!(transfer(&mut from, &mut to, 1), Err(CustodyError::TransferFailed));
    to.is_writable = true;
    to.lamports = u64::MAX;
    assert_eq!(transfer(&mut from, &mut to, 1), Err(CustodyError::TransferFailed));
    assert_eq!((from.lamports, to.lamports), (1000, u64::MAX));
}

#[test]
fn transfer_signed_needs_the_seeds_of_the_source() {
    let (seeds, at) = seeds_for(b"vault");
    let mut from = account(at, false, 1000, 0);
    let mut to = account(addr(2), false, 5, 0);
    assert_eq!(transfer_signed(&mut from, &mut to, 400, &seeds, &addr(0x22)), Ok(()));
    assert_eq!((from.lamports, to.lamports), (600, 405));
    assert_eq!(
        transfer_signed(&mut from, &mut to, 1, &seeds, &addr(0x23)),
        Err(CustodyError::TransferFailed)
    );
    let (others, _) = seeds_for(b"other");
    assert_eq!(
        transfer_signed(&mut from, &mut to, 1, &others, &addr(0x22)),
        Err(CustodyError::TransferFailed)
    );
    assert_eq!(
        transfer_signed(&mut from, &mut to, 601, &seeds, &addr(0x22)),
        Err(CustodyError::TransferFailed)
    );
    assert_eq!((from.lamports, to.lamports), (600, 405));
}

#[test]
fn token_transfers() {
    let mut from = account(addr(1), false, 0, 1000);
    let mut to = account(addr(2), false, 0, 5);
    let authority = account(addr(3), true, 0, 0);
    assert_eq!(transfer_tokens(&mut from, &mut to, &authority, 400), Ok(()));
    assert_eq!((from.tokens, to.tokens), (600, 405));
    assert_eq!(
        transfer_tokens(&mut from, &mut to, &authority, 601),
        Err(CustodyError::TransferFailed)
    );
    let nobody = account(addr(3), false, 0, 0);
    assert_eq!(transfer_tokens(&mut from, &mut to, &nobody, 1), Err(CustodyError::TransferFailed));
    let (seeds, at) = seeds_for(b"escrow");
    assert_eq!(
        transfer_tokens_signed(&mut from, &mut to, &at, 600, &seeds, &addr(0x22)),
        Ok(())
    );
    assert_eq!((from.tokens, to.tokens), (0, 1005));
    assert_eq!(
        transfer_tokens_signed(&mut to, &mut from, &addr(9), 1, &seeds, &addr(0x22)),
        Err(CustodyError::TransferFailed)
    );
    to.tokens = u64::MAX;
    from.tokens = 1;
    assert_eq!(
        transfer_tokens_signed(&mut from, &mut to, &at, 1, &seeds, &addr(0x22)),
        Err(CustodyError::TransferFailed)
    );
}

#[test]
fn storage_is_created_once() {
    let (seeds, at) = seeds_for(b"record");
    let mut payer = account(addr(1), true, 1000, 0);
    let mut target = account(at, false, 0, 0);
    assert_eq!(
        create_storage(&mut payer, &mut target, 100, 3, &addr(0x22), Some(&seeds), &addr(0x22)),
        Ok(())
    );
    assert_eq!(payer.lamports, 900);
    assert_eq!(target.lamports, 100);
    assert_eq!(target.data, vec![0u8; 3]);
    assert_eq!(target.owner, addr(0x22));
    assert_eq!(
        create_storage(&mut payer, &mut target, 100, 3, &addr(0x22), Some(&seeds), &addr(0x22)),
        Err(CustodyError::TransferFailed)
    );
    assert_eq!(payer.lamports, 900);
}

#[test]
fn storage_needs_authority_over_the_target() {
    let (seeds, _) = seeds_for(b"record");
    let mut payer = account(addr(1), true, 1000, 0);
    let mut target = account(addr(5), false, 0, 0);
    assert_eq!(
        create_storage(&mut payer, &mut target, 100, 3, &addr(0x22), Some(&seeds), &addr(0x22)),
        Err(CustodyError::TransferFailed)
    );
    assert_eq!(
        create_storage(&mut payer, &mut target, 100, 3, &addr(0x22), None, &addr(0x22)),
        Err(CustodyError::TransferFailed)
    );
    target.is_signer = true;
    assert_eq!(
        create_storage(&mut payer, &mut target, 1001, 3, &addr(0x22), None, &addr(0x22)),
        Err(CustodyError::TransferFailed)
    );
    assert_eq!(
        create_storage(&mut payer, &mut target, 1000, 0, &addr(0x22), None, &addr(0x22)),
        Ok(())
    );
    assert_eq!((payer.lamports, target.lamports), (0, 1000));
}

#[test]
fn holdings_are_created_at_their_derived_address() {
    let holder = addr(7);
    let asset = addr(8);
    let at = holding_address(&addr(0x60), &addr(0x61), &holder, &asset).unwrap();
    assert_eq!(
        derive_address(&holding_seeds(&holder, &addr(0x60), &asset), &addr(0x61)).unwrap().0,
        at
    );
    assert_eq!(
        holding_seeds(&holder, &addr(0x60), &asset),
        vec![vec![7u8; 32], vec![0x60u8; 32], vec![8u8; 32]]
    );
    let mut payer = account(addr(1), true, 1000, 0);
    let mut holding = account(at, false, 0, 0);
    assert_eq!(create_associated_holding(&mut payer, &mut holding, &holder, &asset, &env()), Ok(()));
    assert_eq!(payer.lamports, 800);
    assert_eq!(holding.lamports, 200);
    assert_eq!(holding.tokens, 0);
    assert_eq!(holding.data.len(), HOLDING_LEN);
    assert_eq!(holding.owner, addr(0x60));
    let mut elsewhere = account(addr(9), false, 0, 0);
    assert_eq!(
        create_associated_holding(&mut payer, &mut elsewhere, &holder, &asset, &env()),
        Err(CustodyError::TransferFailed)
    );
    assert_eq!(
        create_associated_holding(&mut payer, &mut holding, &holder, &asset, &env()),
        Err(CustodyError::TransferFailed)
    );
    assert_eq!(payer.lamports, 800);
}

#[test]
fn closing_returns_the_deposit() {
    let (seeds, at) = seeds_for(b"escrow");
    let mut holding = account(addr(4), false, 200, 0);
    holding.data = vec![0u8; 165];
    holding.owner = addr(0x60);
    let mut destination = account(addr(1), false, 50, 0);
    holding.tokens = 1;
    assert_eq!(
        close_holding(&mut holding, &mut destination, &at, &seeds, &env()),
        Err(CustodyError::TransferFailed)
    );
    holding.tokens = 0;
    assert_eq!(
        close_holding(&mut holding, &mut destination, &addr(9), &seeds, &env()),
        Err(CustodyError::TransferFailed)
    );
    assert_eq!(close_holding(&mut holding, &mut destination, &at, &seeds, &env()), Ok(()));
    assert_eq!(destination.lamports, 250);
    assert_eq!(holding.lamports, 0);
    assert!(holding.data.is_empty());
    assert_eq!(holding.owner, addr(0));

    let mut record = account(at, false, 100, 0);
    record.data = vec![1u8; 114];
    assert_eq!(close_record(&mut record, &mut destination, &env()), Err(CustodyError::TransferFailed));
    record.owner = addr(0x22);
    assert_eq!(close_record(&mut record, &mut destination, &env()), Ok(()));
    assert_eq!(destination.lamports, 350);
    assert_eq!(record.lamports, 0);
    assert!(record.data.is_empty());
    assert_eq!(record.owner, addr(0));
}

#[test]
fn a_program_takes_value_from_its_own_accounts() {
    let mut from = account(addr(1), false, 1000, 0);
    from.owner = addr(0x22);
    let mut to = account(addr(2), false, 5, 0);
    assert_eq!(withdraw_owned(&mut from, &mut to, 400, &addr(0x22)), Ok(()));
    assert_eq!((from.lamports, to.lamports), (600, 405));
    assert_eq!(
        withdraw_owned(&mut from, &mut to, 1, &addr(0x23)),
        Err(CustodyError::TransferFailed)
    );
    assert_eq!(
        withdraw_owned(&mut from, &mut to, 601, &addr(0x22)),
        Err(CustodyError::TransferFailed)
    );
}
