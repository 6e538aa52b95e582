use blueshift_escrow::address::{
    derive_address, derive_address_with_bump, program_address_of, push_address, read_address,
    Address,
};

fn program() -> Address {
    Address::new_from_array([7u8; 32])
}

fn seeds() -> Vec<Vec<u8>> {
    vec![b"vault".to_vec(), vec![9u8; 32]]
}

#[test]
fn derive_agrees_with_the_address_crate() {
    let parts: Vec<Vec<u8>> = seeds();
    let refs: Vec<&[u8]> = parts.iter().map(|s| s.as_slice()).collect();
    let expected = solana_address::Address::try_find_program_address(
        &refs,
        &solana_address::Address::new_from_array([7u8; 32]),
    );
    let (expected_address, expected_bump) = expected.unwrap();
    let (address, bump) = derive_address(&parts, &program()).unwrap();
    assert_eq!(address.to_bytes(), expected_address.to_bytes());
    assert_eq!(bump, expected_bump);
}

#[test]
fn derive_is_a_function_of_its_inputs() {
    let first = derive_address(&seeds(), &program());
    let second = derive_address(&seeds(), &program());
    assert!(first.is_some());
    assert_eq!(first, second);
}

#[test]
fn derived_address_is_neither_seed_nor_program() {
    let (address, _) = derive_address(&seeds(), &program()).unwrap();
    assert_ne!(address, program());
    assert_ne!(address.to_bytes(), [9u8; 32]);
}

#[test]
fn derived_address_has_no_private_key() {
    let (address, _) = derive_address(&seeds(), &program()).unwrap();
    let outside = solana_address::Address::new_from_array(address.to_bytes());
    assert!(!outside.is_on_curve());
}

#[test]
fn replay_form_finds_what_search_form_found() {
    let (address, bump) = derive_address(&seeds(), &program()).unwrap();
    assert_eq!(derive_address_with_bump(&seeds(), bump, &program()), Some(address));
}

#[test]
fn replay_form_with_another_bump_gives_another_address() {
    let (address, bump) = derive_address(&seeds(), &program()).unwrap();
    let other = derive_address_with_bump(&seeds(), bump.wrapping_sub(1), &program());
    assert_ne!(other, Some(address));
}

#[test]
fn other_seeds_give_another_address() {
    let (first, _) = derive_address(&seeds(), &program()).unwrap();
    let changed: Vec<Vec<u8>> = vec![b"vault".to_vec(), vec![8u8; 32]];
    let (second, _) = derive_address(&changed, &program()).unwrap();
    assert_ne!(first, second);
}

#[test]
fn another_program_gives_another_address() {
    let (first, _) = derive_address(&seeds(), &program()).unwrap();
    let (second, _) = derive_address(&seeds(), &Address::new_from_array([6u8; 32])).unwrap();
    assert_ne!(first, second);
}

#[test]
fn too_long_a_seed_derives_nothing() {
    let long: Vec<Vec<u8>> = vec![vec![1u8; 33]];
    assert_eq!(derive_address(&long, &program()), None);
    assert_eq!(program_address_of(&long, &program()), None);
    assert_eq!(derive_address_with_bump(&long, 255, &program()), None);
}

#[test]
fn too_many_seeds_derive_nothing() {
    let many: Vec<Vec<u8>> = vec![vec![1u8]; 17];
    assert_eq!(program_address_of(&many, &program()), None);
    let sixteen: Vec<Vec<u8>> = vec![vec![1u8]; 16];
    assert_eq!(derive_address(&sixteen, &program()), None);
}

#[test]
fn program_address_of_agrees_with_the_address_crate() {
    let (address, bump) = derive_address(&seeds(), &program()).unwrap();
    let mut full = seeds();
    full.push(vec![bump]);
    assert_eq!(program_address_of(&full, &program()), Some(address));
    let refs: Vec<&[u8]> = full.iter().map(|s| s.as_slice()).collect();
    let outside = solana_address::Address::create_program_address(
        &refs,
        &solana_address::Address::new_from_array([7u8; 32]),
    )
    .unwrap();
    assert_eq!(outside.to_bytes(), address.to_bytes());
}

#[test]
fn address_equality_is_by_bytes() {
    let a = Address::new_from_array([1u8; 32]);
    let b = Address::new_from_array([1u8; 32]);
    let mut other = [1u8; 32];
    other[31] = 2;
    let c = Address::new_from_array(other);
    assert!(a.same(&b));
    assert!(!a.same(&c));
    assert_eq!(a.to_vec(), vec![1u8; 32]);
}

#[test]
fn addresses_are_read_and_written_in_place() {
    let mut buffer: Vec<u8> = vec![0xAA];
    let mut bytes = [0u8; 32];
    for i in 0..32 {
        bytes[i] = i as u8;
    }
    push_address(&mut buffer, &Address::new_from_array(bytes));
    assert_eq!(buffer.len(), 33);
    assert_eq!(buffer[0], 0xAA);
    assert_eq!(buffer[1], 0);
    assert_eq!(buffer[32], 31);
    assert_eq!(read_address(&buffer, 1), Address::new_from_array(bytes));
}

#[test]
fn the_search_takes_the_largest_bump_that_derives() {
    for tag in [&b"vault"[..], &b"escrow"[..], &b"a"[..], &b"token_vault"[..], &b"seeds"[..]] {
        let parts: Vec<Vec<u8>> = vec![tag.to_vec(), vec![3u8; 32]];
        let (address, bump) = derive_address(&parts, &program()).unwrap();
        assert!(bump >= 1);
        assert_eq!(derive_address_with_bump(&parts, bump, &program()), Some(address));
        for higher in (bump as u16 + 1)..=255 {
            assert_eq!(derive_address_with_bump(&parts, higher as u8, &program()), None);
        }
    }
}
