use solana_program::pubkey::Pubkey;
use spot_surf::address::{derive_address, same_as_derived, verify, Address};

fn program() -> Address {
    Address::new([7u8; 32])
}

#[test]
fn derive_gives_what_the_host_library_gives() {
    let payer = [3u8; 32];
    let seeds = vec![payer.to_vec()];
    let (key, nonce) =
        Pubkey::find_program_address(&[&payer[..]], &Pubkey::new_from_array([7u8; 32]));
    assert_eq!(derive_address(&seeds, &program()), Some((Address::new(key.to_bytes()), nonce)));
}

#[test]
fn derive_twice_gives_the_same_address() {
    let seeds = vec![vec![1u8, 2, 3], b"reply".to_vec()];
    let first = derive_address(&seeds, &program());
    let second = derive_address(&seeds, &program());
    assert!(first.is_some());
    assert_eq!(first, second);
}

#[test]
fn derive_depends_on_seeds_and_owner() {
    let a = derive_address(&vec![vec![1u8]], &program()).unwrap();
    let b = derive_address(&vec![vec![2u8]], &program()).unwrap();
    let c = derive_address(&vec![vec![1u8]], &Address::new([8u8; 32])).unwrap();
    assert_ne!(a.0, b.0);
    assert_ne!(a.0, c.0);
}

#[test]
fn derive_refuses_a_seed_that_is_too_long() {
    assert_eq!(derive_address(&vec![vec![0u8; 33]], &program()), None);
}

#[test]
fn derive_refuses_sixteen_seeds() {
    let seeds: Vec<Vec<u8>> = (0..16).map(|i| vec![i as u8]).collect();
    assert_eq!(derive_address(&seeds, &program()), None);
}

#[test]
fn verify_accepts_the_derived_address_only() {
    let seeds = vec![vec![9u8; 32]];
    let (address, _) = derive_address(&seeds, &program()).unwrap();
    assert!(verify(&address, &seeds, &program()));
    assert!(!verify(&Address::new([9u8; 32]), &seeds, &program()));
    assert!(!verify(&address, &vec![vec![8u8; 32]], &program()));
}

#[test]
fn nothing_is_the_same_as_a_failed_derivation() {
    assert!(!same_as_derived(&Address::new([0u8; 32]), &None));
    assert!(same_as_derived(&Address::new([4u8; 32]), &Some((Address::new([4u8; 32]), 255))));
    assert!(!same_as_derived(&Address::new([4u8; 32]), &Some((Address::new([5u8; 32]), 255))));
}

#[test]
fn addresses_are_compared_byte_by_byte() {
    let mut bytes = [1u8; 32];
    let a = Address::new(bytes);
    bytes[31] = 2;
    let b = Address::new(bytes);
    assert!(a.same(&a));
    assert!(!a.same(&b));
    assert_eq!(a.to_vec(), vec![1u8; 32]);
}

#[test]
fn an_address_is_read_from_the_middle_of_a_buffer() {
    let mut buffer = vec![0u8; 3];
    buffer.extend_from_slice(&[5u8; 32]);
    buffer.push(9);
    assert_eq!(Address::read(&buffer, 3), Some(Address::new([5u8; 32])));
    assert_eq!(Address::read(&buffer, 5), None);
    assert_eq!(Address::read(&buffer, 100), None);
}
