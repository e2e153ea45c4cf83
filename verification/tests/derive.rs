use name_service::address::Address;
use name_service::state::{
    build_seed_bytes, get_seeds_and_key, seeds_and_key_from, split_seeds, try_get_seeds_and_key,
};
use solana_program::pubkey::Pubkey;

fn program() -> Address {
    Address::new_from_array([11u8; 32])
}

#[test]
fn seed_bytes_are_name_class_parent() {
    let class = Address::new_from_array([2u8; 32]);
    let seeds = build_seed_bytes(&vec![1u8; 32], Some(&class), None);
    let mut expected = vec![1u8; 32];
    expected.extend_from_slice(&[2u8; 32]);
    expected.extend_from_slice(&[0u8; 32]);
    assert_eq!(seeds, expected);
}

#[test]
fn split_seeds_cuts_at_32() {
    assert_eq!(split_seeds(&vec![]), Vec::<Vec<u8>>::new());
    assert_eq!(split_seeds(&vec![1u8; 32]), vec![vec![1u8; 32]]);
    let mut bytes = vec![1u8; 32];
    bytes.extend_from_slice(&[2u8; 5]);
    assert_eq!(split_seeds(&bytes), vec![vec![1u8; 32], vec![2u8; 5]]);
    assert_eq!(split_seeds(&vec![3u8; 64]), vec![vec![3u8; 32], vec![3u8; 32]]);
}

#[test]
fn derivation_matches_the_ledger() {
    let hashed_name = vec![42u8; 32];
    let id = Pubkey::new_from_array([11u8; 32]);
    let zero = [0u8; 32];
    let (key, bump) = Pubkey::find_program_address(&[&hashed_name[..], &zero[..], &zero[..]], &id);
    let (address, seeds) = get_seeds_and_key(&program(), hashed_name.clone(), None, None);
    assert_eq!(address.bytes, key.to_bytes());
    let mut expected = hashed_name;
    expected.extend_from_slice(&zero);
    expected.extend_from_slice(&zero);
    expected.push(bump);
    assert_eq!(seeds, expected);
    assert_eq!(seeds.len(), 97);
    assert!(address.bytes != [11u8; 32]);
}

#[test]
fn derivation_with_class_and_parent_matches_the_ledger() {
    let hashed_name = vec![7u8; 32];
    let class = Address::new_from_array([1u8; 32]);
    let parent = Address::new_from_array([2u8; 32]);
    let id = Pubkey::new_from_array([11u8; 32]);
    let (key, bump) = Pubkey::find_program_address(&[&hashed_name[..], &[1u8; 32][..], &[2u8; 32][..]], &id);
    let (address, seeds) = try_get_seeds_and_key(&program(), hashed_name, Some(&class), Some(&parent)).unwrap();
    assert_eq!(address.bytes, key.to_bytes());
    assert_eq!(seeds[96], bump);
    assert_eq!(&seeds[32..64], &[1u8; 32]);
    assert_eq!(&seeds[64..96], &[2u8; 32]);
}

#[test]
fn derivation_is_deterministic() {
    let first = get_seeds_and_key(&program(), vec![9u8; 32], None, None);
    let second = get_seeds_and_key(&program(), vec![9u8; 32], None, None);
    assert_eq!(first, second);
}

#[test]
fn derivation_separates_names_classes_and_parents() {
    let class = Address::new_from_array([1u8; 32]);
    let base = get_seeds_and_key(&program(), vec![9u8; 32], None, None).0;
    assert!(base != get_seeds_and_key(&program(), vec![8u8; 32], None, None).0);
    assert!(base != get_seeds_and_key(&program(), vec![9u8; 32], Some(&class), None).0);
    assert!(base != get_seeds_and_key(&program(), vec![9u8; 32], None, Some(&class)).0);
}

#[test]
fn derivation_fails_with_too_many_seeds() {
    // 16 seeds and the bump byte are one more than the ledger admits
    let hashed_name = vec![0u8; 32 * 14];
    assert_eq!(try_get_seeds_and_key(&program(), hashed_name, None, None), None);
}

#[test]
fn seeds_and_key_from_appends_the_bump() {
    let key = Address::new_from_array([8u8; 32]);
    assert_eq!(seeds_and_key_from(vec![1, 2, 3], Some((key, 254))), Some((key, vec![1, 2, 3, 254])));
    assert_eq!(seeds_and_key_from(vec![], Some((key, 0))), Some((key, vec![0])));
    assert_eq!(seeds_and_key_from(vec![1, 2, 3], None), None);
}
