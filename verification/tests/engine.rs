use name_service::address::Address;
use name_service::error::RegistryError;
use name_service::instruction::AccountMeta;
use name_service::processor::{
    create_record, load_header, process_create, process_delete, process_transfer, process_update, ParentContext,
    RecordAccount,
};
use name_service::state::{get_seeds_and_key, NameRecordHeader};

fn addr(b: u8) -> Address {
    Address::new_from_array([b; 32])
}

fn signer(b: u8) -> AccountMeta {
    AccountMeta { pubkey: addr(b), is_signer: true, is_writable: false }
}

fn bystander(b: u8) -> AccountMeta {
    AccountMeta { pubkey: addr(b), is_signer: false, is_writable: false }
}

/// Storage of a record with the given parent, owner and class and `space` data bytes of 0xee.
fn record(parent: u8, owner: u8, class: u8, space: usize) -> Vec<u8> {
    let mut storage = NameRecordHeader { parent_name: addr(parent), owner: addr(owner), class: addr(class) }.pack();
    storage.extend(std::iter::repeat(0xee).take(space));
    storage
}

#[test]
fn create_without_class_and_parent_makes_the_record() {
    let program = addr(11);
    let hashed_name = vec![42u8; 32];
    let (target, _) = get_seeds_and_key(&program, hashed_name.clone(), None, None);
    let created =
        process_create(&program, hashed_name, 1000, 50, &signer(1), &target, &addr(2), None, None, None).unwrap();
    assert_eq!(created.lamports, 1000);
    assert_eq!(created.data.len(), 96 + 50);
    assert_eq!(
        load_header(&created.data),
        Ok(NameRecordHeader { parent_name: addr(0), owner: addr(2), class: addr(0) })
    );
    assert_eq!(&created.data[96..], &[0u8; 50]);
}

#[test]
fn create_at_another_address_is_a_mismatch() {
    let program = addr(11);
    let r = process_create(&program, vec![42u8; 32], 1000, 50, &signer(1), &addr(77), &addr(2), None, None, None);
    assert_eq!(r, Err(RegistryError::AddressMismatch));
    // the address of another name does not fit either
    let (other, _) = get_seeds_and_key(&program, vec![43u8; 32], None, None);
    let r = process_create(&program, vec![42u8; 32], 1000, 50, &signer(1), &other, &addr(2), None, None, None);
    assert_eq!(r, Err(RegistryError::AddressMismatch));
}

#[test]
fn create_needs_the_payers_signature() {
    let program = addr(11);
    let (target, _) = get_seeds_and_key(&program, vec![42u8; 32], None, None);
    let r = process_create(&program, vec![42u8; 32], 1000, 50, &bystander(1), &target, &addr(2), None, None, None);
    assert_eq!(r, Err(RegistryError::Unauthorized));
}

#[test]
fn create_with_class_needs_its_signature() {
    let program = addr(11);
    let class_key = addr(5);
    let (target, _) = get_seeds_and_key(&program, vec![42u8; 32], Some(&class_key), None);
    let r = process_create(
        &program, vec![42u8; 32], 1, 4, &signer(1), &target, &addr(2), Some(&bystander(5)), None, None,
    );
    assert_eq!(r, Err(RegistryError::Unauthorized));
    let created = process_create(
        &program, vec![42u8; 32], 1, 4, &signer(1), &target, &addr(2), Some(&signer(5)), None, None,
    )
    .unwrap();
    assert_eq!(created.data, {
        let mut d = NameRecordHeader { parent_name: addr(0), owner: addr(2), class: addr(5) }.pack();
        d.extend_from_slice(&[0u8; 4]);
        d
    });
}

#[test]
fn create_under_a_parent_needs_the_parent_owners_signature() {
    let program = addr(11);
    let parent = RecordAccount { key: addr(30), data: record(0, 31, 0, 0) };
    let (target, _) = get_seeds_and_key(&program, vec![42u8; 32], None, Some(&parent.key));
    let go = |parent_owner: Option<&AccountMeta>| {
        process_create(&program, vec![42u8; 32], 1, 0, &signer(1), &target, &addr(2), None, Some(&parent), parent_owner)
    };
    assert_eq!(go(None), Err(RegistryError::Unauthorized));
    assert_eq!(go(Some(&bystander(31))), Err(RegistryError::Unauthorized));
    assert_eq!(go(Some(&signer(32))), Err(RegistryError::Unauthorized));
    let created = go(Some(&signer(31))).unwrap();
    assert_eq!(created.data, NameRecordHeader { parent_name: addr(30), owner: addr(2), class: addr(0) }.pack());
}

#[test]
fn create_record_checks_authority_before_the_address() {
    let r = create_record(None, &addr(1), &addr(2), 0, 0, &bystander(1), None, None, None);
    assert_eq!(r, Err(RegistryError::Unauthorized));
    let r = create_record(None, &addr(1), &addr(2), 0, 0, &signer(1), None, None, None);
    assert_eq!(r, Err(RegistryError::AddressMismatch));
    let r = create_record(Some(&addr(1)), &addr(1), &addr(2), 9, 0, &signer(1), None, None, None).unwrap();
    assert_eq!(r.lamports, 9);
}

#[test]
fn update_by_class_alone() {
    let mut storage = record(0, 2, 3, 10);
    let r = process_update(&mut storage, &signer(3), None, 0, &vec![1, 2, 3]);
    assert_eq!(r, Ok(()));
    assert_eq!(&storage[96..99], &[1, 2, 3]);
    assert_eq!(&storage[99..], &[0xee; 7]);
    assert_eq!(&storage[..96], &record(0, 2, 3, 0)[..]);
}

#[test]
fn update_by_owner_at_an_offset() {
    let mut storage = record(0, 2, 0, 10);
    assert_eq!(process_update(&mut storage, &signer(2), None, 7, &vec![1, 2, 3]), Ok(()));
    assert_eq!(&storage[96..], &[0xee, 0xee, 0xee, 0xee, 0xee, 0xee, 0xee, 1, 2, 3]);
}

#[test]
fn update_by_parent_owner() {
    let parent = RecordAccount { key: addr(30), data: record(0, 31, 0, 0) };
    let mut storage = record(30, 2, 0, 4);
    assert_eq!(process_update(&mut storage, &signer(31), Some(&parent), 1, &vec![5]), Ok(()));
    assert_eq!(&storage[96..], &[0xee, 5, 0xee, 0xee]);
}

#[test]
fn update_with_another_parent_is_an_account_mismatch() {
    let parent = RecordAccount { key: addr(40), data: record(0, 31, 0, 0) };
    let mut storage = record(30, 2, 0, 4);
    let before = storage.clone();
    assert_eq!(
        process_update(&mut storage, &signer(31), Some(&parent), 1, &vec![5]),
        Err(RegistryError::AccountMismatch)
    );
    assert_eq!(storage, before);
    // the owner's own signature settles it before the parent is looked at
    assert_eq!(process_update(&mut storage, &signer(2), Some(&parent), 1, &vec![5]), Ok(()));
}

#[test]
fn update_without_authority_is_unauthorized() {
    let parent = RecordAccount { key: addr(30), data: record(0, 31, 0, 0) };
    let empty_parent = RecordAccount { key: addr(30), data: vec![] };
    let mut storage = record(30, 2, 3, 4);
    let before = storage.clone();
    assert_eq!(process_update(&mut storage, &bystander(2), None, 0, &vec![1]), Err(RegistryError::Unauthorized));
    assert_eq!(process_update(&mut storage, &bystander(3), None, 0, &vec![1]), Err(RegistryError::Unauthorized));
    assert_eq!(process_update(&mut storage, &signer(9), None, 0, &vec![1]), Err(RegistryError::Unauthorized));
    assert_eq!(process_update(&mut storage, &signer(31), None, 0, &vec![1]), Err(RegistryError::Unauthorized));
    assert_eq!(
        process_update(&mut storage, &bystander(31), Some(&parent), 0, &vec![1]),
        Err(RegistryError::Unauthorized)
    );
    assert_eq!(
        process_update(&mut storage, &signer(31), Some(&empty_parent), 0, &vec![1]),
        Err(RegistryError::Unauthorized)
    );
    assert_eq!(storage, before);
}

#[test]
fn update_of_a_record_without_class_ignores_the_zero_class() {
    let mut storage = record(0, 2, 0, 4);
    assert_eq!(process_update(&mut storage, &signer(0), None, 0, &vec![1]), Err(RegistryError::Unauthorized));
}

#[test]
fn update_of_missing_record() {
    let mut short = vec![0u8; 95];
    assert_eq!(process_update(&mut short, &signer(2), None, 0, &vec![]), Err(RegistryError::InvalidHeader));
    let mut blank = vec![0u8; 120];
    assert_eq!(process_update(&mut blank, &signer(0), None, 0, &vec![]), Err(RegistryError::Unauthorized));
    assert_eq!(blank, vec![0u8; 120]);
}

#[test]
fn update_past_the_data_region_is_out_of_space() {
    let mut storage = record(0, 2, 0, 10);
    let before = storage.clone();
    assert_eq!(process_update(&mut storage, &signer(2), None, 8, &vec![1, 2, 3]), Err(RegistryError::OutOfSpace));
    assert_eq!(process_update(&mut storage, &signer(2), None, 11, &vec![]), Err(RegistryError::OutOfSpace));
    assert_eq!(process_update(&mut storage, &signer(2), None, u32::MAX, &vec![1]), Err(RegistryError::OutOfSpace));
    assert_eq!(process_update(&mut storage, &signer(2), None, 0, &vec![1; 11]), Err(RegistryError::OutOfSpace));
    assert_eq!(storage, before);
    // up to the last byte is fine
    assert_eq!(process_update(&mut storage, &signer(2), None, 7, &vec![1, 2, 3]), Ok(()));
    assert_eq!(process_update(&mut storage, &signer(2), None, 10, &vec![]), Ok(()));
}

#[test]
fn rejected_update_replays_to_the_same_rejection() {
    let mut storage = record(0, 2, 0, 10);
    let first = process_update(&mut storage, &signer(2), None, 8, &vec![1, 2, 3]);
    let second = process_update(&mut storage, &signer(2), None, 8, &vec![1, 2, 3]);
    assert_eq!(first, Err(RegistryError::OutOfSpace));
    assert_eq!(first, second);
    let first = process_update(&mut storage, &signer(9), None, 0, &vec![1]);
    let second = process_update(&mut storage, &signer(9), None, 0, &vec![1]);
    assert_eq!(first, Err(RegistryError::Unauthorized));
    assert_eq!(first, second);
}

#[test]
fn transfer_with_class_needs_owner_and_class() {
    let mut storage = record(0, 2, 3, 4);
    let before = storage.clone();
    assert_eq!(process_transfer(&mut storage, &signer(2), None, None, &addr(9)), Err(RegistryError::Unauthorized));
    assert_eq!(
        process_transfer(&mut storage, &signer(2), Some(&bystander(3)), None, &addr(9)),
        Err(RegistryError::Unauthorized)
    );
    assert_eq!(
        process_transfer(&mut storage, &signer(2), Some(&signer(4)), None, &addr(9)),
        Err(RegistryError::Unauthorized)
    );
    assert_eq!(storage, before);
    assert_eq!(process_transfer(&mut storage, &signer(2), Some(&signer(3)), None, &addr(9)), Ok(()));
    assert_eq!(storage, record(0, 9, 3, 4));
}

#[test]
fn transfer_by_owner() {
    let mut storage = record(30, 2, 0, 4);
    assert_eq!(process_transfer(&mut storage, &bystander(2), None, None, &addr(9)), Err(RegistryError::Unauthorized));
    assert_eq!(process_transfer(&mut storage, &signer(5), None, None, &addr(9)), Err(RegistryError::Unauthorized));
    assert_eq!(process_transfer(&mut storage, &signer(2), None, None, &addr(9)), Ok(()));
    assert_eq!(storage, record(30, 9, 0, 4));
    // the former owner has no say any more
    assert_eq!(process_transfer(&mut storage, &signer(2), None, None, &addr(2)), Err(RegistryError::Unauthorized));
}

#[test]
fn transfer_with_parent_context() {
    let mut storage = record(30, 2, 0, 4);
    let wrong = ParentContext { parent: addr(31), parent_owner: addr(50) };
    let right = ParentContext { parent: addr(30), parent_owner: addr(50) };
    assert_eq!(
        process_transfer(&mut storage, &signer(2), None, Some(&wrong), &addr(9)),
        Err(RegistryError::AccountMismatch)
    );
    assert_eq!(storage, record(30, 2, 0, 4));
    assert_eq!(
        process_transfer(&mut storage, &bystander(2), None, Some(&wrong), &addr(9)),
        Err(RegistryError::Unauthorized)
    );
    assert_eq!(process_transfer(&mut storage, &signer(2), None, Some(&right), &addr(9)), Ok(()));
    assert_eq!(storage, record(30, 9, 0, 4));
}

#[test]
fn transfer_of_missing_record() {
    let mut short = vec![1u8; 40];
    assert_eq!(process_transfer(&mut short, &signer(1), None, None, &addr(9)), Err(RegistryError::InvalidHeader));
}

#[test]
fn delete_by_owner_refunds_the_deposit() {
    let mut storage = record(30, 2, 3, 4);
    let mut deposit = 700u64;
    let mut refund = 50u64;
    assert_eq!(process_delete(&mut storage, &mut deposit, &signer(2), &mut refund), Ok(()));
    assert_eq!(storage, vec![0u8; 100]);
    assert_eq!(deposit, 0);
    assert_eq!(refund, 750);
    // the record is gone: nobody can delete it again
    assert_eq!(
        process_delete(&mut storage, &mut deposit, &signer(2), &mut refund),
        Err(RegistryError::Unauthorized)
    );
}

#[test]
fn delete_needs_the_owner() {
    let mut storage = record(30, 2, 3, 4);
    let mut deposit = 700u64;
    let mut refund = 50u64;
    assert_eq!(
        process_delete(&mut storage, &mut deposit, &signer(3), &mut refund),
        Err(RegistryError::Unauthorized)
    );
    assert_eq!(
        process_delete(&mut storage, &mut deposit, &bystander(2), &mut refund),
        Err(RegistryError::Unauthorized)
    );
    assert_eq!(storage, record(30, 2, 3, 4));
    assert_eq!((deposit, refund), (700, 50));
    let mut short = vec![0u8; 3];
    assert_eq!(
        process_delete(&mut short, &mut deposit, &signer(2), &mut refund),
        Err(RegistryError::InvalidHeader)
    );
}

#[test]
fn load_header_reads_the_first_96_bytes() {
    assert_eq!(
        load_header(&record(1, 2, 3, 20)),
        Ok(NameRecordHeader { parent_name: addr(1), owner: addr(2), class: addr(3) })
    );
    assert_eq!(load_header(&vec![0u8; 95]), Err(RegistryError::InvalidHeader));
}

#[test]
fn delete_without_the_owner_is_rejected_whatever_the_balances() {
    let mut storage = record(30, 2, 3, 4);
    let mut deposit = u64::MAX;
    let mut refund = u64::MAX;
    assert_eq!(
        process_delete(&mut storage, &mut deposit, &bystander(2), &mut refund),
        Err(RegistryError::Unauthorized)
    );
    assert_eq!(
        process_delete(&mut storage, &mut deposit, &signer(7), &mut refund),
        Err(RegistryError::Unauthorized)
    );
    assert_eq!(storage, record(30, 2, 3, 4));
    assert_eq!((deposit, refund), (u64::MAX, u64::MAX));
}

#[test]
fn update_of_the_last_byte_and_one_past_it() {
    let mut storage = record(0, 2, 0, 50);
    assert_eq!(storage.len(), 146);
    assert_eq!(process_update(&mut storage, &signer(2), None, 0, &vec![9u8; 51]), Err(RegistryError::OutOfSpace));
    assert_eq!(storage, record(0, 2, 0, 50));
    assert_eq!(process_update(&mut storage, &signer(2), None, 0, &vec![9u8; 50]), Ok(()));
    assert_eq!(&storage[96..], &[9u8; 50]);
}
