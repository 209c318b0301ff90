use multiasset::economy::can_accrue;
use multiasset::errors::RmrkError;
use multiasset::guards::{ensure_exists_and_get_owner, ensure_role, ensure_token_owner};
use multiasset::lists::{contains, has_no_duplicates, permutes, position};
use multiasset::pet::{can_nourish, can_project, can_total};
use multiasset::random::push_be_bytes;
use multiasset::table::Table;
use multiasset::types::{bytes_copy, bytes_equal, AccountId, Id, Status};
use multiasset::MultiAssetData;

#[test]
fn table_keeps_the_last_value_of_each_key() {
    let mut table: Table<Id, u64> = Table::new();
    assert_eq!(table.get(&Id::U8(1)), None);
    assert!(!table.contains_key(&Id::U8(1)));
    table.insert(Id::U8(1), 10);
    table.insert(Id::U16(1), 20);
    table.insert(Id::Bytes(vec![1]), 30);
    assert_eq!(table.get(&Id::U8(1)), Some(&10));
    assert_eq!(table.get(&Id::U16(1)), Some(&20));
    assert_eq!(table.get(&Id::Bytes(vec![1])), Some(&30));
    assert_eq!(table.get(&Id::U32(1)), None);
    table.insert(Id::U16(1), 21);
    assert_eq!(table.get(&Id::U8(1)), Some(&10));
    assert_eq!(table.get(&Id::U16(1)), Some(&21));
    assert!(table.contains_key(&Id::Bytes(vec![1])));
    assert!(!table.contains_key(&Id::Bytes(vec![1, 0])));
}

#[test]
fn table_by_account() {
    let mut table: Table<AccountId, Vec<u32>> = Table::new();
    table.insert(AccountId([0; 32]), vec![1]);
    table.insert(AccountId([1; 32]), vec![2, 3]);
    table.insert(AccountId([0; 32]), vec![]);
    assert_eq!(table.get(&AccountId([0; 32])), Some(&vec![]));
    assert_eq!(table.get(&AccountId([1; 32])), Some(&vec![2, 3]));
    assert_eq!(table.get(&AccountId([2; 32])), None);
}

#[test]
fn list_search() {
    let list = vec![5, 7, 5, 9];
    assert!(contains(&list, 9));
    assert!(!contains(&list, 6));
    assert_eq!(position(&list, 5), Some(0));
    assert_eq!(position(&list, 7), Some(1));
    assert_eq!(position(&list, 9), Some(3));
    assert_eq!(position(&list, 1), None);
    assert_eq!(position(&vec![], 1), None);
}

#[test]
fn list_duplicates() {
    assert!(has_no_duplicates(&vec![]));
    assert!(has_no_duplicates(&vec![4]));
    assert!(has_no_duplicates(&vec![4, 5, 6]));
    assert!(!has_no_duplicates(&vec![4, 5, 4]));
    assert!(!has_no_duplicates(&vec![4, 5, 5]));
    assert!(!has_no_duplicates(&vec![5, 5]));
}

#[test]
fn list_permutations() {
    assert!(permutes(&vec![], &vec![]));
    assert!(permutes(&vec![1, 2, 3], &vec![1, 2, 3]));
    assert!(permutes(&vec![3, 1, 2], &vec![1, 2, 3]));
    assert!(!permutes(&vec![1, 2], &vec![1, 2, 3]));
    assert!(!permutes(&vec![1, 2, 3, 3], &vec![1, 2, 3]));
    assert!(!permutes(&vec![1, 2, 4], &vec![1, 2, 3]));
    assert!(!permutes(&vec![1, 1, 2], &vec![1, 2, 3]));
    assert!(!permutes(&vec![1], &vec![]));
}

#[test]
fn byte_strings() {
    assert!(bytes_equal(&vec![], &vec![]));
    assert!(bytes_equal(&vec![1, 2], &vec![1, 2]));
    assert!(!bytes_equal(&vec![1, 2], &vec![1]));
    assert!(!bytes_equal(&vec![1, 2], &vec![2, 1]));
    assert_eq!(bytes_copy(&vec![9, 8, 7]), vec![9, 8, 7]);
    assert_eq!(bytes_copy(&vec![]), Vec::<u8>::new());
}

#[test]
fn big_endian_bytes() {
    let mut out = vec![0xff];
    push_be_bytes(&mut out, 0x0102_0304_0506_0708);
    assert_eq!(out, vec![0xff, 1, 2, 3, 4, 5, 6, 7, 8]);
    let mut out = Vec::new();
    push_be_bytes(&mut out, u64::MAX);
    push_be_bytes(&mut out, 0);
    push_be_bytes(&mut out, 1_000_000);
    assert_eq!(out[..8], [0xff; 8]);
    assert_eq!(out[8..16], [0; 8]);
    assert_eq!(out[16..], 1_000_000u64.to_be_bytes());
}

#[test]
fn guards_one_by_one() {
    let alice = AccountId([1; 32]);
    let bob = AccountId([2; 32]);
    assert_eq!(ensure_exists_and_get_owner(Some(alice)), Ok(alice));
    assert_eq!(ensure_exists_and_get_owner(None), Err(RmrkError::TokenNotExists));
    assert_eq!(ensure_token_owner(alice, alice), Ok(()));
    assert_eq!(ensure_token_owner(bob, alice), Err(RmrkError::NotTokenOwner));
    assert_eq!(ensure_role(true), Ok(()));
    assert_eq!(ensure_role(false), Err(RmrkError::MissingRole));
}

#[test]
fn testers_of_the_bounds() {
    let status = Status { hungry: 5, health: u32::MAX - 30, happy: 0 };
    assert!(can_project(status, 0, 0));
    assert!(can_project(status, 7, 7));
    assert!(!can_project(status, 8, 7));
    assert!(can_project(status, 1, 1 + 858_993_458 * 60_000));
    assert!(!can_project(status, 1, 1 + 858_993_459 * 60_000));
    assert!(can_nourish(status, 30));
    assert!(!can_nourish(status, 31));
    assert!(can_total(status));
    assert!(can_total(Status { hungry: 9, health: 4, happy: 4 }));
    assert!(can_total(Status { hungry: 1, health: u32::MAX, happy: 1 }));
    assert!(!can_total(Status { hungry: 0, health: u32::MAX, happy: 1 }));

    assert!(can_accrue(0, 9, 1));
    assert!(can_accrue(100, 0, 1));
    assert!(can_accrue(100, 5, 5));
    assert!(!can_accrue(100, 6, 5));
    assert!(can_accrue(u64::MAX, 1, 10_000));
    assert!(!can_accrue(u64::MAX, 1, 1_000_001));
    assert!(can_accrue(u64::MAX / 2, 1, 1_000_001));
    assert!(!can_accrue(u64::MAX / 2, 1, 1_030_001));
}

#[test]
fn testers_on_the_state() {
    let alice = AccountId([1; 32]);
    let pet = Id::U64(1);
    let mut data = MultiAssetData::default();
    assert_eq!(data.salt(), 0);
    assert!(data.can_read_status(0, &pet));
    assert!(data.can_read_stake(0, alice));
    assert_eq!(data.set_last_eaten(pet.clone(), 100), Ok(()));
    assert!(!data.can_read_status(99, &pet));
    assert!(data.can_read_status(100, &pet));
    assert_eq!(data.set_status(Some(alice), pet.clone(), u32::MAX, 0, 0), Ok(()));
    assert!(data.can_read_status(60_099, &pet));
    assert!(!data.can_read_status(60_100, &pet));

    assert_eq!(data.set_your_money(alice, 10), Ok(()));
    assert_eq!(data.stake_your_money(500, alice, 10), Ok(()));
    assert!(!data.can_read_stake(499, alice));
    assert!(data.can_read_stake(500, alice));
    assert_eq!(data.set_your_apple(alice, 1), Ok(()));
    assert_eq!(data.eat_an_apple(400_000, Id::U8(0), alice), Ok(()));
    assert_eq!(data.salt(), 1);
}
