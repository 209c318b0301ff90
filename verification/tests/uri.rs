use multiasset::types::{AccountId, Id, Key};
use multiasset::uri::{bytes_of, push_decimal, push_id};
use multiasset::MultiAssetData;

fn decimal(n: u128) -> Vec<u8> {
    let mut out = Vec::new();
    push_decimal(&mut out, n);
    out
}

#[test]
fn decimal_digits() {
    assert_eq!(decimal(0), b"0".to_vec());
    assert_eq!(decimal(7), b"7".to_vec());
    assert_eq!(decimal(10), b"10".to_vec());
    assert_eq!(decimal(1_000_000), b"1000000".to_vec());
    assert_eq!(decimal(u64::MAX as u128), b"18446744073709551615".to_vec());
    assert_eq!(decimal(u128::MAX), b"340282366920938463463374607431768211455".to_vec());
}

#[test]
fn decimal_is_appended() {
    let mut out = b"ab".to_vec();
    push_decimal(&mut out, 305);
    assert_eq!(out, b"ab305".to_vec());
}

#[test]
fn id_as_text() {
    let mut out = Vec::new();
    push_id(&mut out, &Id::U8(255));
    push_id(&mut out, &Id::U16(0));
    push_id(&mut out, &Id::Bytes(b"-pet-".to_vec()));
    push_id(&mut out, &Id::U128(12));
    assert_eq!(out, b"2550-pet-12".to_vec());
}

#[test]
fn bytes_of_text() {
    assert_eq!(bytes_of("ipfs://a/"), b"ipfs://a/".to_vec());
    assert_eq!(bytes_of(""), Vec::<u8>::new());
}

fn with_uris() -> MultiAssetData {
    let mut data = MultiAssetData::new();
    assert_eq!(data.set_bad_uri(true, b"bad/".to_vec()), Ok(()));
    assert_eq!(data.set_normal_uri(true, b"normal/".to_vec()), Ok(()));
    assert_eq!(data.set_good_uri(true, b"good/".to_vec()), Ok(()));
    data
}

#[test]
fn token_uri_joins_condition_and_id() {
    let owner = Some(AccountId([1; 32]));
    let mut data = with_uris();
    assert_eq!(data.token_uri(1_000, Id::U64(42)), b"bad/42".to_vec());

    assert_eq!(data.set_last_eaten(Id::U64(42), 1_000), Ok(()));
    assert_eq!(data.set_status(owner, Id::U64(42), 0, 100, 100), Ok(()));
    assert_eq!(data.token_uri(1_000, Id::U64(42)), b"good/42".to_vec());
    assert_eq!(data.token_uri(1_000 + 4 * 60_000, Id::U64(42)), b"normal/42".to_vec());
    assert_eq!(data.token_uri(1_000 + 20 * 60_000, Id::U64(42)), b"bad/42".to_vec());
    assert_eq!(data.token_uri(1_000, Id::U32(42)), b"bad/42".to_vec());
}

#[test]
fn token_uri_for_each_kind_of_id() {
    let data = with_uris();
    assert_eq!(data.token_uri(5, Id::U8(0)), b"bad/0".to_vec());
    assert_eq!(data.token_uri(5, Id::U16(65_535)), b"bad/65535".to_vec());
    assert_eq!(data.token_uri(5, Id::U32(4_294_967_295)), b"bad/4294967295".to_vec());
    assert_eq!(
        data.token_uri(5, Id::U128(1 << 100)),
        b"bad/1267650600228229401496703205376".to_vec()
    );
    assert_eq!(data.token_uri(5, Id::Bytes(b"tama".to_vec())), b"bad/tama".to_vec());
    assert_eq!(data.token_uri(5, Id::Bytes(vec![])), b"bad/".to_vec());
}

#[test]
fn ids_of_different_kinds_are_different_keys() {
    assert!(Id::U8(1).same(&Id::U8(1)));
    assert!(!Id::U8(1).same(&Id::U16(1)));
    assert!(!Id::U8(1).same(&Id::U8(2)));
    assert!(Id::Bytes(vec![1, 2]).same(&Id::Bytes(vec![1, 2])));
    assert!(!Id::Bytes(vec![1, 2]).same(&Id::Bytes(vec![1, 2, 3])));
    assert!(!Id::Bytes(vec![1, 2]).same(&Id::Bytes(vec![1, 3])));
    assert!(!Id::Bytes(vec![1]).same(&Id::U8(1)));
    assert_eq!(Id::Bytes(vec![4, 5]).duplicate(), Id::Bytes(vec![4, 5]));
    assert_eq!(Id::U128(9).duplicate(), Id::U128(9));
    let mut other = [7u8; 32];
    other[31] = 8;
    assert!(AccountId([7; 32]).same(&AccountId([7; 32])));
    assert!(!AccountId([7; 32]).same(&AccountId(other)));
}
