use multiasset::random::{draw, reduce_digest};

#[test]
fn draw_hashes_time_and_counter() {
    assert_eq!(draw(0, 0, 100), 42);
    assert_eq!(draw(0, 0, 255), 244);
    assert_eq!(draw(1, 0, 100), 27);
    assert_eq!(draw(1_000_000, 0, 100), 84);
    assert_eq!(draw(1_000_000, 1, 100), 23);
    assert_eq!(draw(1_000_000, 2, 100), 29);
    assert_eq!(draw(1_700_000_000_000, 7, 100), 40);
}

#[test]
fn draw_with_zero_range_is_zero() {
    assert_eq!(draw(1_000_000, 5, 0), 0);
}

#[test]
fn reduce_digest_takes_first_byte() {
    let mut digest = [0u8; 32];
    digest[0] = 244;
    digest[1] = 9;
    assert_eq!(reduce_digest(&digest, 100), 42);
    assert_eq!(reduce_digest(&digest, 255), 244);
    assert_eq!(reduce_digest(&digest, 243), 0);
}
