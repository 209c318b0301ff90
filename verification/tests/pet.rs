use multiasset::errors::RmrkError;
use multiasset::pet::{can_serve, nourish, project_status, serve, tier_of, total_of};
use multiasset::types::{AccountId, Id, Status};
use multiasset::MultiAssetData;

fn alice() -> AccountId {
    AccountId([1; 32])
}

fn bob() -> AccountId {
    AccountId([2; 32])
}

fn pet() -> Id {
    Id::U64(1)
}

fn status(hungry: u32, health: u32, happy: u32) -> Status {
    Status { hungry, health, happy }
}

#[test]
fn projection_of_a_pet_that_never_ate_is_zero() {
    assert_eq!(project_status(status(10, 100, 100), 0, 5_000_000), status(0, 0, 0));
    assert_eq!(project_status(status(10, 100, 100), 0, 0), status(0, 0, 0));
}

#[test]
fn projection_decays_by_five_per_full_minute() {
    let stored = status(10, 100, 90);
    assert_eq!(project_status(stored, 60_000, 60_000), stored);
    assert_eq!(project_status(stored, 60_000, 119_999), stored);
    assert_eq!(project_status(stored, 60_000, 120_000), status(15, 95, 85));
    assert_eq!(project_status(stored, 60_000, 60_000 + 3 * 60_000 + 59_999), status(25, 85, 75));
    assert_eq!(project_status(stored, 60_000, 60_000 + 18 * 60_000), status(100, 10, 0));
    assert_eq!(project_status(stored, 60_000, 60_000 + 30 * 60_000), status(160, 0, 0));
}

#[test]
fn projection_at_the_edge_of_32_bits() {
    let current = project_status(status(0, u32::MAX, 7), 1, 1 + 858_993_458 * 60_000 + 59_999);
    assert_eq!(current, status(4_294_967_290, 5, 0));
    let current = project_status(status(0, u32::MAX, 7), 1, 1 + 858_993_459 * 60_000);
    assert_eq!(current, status(u32::MAX, 0, 0));
    let current = project_status(status(5, 3, 7), 1, 1 + 858_993_458 * 60_000);
    assert_eq!(current, status(u32::MAX, 0, 0));
}

#[test]
fn decay_is_monotonic() {
    let stored = status(3, 40, 12);
    let mut before = project_status(stored, 1_000, 1_000);
    let mut now: u64 = 1_000;
    while now < 1_000 + 12 * 60_000 {
        now += 7_001;
        let current = project_status(stored, 1_000, now);
        assert!(current.hungry >= before.hungry);
        assert!(current.health <= before.health);
        assert!(current.happy <= before.happy);
        before = current;
    }
    assert_eq!(before, status(63, 0, 0));
}

#[test]
fn nourishing_adds_and_floors_hunger() {
    assert_eq!(nourish(status(50, 10, 20), 30), status(20, 40, 50));
    assert_eq!(nourish(status(30, 10, 20), 30), status(0, 40, 50));
    assert_eq!(nourish(status(29, 0, 0), 30), status(0, 30, 30));
    assert_eq!(nourish(status(0, 5, 6), 0), status(0, 5, 6));
}

#[test]
fn meal_outcomes_by_number() {
    let stored = status(60, 10, 20);
    assert_eq!(serve(0, stored), status(30, 40, 50));
    assert_eq!(serve(24, stored), status(30, 40, 50));
    assert_eq!(serve(25, stored), status(0, 100, 100));
    assert_eq!(serve(49, stored), status(0, 100, 100));
    assert_eq!(serve(50, stored), status(10, 60, 70));
    assert_eq!(serve(74, stored), status(10, 60, 70));
    assert_eq!(serve(75, stored), status(80, 0, 0));
    assert_eq!(serve(100, stored), status(80, 0, 0));
}

#[test]
fn totals_and_tiers() {
    assert_eq!(total_of(status(25, 85, 85)), 145);
    assert_eq!(total_of(status(200, 85, 85)), 0);
    assert_eq!(total_of(status(170, 85, 85)), 0);
    assert_eq!(total_of(status(0, u32::MAX, 0)), u32::MAX);
    assert_eq!(tier_of(status(0, 0, 0)), 0);
    assert_eq!(tier_of(status(1, 50, 50)), 0);
    assert_eq!(tier_of(status(0, 50, 50)), 1);
    assert_eq!(tier_of(status(1, 100, 100)), 1);
    assert_eq!(tier_of(status(0, 100, 100)), 2);
    assert_eq!(tier_of(status(0, u32::MAX, u32::MAX)), 2);
    assert_eq!(tier_of(status(u32::MAX, 0, 0)), 0);
}

#[test]
fn stored_status_of_a_token() {
    let mut data = MultiAssetData::new();
    assert_eq!(data.get_status(pet()), None);
    assert_eq!(data.set_status(None, pet(), 1, 2, 3), Err(RmrkError::TokenNotExists));
    assert_eq!(data.get_status(pet()), None);
    assert_eq!(data.set_status(Some(alice()), pet(), 1, 2, 3), Ok(()));
    assert_eq!(data.get_status(pet()), Some(status(1, 2, 3)));
    assert_eq!(data.get_status(Id::U32(1)), None);
    assert_eq!(data.set_full_status(Some(alice()), pet()), Ok(()));
    assert_eq!(data.get_status(pet()), Some(status(0, 100, 100)));
    assert_eq!(data.set_death_status(Some(bob()), pet()), Ok(()));
    assert_eq!(data.get_status(pet()), Some(status(80, 0, 0)));
    assert_eq!(data.set_full_status(None, pet()), Err(RmrkError::TokenNotExists));
    assert_eq!(data.set_death_status(None, Id::U8(3)), Err(RmrkError::TokenNotExists));
    assert_eq!(data.get_status(pet()), Some(status(80, 0, 0)));
}

#[test]
fn current_status_is_zero_until_the_first_meal() {
    let mut data = MultiAssetData::new();
    assert_eq!(data.get_current_status(1_000_000, pet()), Some(status(0, 0, 0)));
    assert_eq!(data.set_status(Some(alice()), pet(), 10, 100, 100), Ok(()));
    assert_eq!(data.get_current_status(1_000_000, pet()), Some(status(0, 0, 0)));
    assert_eq!(data.get_total_status(1_000_000, pet()), 0);
    assert_eq!(data.get_condition(1_000_000, pet()), 0);
}

#[test]
fn current_status_ages_the_stored_one() {
    let mut data = MultiAssetData::new();
    assert_eq!(data.set_status(Some(alice()), pet(), 10, 100, 100), Ok(()));
    assert_eq!(data.set_last_eaten(pet(), 60_000), Ok(()));
    assert_eq!(data.get_last_eaten(pet()), 60_000);
    assert_eq!(data.get_last_eaten(Id::U64(2)), 0);
    assert_eq!(data.get_current_status(60_000, pet()), Some(status(10, 100, 100)));
    assert_eq!(data.get_current_status(299_999, pet()), Some(status(25, 85, 85)));
    assert_eq!(data.get_total_status(299_999, pet()), 145);
    assert_eq!(data.get_condition(299_999, pet()), 1);
    assert_eq!(data.get_condition(60_000, pet()), 1);
    assert_eq!(data.get_total_status(60_000, pet()), 190);
    assert_eq!(data.get_current_status(60_000 + 30 * 60_000, pet()), Some(status(160, 0, 0)));
    assert_eq!(data.get_total_status(60_000 + 30 * 60_000, pet()), 0);
    assert_eq!(data.get_status(pet()), Some(status(10, 100, 100)));
}

#[test]
fn last_meal_without_a_stored_status_ages_zero() {
    let mut data = MultiAssetData::new();
    assert_eq!(data.set_last_eaten(pet(), 1), Ok(()));
    assert_eq!(data.get_current_status(1 + 2 * 60_000, pet()), Some(status(10, 0, 0)));
}

#[test]
fn condition_picks_the_address() {
    let mut data = MultiAssetData::new();
    assert_eq!(data.set_bad_uri(true, b"bad".to_vec()), Ok(()));
    assert_eq!(data.set_normal_uri(true, b"normal".to_vec()), Ok(()));
    assert_eq!(data.set_good_uri(true, b"good".to_vec()), Ok(()));
    assert_eq!(data.set_last_eaten(pet(), 1_000), Ok(()));

    assert_eq!(data.set_status(Some(alice()), pet(), 1, 50, 50), Ok(()));
    assert_eq!(data.get_condition(1_000, pet()), 0);
    assert_eq!(data.get_condition_url(1_000, pet()), b"bad".to_vec());

    assert_eq!(data.set_status(Some(alice()), pet(), 0, 50, 50), Ok(()));
    assert_eq!(data.get_condition(1_000, pet()), 1);
    assert_eq!(data.get_condition_url(1_000, pet()), b"normal".to_vec());

    assert_eq!(data.set_status(Some(alice()), pet(), 1, 100, 100), Ok(()));
    assert_eq!(data.get_condition(1_000, pet()), 1);

    assert_eq!(data.set_status(Some(alice()), pet(), 0, 100, 100), Ok(()));
    assert_eq!(data.get_condition(1_000, pet()), 2);
    assert_eq!(data.get_condition_url(1_000, pet()), b"good".to_vec());
    assert_eq!(data.get_condition_url(61_000, pet()), b"normal".to_vec());
}

#[test]
fn condition_of_a_status_whose_total_exceeds_32_bits() {
    let mut data = MultiAssetData::new();
    assert_eq!(data.set_last_eaten(pet(), 1_000), Ok(()));
    assert_eq!(data.set_status(Some(alice()), pet(), 0, u32::MAX, u32::MAX), Ok(()));
    assert_eq!(data.get_condition(1_000, pet()), 2);
}

#[test]
fn addresses_need_the_role() {
    let mut data = MultiAssetData::new();
    assert_eq!(data.set_normal_uri(true, b"n".to_vec()), Ok(()));
    assert_eq!(data.set_normal_uri(false, b"x".to_vec()), Err(RmrkError::MissingRole));
    assert_eq!(data.set_good_uri(false, b"x".to_vec()), Err(RmrkError::MissingRole));
    assert_eq!(data.set_bad_uri(false, b"x".to_vec()), Err(RmrkError::MissingRole));
    assert_eq!(data.get_normal_uri(), b"n".to_vec());
    assert_eq!(data.get_good_uri(), Vec::<u8>::new());
    assert_eq!(data.get_bad_uri(), Vec::<u8>::new());
    assert_eq!(data.set_good_uri(true, b"g".to_vec()), Ok(()));
    assert_eq!(data.set_bad_uri(true, b"b".to_vec()), Ok(()));
    assert_eq!(data.get_normal_uri(), b"n".to_vec());
    assert_eq!(data.get_good_uri(), b"g".to_vec());
    assert_eq!(data.get_bad_uri(), b"b".to_vec());
}

#[test]
fn defaults() {
    let mut data = MultiAssetData::new();
    assert_eq!(data.set_default(false, alice()), Err(RmrkError::MissingRole));
    assert_eq!(data.get_bad_uri(), Vec::<u8>::new());
    assert_eq!(data.get_your_apple(alice()), 0);
    assert_eq!(data.get_your_money(alice()), 0);

    assert_eq!(data.set_default(true, alice()), Ok(()));
    assert_eq!(
        data.get_bad_uri(),
        b"ipfs://QmYJhYes1kzp2soWYEYKzvA84V8YivL8BCpsnN773xyufr/".to_vec()
    );
    assert_eq!(
        data.get_normal_uri(),
        b"ipfs://QmXtnr9aEJVywiLs1keZdyiKbQwignZT3FhwKYivF15oZp/".to_vec()
    );
    assert_eq!(
        data.get_good_uri(),
        b"ipfs://QmZAdpKf4zr9x2vX26gU6LkG8gtj44GhoGMbWJAa2HsVzt/".to_vec()
    );
    assert_eq!(data.get_your_apple(alice()), 10);
    assert_eq!(data.get_your_money(alice()), 500);
    assert_eq!(data.get_your_apple(bob()), 0);
}

#[test]
fn change_some_status_feeds_the_current_condition() {
    let mut data = MultiAssetData::new();
    assert_eq!(data.set_status(Some(alice()), pet(), 40, 100, 100), Ok(()));
    assert_eq!(data.set_last_eaten(pet(), 1_000), Ok(()));
    assert_eq!(data.change_some_status(1_000 + 2 * 60_000, pet(), 15), Ok(()));
    assert_eq!(data.get_status(pet()), Some(status(35, 105, 105)));
    assert_eq!(data.get_last_eaten(pet()), 1_000);
    assert_eq!(data.add_twenty(1_000, pet()), Ok(()));
    assert_eq!(data.get_status(pet()), Some(status(15, 125, 125)));
    assert_eq!(data.set_lucky_status(1_000, pet()), Ok(()));
    assert_eq!(data.get_status(pet()), Some(status(0, 175, 175)));
}

#[test]
fn change_some_status_of_a_pet_that_never_ate_starts_from_zero() {
    let mut data = MultiAssetData::new();
    assert_eq!(data.set_status(Some(alice()), pet(), 40, 100, 100), Ok(()));
    assert_eq!(data.add_twenty(5_000, pet()), Ok(()));
    assert_eq!(data.get_status(pet()), Some(status(0, 20, 20)));
}

fn fed_at(now: u64) -> MultiAssetData {
    let mut data = MultiAssetData::new();
    assert_eq!(data.set_your_apple(alice(), 3), Ok(()));
    assert_eq!(data.set_status(Some(alice()), pet(), 60, 10, 20), Ok(()));
    assert_eq!(data.eat_an_apple(now, pet(), alice()), Ok(()));
    assert_eq!(data.get_last_eaten(pet()), now);
    assert_eq!(data.get_your_apple(alice()), 2);
    data
}

#[test]
fn meal_with_a_low_number_is_worth_thirty() {
    let data = fed_at(500_000);
    assert_eq!(data.get_status(pet()), Some(status(30, 40, 50)));
}

#[test]
fn meal_with_a_number_in_the_second_quarter_resets() {
    let data = fed_at(700_000);
    assert_eq!(data.get_status(pet()), Some(status(0, 100, 100)));
}

#[test]
fn meal_with_a_number_in_the_third_quarter_is_worth_fifty() {
    let data = fed_at(400_000);
    assert_eq!(data.get_status(pet()), Some(status(10, 60, 70)));
}

#[test]
fn meal_with_a_high_number_kills() {
    let data = fed_at(1_000_000);
    assert_eq!(data.get_status(pet()), Some(status(80, 0, 0)));
    let data = fed_at(900_000);
    assert_eq!(data.get_status(pet()), Some(status(80, 0, 0)));
}

#[test]
fn meal_overwrites_the_stored_status_not_the_decayed_one() {
    let mut data = MultiAssetData::new();
    assert_eq!(data.set_your_apple(alice(), 1), Ok(()));
    assert_eq!(data.set_status(Some(alice()), pet(), 60, 10, 20), Ok(()));
    assert_eq!(data.set_last_eaten(pet(), 1_000), Ok(()));
    assert_eq!(data.get_current_status(500_000, pet()), Some(status(100, 0, 0)));
    assert_eq!(data.eat_an_apple(500_000, pet(), alice()), Ok(()));
    assert_eq!(data.get_status(pet()), Some(status(30, 40, 50)));
    assert_eq!(data.get_current_status(500_000, pet()), Some(status(30, 40, 50)));
}

#[test]
fn feeding_twice_within_five_minutes_is_refused() {
    let mut data = fed_at(500_000);
    assert_eq!(data.eat_an_apple(500_000, pet(), alice()), Err(RmrkError::TimeHasNotPassed));
    assert_eq!(data.eat_an_apple(600_000, pet(), alice()), Err(RmrkError::TimeHasNotPassed));
    assert_eq!(data.eat_an_apple(800_000, pet(), bob()), Err(RmrkError::TimeHasNotPassed));
    assert_eq!(data.get_last_eaten(pet()), 500_000);
    assert_eq!(data.get_your_apple(alice()), 2);
    assert_eq!(data.get_status(pet()), Some(status(30, 40, 50)));

    assert_eq!(data.eat_an_apple(800_001, pet(), alice()), Ok(()));
    assert_eq!(data.get_last_eaten(pet()), 800_001);
    assert_eq!(data.get_your_apple(alice()), 1);
    assert_eq!(data.get_status(pet()), Some(status(0, 100, 100)));
}

#[test]
fn feeding_needs_a_fruit() {
    let mut data = MultiAssetData::new();
    assert_eq!(data.set_status(Some(alice()), pet(), 60, 10, 20), Ok(()));
    assert_eq!(data.eat_an_apple(500_000, pet(), alice()), Err(RmrkError::NotEnoughApple));
    assert_eq!(data.get_last_eaten(pet()), 0);
    assert_eq!(data.get_status(pet()), Some(status(60, 10, 20)));
    assert_eq!(data.set_your_apple(alice(), 1), Ok(()));
    assert_eq!(data.eat_an_apple(500_000, pet(), alice()), Ok(()));
    assert_eq!(data.get_status(pet()), Some(status(30, 40, 50)));
    assert_eq!(data.get_your_apple(alice()), 0);
}

#[test]
fn cooldown_is_checked_before_the_fruit() {
    let mut data = MultiAssetData::new();
    assert_eq!(data.eat_an_apple(300_000, pet(), alice()), Err(RmrkError::TimeHasNotPassed));
    assert_eq!(data.eat_an_apple(300_001, pet(), alice()), Err(RmrkError::NotEnoughApple));
}

#[test]
fn each_pet_has_its_own_cooldown() {
    let mut data = fed_at(500_000);
    assert_eq!(data.eat_an_apple(500_000, Id::U64(2), alice()), Ok(()));
    assert_eq!(data.get_your_apple(alice()), 1);
    assert_eq!(data.get_last_eaten(Id::U64(2)), 500_000);
    assert_eq!(data.get_status(Id::U64(2)), Some(status(80, 0, 0)));
}

#[test]
fn feeding_a_pet_without_a_stored_status() {
    let mut data = MultiAssetData::new();
    assert_eq!(data.set_your_apple(alice(), 1), Ok(()));
    assert_eq!(data.eat_an_apple(400_000, pet(), alice()), Ok(()));
    assert_eq!(data.get_status(pet()), Some(status(0, 50, 50)));
}

#[test]
fn outcome_fits_by_the_number_drawn() {
    assert!(can_serve(24, status(0, u32::MAX - 30, 0)));
    assert!(!can_serve(24, status(0, u32::MAX - 29, 0)));
    assert!(!can_serve(0, status(0, 0, u32::MAX - 29)));
    assert!(can_serve(25, status(0, u32::MAX, u32::MAX)));
    assert!(can_serve(49, status(0, u32::MAX, u32::MAX)));
    assert!(can_serve(50, status(0, u32::MAX - 50, 0)));
    assert!(!can_serve(50, status(0, u32::MAX - 49, 0)));
    assert!(!can_serve(74, status(0, 0, u32::MAX - 49)));
    assert!(can_serve(75, status(0, u32::MAX, u32::MAX)));
    assert!(can_serve(100, status(0, u32::MAX, u32::MAX)));
}

#[test]
fn a_meal_out_of_bounds_is_not_served() {
    let mut data = MultiAssetData::new();
    assert_eq!(data.set_your_apple(alice(), 3), Ok(()));
    assert_eq!(data.set_status(Some(alice()), pet(), 60, u32::MAX - 40, 20), Ok(()));

    assert!(!data.can_eat_an_apple(400_000, &pet(), alice()));
    assert_eq!(data.try_eat_an_apple(400_000, pet(), alice()), None);
    assert_eq!(data.get_your_apple(alice()), 3);
    assert_eq!(data.get_last_eaten(pet()), 0);
    assert_eq!(data.salt(), 0);
    assert_eq!(data.get_status(pet()), Some(status(60, u32::MAX - 40, 20)));

    assert!(data.can_eat_an_apple(500_000, &pet(), alice()));
    assert_eq!(data.try_eat_an_apple(500_000, pet(), alice()), Some(Ok(())));
    assert_eq!(data.get_status(pet()), Some(status(30, u32::MAX - 10, 50)));
    assert_eq!(data.get_your_apple(alice()), 2);
    assert_eq!(data.salt(), 1);

    assert!(data.can_eat_an_apple(500_001, &pet(), alice()));
    assert_eq!(
        data.try_eat_an_apple(500_001, pet(), alice()),
        Some(Err(RmrkError::TimeHasNotPassed))
    );
    assert!(!data.can_eat_an_apple(499_999, &pet(), alice()));
    assert_eq!(data.try_eat_an_apple(499_999, pet(), alice()), None);
    assert_eq!(data.get_your_apple(alice()), 2);
    assert_eq!(data.salt(), 1);
}

#[test]
fn a_meal_that_resets_is_served_whatever_is_stored() {
    let mut data = MultiAssetData::new();
    assert_eq!(data.set_your_apple(alice(), 1), Ok(()));
    assert_eq!(data.set_status(Some(alice()), pet(), 0, u32::MAX, u32::MAX), Ok(()));
    assert!(data.can_eat_an_apple(700_000, &pet(), alice()));
    assert_eq!(data.try_eat_an_apple(700_000, pet(), alice()), Some(Ok(())));
    assert_eq!(data.get_status(pet()), Some(status(0, 100, 100)));
    assert!(data.can_eat_an_apple(1_100_000, &pet(), alice()));
    assert_eq!(
        data.try_eat_an_apple(1_100_000, pet(), alice()),
        Some(Err(RmrkError::NotEnoughApple))
    );
}
