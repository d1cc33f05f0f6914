use risen_donations::errors::ErrorCode;
use risen_donations::pool::DONATION_KIND_CUSTOM;
use risen_donations::pool::DONATION_KIND_ONE_TAP;
use risen_donations::pool::ONE_TAP_AMOUNT;
use risen_donations::pool::Pool;
use risen_donations::pool::donate_to_pool;
use risen_donations::pool::initialize_pool;
use risen_donations::pool::one_tap_donate;
use risen_donations::pool::withdraw_from_pool;

fn fresh_pool(authority: u64) -> Pool {
    initialize_pool(
        authority,
        String::from("clean water"),
        String::from("wells for the village"),
        String::from("~"),
        2,
    )
    .unwrap()
}

#[test]
fn initialize_pool_starts_empty_and_active() {
    let pool = fresh_pool(11);
    assert_eq!(pool.authority, 11);
    assert_eq!(pool.name, "clean water");
    assert_eq!(pool.description, "wells for the village");
    assert_eq!(pool.emoji, "~");
    assert_eq!(pool.pool_type, 2);
    assert_eq!(pool.total_donated, 0);
    assert_eq!(pool.donor_count, 0);
    assert!(pool.is_active);
}

#[test]
fn initialize_pool_rejects_long_name() {
    let long_name: String = "n".repeat(51);
    let r = initialize_pool(11, long_name, String::new(), String::new(), 0);
    assert_eq!(r, Err(ErrorCode::DescriptionTooLong));
}

#[test]
fn initialize_pool_rejects_long_description() {
    let long_description: String = "d".repeat(201);
    let r = initialize_pool(11, String::from("p"), long_description, String::new(), 0);
    assert_eq!(r, Err(ErrorCode::DescriptionTooLong));
}

#[test]
fn initialize_pool_rejects_long_emoji() {
    let long_emoji: String = "e".repeat(11);
    let r = initialize_pool(11, String::from("p"), String::new(), long_emoji, 0);
    assert_eq!(r, Err(ErrorCode::DescriptionTooLong));
}

#[test]
fn initialize_pool_accepts_bounds_exactly() {
    let r = initialize_pool(11, "n".repeat(50), "d".repeat(200), "e".repeat(10), 0);
    assert!(r.is_ok());
}

#[test]
fn donate_zero_fails_without_mutation() {
    let mut pool = fresh_pool(11);
    let mut vault: u64 = 7;
    let mut donor_funds: u64 = 100;
    let r = donate_to_pool(&mut pool, 10, &mut vault, 55, &mut donor_funds, 0, 123);
    assert_eq!(r, Err(ErrorCode::InvalidAmount));
    assert_eq!(pool.total_donated, 0);
    assert_eq!(pool.donor_count, 0);
    assert_eq!(vault, 7);
    assert_eq!(donor_funds, 100);
}

#[test]
fn donate_fails_when_donor_cannot_cover() {
    let mut pool = fresh_pool(11);
    let mut vault: u64 = 0;
    let mut donor_funds: u64 = 99;
    let r = donate_to_pool(&mut pool, 10, &mut vault, 55, &mut donor_funds, 100, 123);
    assert_eq!(r, Err(ErrorCode::InsufficientFunds));
    assert_eq!(pool.total_donated, 0);
    assert_eq!(pool.donor_count, 0);
    assert_eq!(vault, 0);
    assert_eq!(donor_funds, 99);
}

#[test]
fn donate_moves_value_and_records_receipt() {
    let mut pool = fresh_pool(11);
    let mut vault: u64 = 0;
    let mut donor_funds: u64 = 1_000;
    let (record, event) =
        donate_to_pool(&mut pool, 10, &mut vault, 55, &mut donor_funds, 400, 123).unwrap();
    assert_eq!(pool.total_donated, 400);
    assert_eq!(pool.donor_count, 1);
    assert_eq!(vault, 400);
    assert_eq!(donor_funds, 600);
    assert_eq!(record.donor, 55);
    assert_eq!(record.pool, 10);
    assert_eq!(record.amount, 400);
    assert_eq!(record.timestamp, 123);
    assert_eq!(record.donation_type, DONATION_KIND_CUSTOM);
    assert_eq!(event.donor, 55);
    assert_eq!(event.pool, 10);
    assert_eq!(event.amount, 400);
    assert_eq!(event.donation_type, DONATION_KIND_CUSTOM);
}

#[test]
fn two_one_tap_donations_accumulate() {
    let mut pool = fresh_pool(11);
    let mut vault: u64 = 0;
    let mut first_funds: u64 = 1_500_000;
    let mut second_funds: u64 = 3_000_000;
    let (record, _) = one_tap_donate(&mut pool, 10, &mut vault, 55, &mut first_funds, 123).unwrap();
    assert_eq!(record.amount, ONE_TAP_AMOUNT);
    assert_eq!(record.donation_type, DONATION_KIND_ONE_TAP);
    one_tap_donate(&mut pool, 10, &mut vault, 56, &mut second_funds, 124).unwrap();
    assert_eq!(pool.total_donated, 2_000_000);
    assert_eq!(pool.donor_count, 2);
    assert_eq!(vault, 2_000_000);
    assert_eq!(first_funds, 500_000);
    assert_eq!(second_funds, 2_000_000);
}

#[test]
fn withdraw_zero_fails() {
    let pool = fresh_pool(11);
    let mut vault: u64 = 50;
    let r = withdraw_from_pool(&pool, 10, &mut vault, 11, 77, 0);
    assert_eq!(r, Err(ErrorCode::InvalidAmount));
    assert_eq!(vault, 50);
}

#[test]
fn withdraw_fails_when_vault_cannot_cover() {
    let pool = fresh_pool(11);
    let mut vault: u64 = 50;
    let r = withdraw_from_pool(&pool, 10, &mut vault, 11, 77, 51);
    assert_eq!(r, Err(ErrorCode::InsufficientFunds));
    assert_eq!(vault, 50);
}

#[test]
fn withdraw_drains_vault_not_lifetime_counter() {
    let mut pool = fresh_pool(11);
    let mut vault: u64 = 0;
    let mut donor_funds: u64 = 500;
    donate_to_pool(&mut pool, 10, &mut vault, 55, &mut donor_funds, 500, 1).unwrap();
    let event = withdraw_from_pool(&pool, 10, &mut vault, 11, 77, 200).unwrap();
    assert_eq!(vault, 300);
    assert_eq!(pool.total_donated, 500);
    assert_eq!(event.pool, 10);
    assert_eq!(event.recipient, 77);
    assert_eq!(event.amount, 200);
}
