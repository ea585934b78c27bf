use crowdsale_vesting::custody::TransferRequest;
use crowdsale_vesting::errors::SaleError;
use crowdsale_vesting::execute_sale::execute_sale;
use crowdsale_vesting::initialize::initialize;
use crowdsale_vesting::state::{ReleaseSchedule, Sale};

const AUTHORITY: u64 = 1;
const SALE_KEY: u64 = 2;
const USER: u64 = 3;
const USER_SALE_TOKEN: u64 = 4;
const VESTING_TOKEN: u64 = 5;
const VESTING_AUTHORITY: u64 = 6;
const SALE_MINT: u64 = 7;
const SALE_TOKEN: u64 = 8;
const PAYMENT: u64 = 9;
const DERIVED: u64 = 11;

fn active_sale(
    numerator: u64,
    denominator: u64,
    minimum: u64,
    advance_fraction: u16,
    vesting_only: bool,
    schedule: Vec<ReleaseSchedule>,
) -> Sale {
    let mut sale = initialize(
        AUTHORITY,
        numerator,
        denominator,
        minimum,
        advance_fraction,
        vesting_only,
        schedule,
        SALE_MINT,
        SALE_TOKEN,
        PAYMENT,
        DERIVED,
    )
    .unwrap();
    sale.is_active = true;
    sale
}

fn example_sale() -> Sale {
    active_sale(
        3,
        2,
        100,
        2000,
        false,
        vec![
            ReleaseSchedule { release_time: 1000, fraction: 4000 },
            ReleaseSchedule { release_time: 2000, fraction: 4000 },
        ],
    )
}

#[test]
fn purchase_splits_payment_into_advance_and_tranches() {
    let sale = example_sale();
    let outcome = execute_sale(
        &sale, SALE_KEY, USER, USER_SALE_TOKEN, &None, VESTING_TOKEN, VESTING_AUTHORITY, 1000,
    )
    .unwrap();
    assert_eq!(outcome.purchased, 1500);
    assert_eq!(outcome.advance, 300);
    assert_eq!(outcome.remaining_total, 1200);
    assert_eq!(
        outcome.payment_transfer,
        Some(TransferRequest { source: USER, destination: PAYMENT, authority: USER, amount: 1000 })
    );
    assert_eq!(
        outcome.advance_transfer,
        Some(TransferRequest {
            source: SALE_TOKEN,
            destination: USER_SALE_TOKEN,
            authority: DERIVED,
            amount: 300,
        })
    );
    assert_eq!(
        outcome.vesting_transfer,
        TransferRequest {
            source: SALE_TOKEN,
            destination: VESTING_TOKEN,
            authority: DERIVED,
            amount: 1200,
        }
    );
    let v = &outcome.vesting;
    assert_eq!(v.user, USER);
    assert_eq!(v.sale_mint, SALE_MINT);
    assert_eq!(v.first_sale, SALE_KEY);
    assert_eq!(v.total_amount, 1200);
    assert_eq!(v.vesting_token, VESTING_TOKEN);
    assert_eq!(v.derived_authority, VESTING_AUTHORITY);
    assert_eq!(v.schedule.len(), 2);
    assert_eq!(v.schedule[0].release_time, 1000);
    assert_eq!(v.schedule[0].amount, 600);
    assert_eq!(v.schedule[1].release_time, 2000);
    assert_eq!(v.schedule[1].amount, 600);
}

#[test]
fn second_purchase_tops_up_the_same_position() {
    let sale = example_sale();
    let first = execute_sale(
        &sale, SALE_KEY, USER, USER_SALE_TOKEN, &None, VESTING_TOKEN, VESTING_AUTHORITY, 1000,
    )
    .unwrap();
    let existing = Some(first.vesting);
    let second = execute_sale(
        &sale, SALE_KEY, USER, USER_SALE_TOKEN, &existing, 99, 99, 500,
    )
    .unwrap();
    assert_eq!(second.purchased, 750);
    assert_eq!(second.remaining_total, 600);
    assert_eq!(second.advance, 150);
    let v = &second.vesting;
    assert_eq!(v.total_amount, 1800);
    assert_eq!(v.schedule[0].amount, 900);
    assert_eq!(v.schedule[1].amount, 900);
    // The merged position keeps its own custody identities, not the ones
    // offered for a fresh record.
    assert_eq!(v.vesting_token, VESTING_TOKEN);
    assert_eq!(v.derived_authority, VESTING_AUTHORITY);
    assert_eq!(v.first_sale, SALE_KEY);
}

#[test]
fn advance_absorbs_every_rounding_remainder() {
    let sale = active_sale(
        1,
        3,
        1,
        0,
        false,
        vec![
            ReleaseSchedule { release_time: 10, fraction: 3333 },
            ReleaseSchedule { release_time: 20, fraction: 3333 },
            ReleaseSchedule { release_time: 30, fraction: 3334 },
        ],
    );
    let outcome = execute_sale(
        &sale, SALE_KEY, USER, USER_SALE_TOKEN, &None, VESTING_TOKEN, VESTING_AUTHORITY, 100,
    )
    .unwrap();
    assert_eq!(outcome.purchased, 33);
    assert_eq!(outcome.vesting.schedule[0].amount, 10);
    assert_eq!(outcome.vesting.schedule[1].amount, 10);
    assert_eq!(outcome.vesting.schedule[2].amount, 11);
    assert_eq!(outcome.remaining_total, 31);
    assert_eq!(outcome.advance, 2);
    assert_eq!(outcome.advance + outcome.remaining_total, outcome.purchased);
}

#[test]
fn purchase_requires_an_active_sale() {
    let mut sale = example_sale();
    sale.is_active = false;
    let r = execute_sale(
        &sale, SALE_KEY, USER, USER_SALE_TOKEN, &None, VESTING_TOKEN, VESTING_AUTHORITY, 1000,
    );
    assert_eq!(r.unwrap_err(), SaleError::SaleNotActive);
}

#[test]
fn purchase_requires_the_minimum_payment() {
    let sale = example_sale();
    let r = execute_sale(
        &sale, SALE_KEY, USER, USER_SALE_TOKEN, &None, VESTING_TOKEN, VESTING_AUTHORITY, 99,
    );
    assert_eq!(r.unwrap_err(), SaleError::AmountMinimum);
}

#[test]
fn purchase_fails_when_the_price_overflows() {
    let sale = active_sale(
        2,
        1,
        1,
        10000,
        false,
        Vec::new(),
    );
    let r = execute_sale(
        &sale, SALE_KEY, USER, USER_SALE_TOKEN, &None, VESTING_TOKEN, VESTING_AUTHORITY, u64::MAX,
    );
    assert_eq!(r.unwrap_err(), SaleError::CalculationOverflow);
}

#[test]
fn vesting_only_sale_skips_payment() {
    let sale = active_sale(
        3,
        2,
        1,
        2000,
        true,
        vec![
            ReleaseSchedule { release_time: 1000, fraction: 4000 },
            ReleaseSchedule { release_time: 2000, fraction: 4000 },
        ],
    );
    let outcome = execute_sale(
        &sale, SALE_KEY, USER, USER_SALE_TOKEN, &None, VESTING_TOKEN, VESTING_AUTHORITY, 1000,
    )
    .unwrap();
    assert_eq!(outcome.purchased, 1000);
    assert_eq!(outcome.payment_transfer, None);
    assert_eq!(outcome.advance, 200);
    assert_eq!(outcome.remaining_total, 800);
}

#[test]
fn zero_advance_skips_the_advance_transfer() {
    let sale = active_sale(
        1,
        1,
        1,
        0,
        false,
        vec![
            ReleaseSchedule { release_time: 10, fraction: 5000 },
            ReleaseSchedule { release_time: 20, fraction: 5000 },
        ],
    );
    let outcome = execute_sale(
        &sale, SALE_KEY, USER, USER_SALE_TOKEN, &None, VESTING_TOKEN, VESTING_AUTHORITY, 1000,
    )
    .unwrap();
    assert_eq!(outcome.advance, 0);
    assert_eq!(outcome.advance_transfer, None);
    assert_eq!(outcome.remaining_total, 1000);
}

#[test]
fn merge_rejects_a_schedule_of_different_length() {
    let sale = example_sale();
    let first = execute_sale(
        &sale, SALE_KEY, USER, USER_SALE_TOKEN, &None, VESTING_TOKEN, VESTING_AUTHORITY, 1000,
    )
    .unwrap();
    let longer = active_sale(
        3,
        2,
        100,
        2000,
        false,
        vec![
            ReleaseSchedule { release_time: 1000, fraction: 3000 },
            ReleaseSchedule { release_time: 2000, fraction: 3000 },
            ReleaseSchedule { release_time: 3000, fraction: 2000 },
        ],
    );
    let existing = Some(first.vesting);
    let r = execute_sale(
        &longer, SALE_KEY, USER, USER_SALE_TOKEN, &existing, VESTING_TOKEN, VESTING_AUTHORITY,
        1000,
    );
    assert_eq!(r.unwrap_err(), SaleError::IncompatibleVesting);
    // The failed merge left the position exactly as it was.
    let v = existing.unwrap();
    assert_eq!(v.total_amount, 1200);
    assert_eq!(v.schedule[0].amount, 600);
    assert_eq!(v.schedule[1].amount, 600);
}

#[test]
fn merge_rejects_a_mismatched_release_time() {
    let sale = example_sale();
    let first = execute_sale(
        &sale, SALE_KEY, USER, USER_SALE_TOKEN, &None, VESTING_TOKEN, VESTING_AUTHORITY, 1000,
    )
    .unwrap();
    let shifted = active_sale(
        3,
        2,
        100,
        2000,
        false,
        vec![
            ReleaseSchedule { release_time: 1000, fraction: 4000 },
            ReleaseSchedule { release_time: 2001, fraction: 4000 },
        ],
    );
    let existing = Some(first.vesting);
    let r = execute_sale(
        &shifted, SALE_KEY, USER, USER_SALE_TOKEN, &existing, VESTING_TOKEN, VESTING_AUTHORITY,
        1000,
    );
    assert_eq!(r.unwrap_err(), SaleError::IncompatibleVesting);
    let v = existing.unwrap();
    assert_eq!(v.total_amount, 1200);
    assert_eq!(v.schedule[1].amount, 600);
}

#[test]
fn merge_rejects_another_buyer_or_mint() {
    let sale = example_sale();
    let first = execute_sale(
        &sale, SALE_KEY, USER, USER_SALE_TOKEN, &None, VESTING_TOKEN, VESTING_AUTHORITY, 1000,
    )
    .unwrap();
    let existing = Some(first.vesting);
    let other_user = execute_sale(
        &sale, SALE_KEY, USER + 1, USER_SALE_TOKEN, &existing, VESTING_TOKEN, VESTING_AUTHORITY,
        1000,
    );
    assert_eq!(other_user.unwrap_err(), SaleError::IncompatibleVesting);
    let mut other_mint_sale = example_sale();
    other_mint_sale.sale_mint = SALE_MINT + 1;
    let other_mint = execute_sale(
        &other_mint_sale, SALE_KEY, USER, USER_SALE_TOKEN, &existing, VESTING_TOKEN,
        VESTING_AUTHORITY, 1000,
    );
    assert_eq!(other_mint.unwrap_err(), SaleError::IncompatibleVesting);
}

#[test]
fn merge_fails_when_the_lifetime_total_would_overflow() {
    let sale = active_sale(
        1,
        1,
        1,
        0,
        false,
        vec![ReleaseSchedule { release_time: 10, fraction: 10000 }],
    );
    let first = execute_sale(
        &sale, SALE_KEY, USER, USER_SALE_TOKEN, &None, VESTING_TOKEN, VESTING_AUTHORITY, 1000,
    )
    .unwrap();
    let mut v = first.vesting;
    v.total_amount = u64::MAX;
    let existing = Some(v);
    let r = execute_sale(
        &sale, SALE_KEY, USER, USER_SALE_TOKEN, &existing, VESTING_TOKEN, VESTING_AUTHORITY, 1000,
    );
    assert_eq!(r.unwrap_err(), SaleError::CalculationOverflow);
}
