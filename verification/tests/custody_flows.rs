use crowdsale_vesting::claim::claim;
use crowdsale_vesting::close_vesting::close_vesting;
use crowdsale_vesting::custody::{CustodyBook, TransferRequest};
use crowdsale_vesting::errors::SaleError;
use crowdsale_vesting::execute_sale::execute_sale;
use crowdsale_vesting::fund::fund;
use crowdsale_vesting::initialize::initialize;
use crowdsale_vesting::state::{ReleaseSchedule, Sale};
use crowdsale_vesting::withdraw::{withdraw, WITHDRAW_ALL};

const AUTHORITY: u64 = 1;
const SALE_KEY: u64 = 2;
const USER: u64 = 3;
const USER_SALE_TOKEN: u64 = 4;
const VESTING_TOKEN: u64 = 5;
const VESTING_AUTHORITY: u64 = 6;
const SALE_MINT: u64 = 7;
const SALE_TOKEN: u64 = 8;
const PAYMENT: u64 = 9;
const DERIVED: u64 = 11;
const USER_TOKEN: u64 = 12;
const SELLER_SOURCE: u64 = 13;
const SELLER_DEST: u64 = 14;

fn example_sale() -> Sale {
    let mut sale = initialize(
        AUTHORITY,
        3,
        2,
        100,
        2000,
        false,
        vec![
            ReleaseSchedule { release_time: 1000, fraction: 4000 },
            ReleaseSchedule { release_time: 2000, fraction: 4000 },
        ],
        SALE_MINT,
        SALE_TOKEN,
        PAYMENT,
        DERIVED,
    )
    .unwrap();
    sale.is_active = true;
    sale
}

#[test]
fn fund_directs_a_deposit_into_the_escrow() {
    let sale = example_sale();
    let t = fund(&sale, USER, SELLER_SOURCE, 500);
    assert_eq!(
        t,
        TransferRequest { source: SELLER_SOURCE, destination: SALE_TOKEN, authority: USER, amount: 500 }
    );
}

#[test]
fn withdraw_with_a_literal_amount() {
    let sale = example_sale();
    let t = withdraw(&sale, AUTHORITY, SELLER_DEST, 4321, 100);
    assert_eq!(
        t,
        TransferRequest { source: SALE_TOKEN, destination: SELLER_DEST, authority: DERIVED, amount: 100 }
    );
}

#[test]
fn withdraw_with_the_maximum_sentinel_drains_the_escrow() {
    let sale = example_sale();
    let mut book = CustodyBook::new();
    book.open_account(SALE_TOKEN, DERIVED);
    book.open_account(SELLER_DEST, AUTHORITY);
    book.mint(SALE_TOKEN, 4321);
    let t = withdraw(&sale, AUTHORITY, SELLER_DEST, book.balance_of(SALE_TOKEN), WITHDRAW_ALL);
    assert_eq!(t.amount, 4321);
    assert!(book.transfer(&t).is_ok());
    assert_eq!(book.balance_of(SALE_TOKEN), 0);
    assert_eq!(book.balance_of(SELLER_DEST), 4321);
}

#[test]
fn custody_transfer_refuses_an_overdraft() {
    let mut book = CustodyBook::new();
    book.open_account(SALE_TOKEN, DERIVED);
    book.open_account(SELLER_DEST, AUTHORITY);
    book.mint(SALE_TOKEN, 10);
    let t = TransferRequest { source: SALE_TOKEN, destination: SELLER_DEST, authority: DERIVED, amount: 11 };
    assert_eq!(book.transfer(&t).unwrap_err(), SaleError::InsufficientFunds);
    assert_eq!(book.balance_of(SALE_TOKEN), 10);
    assert_eq!(book.balance_of(SELLER_DEST), 0);
}

#[test]
fn custody_close_refuses_a_nonzero_balance() {
    let mut book = CustodyBook::new();
    book.open_account(VESTING_TOKEN, VESTING_AUTHORITY);
    book.mint(VESTING_TOKEN, 1);
    let v = {
        let sale = example_sale();
        execute_sale(&sale, SALE_KEY, USER, USER_SALE_TOKEN, &None, VESTING_TOKEN, VESTING_AUTHORITY, 1000)
            .unwrap()
            .vesting
    };
    let r = close_vesting(&v, book.balance_of(VESTING_TOKEN));
    assert_eq!(r.unwrap_err(), SaleError::NonZeroBalance);
}

#[test]
fn custody_book_keeps_a_funded_account_open() {
    let mut book = CustodyBook::new();
    book.open_account(VESTING_TOKEN, VESTING_AUTHORITY);
    book.mint(VESTING_TOKEN, 5);
    let c = crowdsale_vesting::custody::CloseRequest {
        account: VESTING_TOKEN,
        authority: VESTING_AUTHORITY,
        rent_destination: USER,
    };
    assert_eq!(book.close(&c).unwrap_err(), SaleError::NonZeroBalance);
    assert_eq!(book.balance_of(VESTING_TOKEN), 5);
}

#[test]
fn a_whole_sale_runs_to_a_closed_position() {
    let sale = example_sale();
    let mut book = CustodyBook::new();
    book.open_account(SALE_TOKEN, DERIVED);
    book.open_account(PAYMENT, PAYMENT);
    book.open_account(USER_SALE_TOKEN, USER);
    book.open_account(VESTING_TOKEN, VESTING_AUTHORITY);
    book.open_account(USER_TOKEN, USER);
    book.open_account(USER, USER);
    book.open_account(SELLER_SOURCE, AUTHORITY);
    book.mint(SELLER_SOURCE, 10000);
    book.mint(USER, 1000);

    // The seller stocks the escrow.
    let stock = fund(&sale, AUTHORITY, SELLER_SOURCE, 10000);
    assert!(book.transfer(&stock).is_ok());
    assert_eq!(book.balance_of(SALE_TOKEN), 10000);

    // A purchase: payment out, advance in, remainder vested.
    let outcome = execute_sale(
        &sale, SALE_KEY, USER, USER_SALE_TOKEN, &None, VESTING_TOKEN, VESTING_AUTHORITY, 1000,
    )
    .unwrap();
    assert!(book.transfer(&outcome.payment_transfer.unwrap()).is_ok());
    assert!(book.transfer(&outcome.advance_transfer.unwrap()).is_ok());
    assert!(book.transfer(&outcome.vesting_transfer).is_ok());
    assert_eq!(book.balance_of(PAYMENT), 1000);
    assert_eq!(book.balance_of(USER_SALE_TOKEN), 300);
    assert_eq!(book.balance_of(VESTING_TOKEN), 1200);
    assert_eq!(book.balance_of(SALE_TOKEN), 10000 - 1500);

    // Claim everything once both tranches have matured.
    let mut position = outcome.vesting;
    let t = claim(&mut position, USER_TOKEN, 2000).unwrap();
    assert_eq!(t.amount, 1200);
    assert!(book.transfer(&t).is_ok());
    assert_eq!(book.balance_of(USER_TOKEN), 1200);
    assert_eq!(book.balance_of(VESTING_TOKEN), 0);

    // Now, and only now, the position can be closed and its custody account
    // disappears from the book.
    let c = close_vesting(&position, book.balance_of(VESTING_TOKEN)).unwrap();
    assert!(book.close(&c).is_ok());
    assert!(book.accounts.iter().all(|a| a.id != VESTING_TOKEN));

    // The seller withdraws the unsold inventory with the sentinel.
    let rest = withdraw(&sale, AUTHORITY, SELLER_SOURCE, book.balance_of(SALE_TOKEN), WITHDRAW_ALL);
    assert_eq!(rest.amount, 8500);
    assert!(book.transfer(&rest).is_ok());
    assert_eq!(book.balance_of(SALE_TOKEN), 0);
    assert_eq!(book.balance_of(SELLER_SOURCE), 8500);
}
