//! A token crowdsale with vesting.
//!
//! A seller configures a sale (price, minimum payment, release schedule);
//! buyers pay in and receive an immediate advance portion plus a vesting
//! position for the remainder, released in tranches over time. This crate
//! holds the bookkeeping engine: the pricing and rounding arithmetic that
//! converts a payment into token amounts, the schedule matching that lets a
//! buyer top up one running vesting position across purchases, and the
//! time-gated claim and close logic. Custody of balances is expressed through
//! transfer and close requests that a caller carries out; a reference
//! in-memory custody book is provided for tests and simulation.

pub mod authority;
pub mod claim;
pub mod close_vesting;
pub mod custody;
pub mod errors;
pub mod execute_sale;
pub mod fund;
pub mod init_vesting;
pub mod initialize;
pub mod pricing;
pub mod state;
pub mod withdraw;
