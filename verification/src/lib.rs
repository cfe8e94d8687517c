//! Escrow-mediated rental-payment engine.
//!
//! A renter and an owner agree on a price and a rental window; the renter's
//! funds are held in escrow until the rental concludes, at which point the
//! escrowed amount is split between the owner and the platform, or returned
//! according to the cancellation and dispute-resolution rules.
//!
//! This crate is the verified core: the rental-transaction state machine and
//! its fund-distribution arithmetic. Moving real value between accounts,
//! reading the wall clock and delivering event notifications are the caller's
//! business; every transition here takes the current time as an argument and
//! reports the transfers it requires through the event value it returns.

pub mod errors;
pub mod events;
pub mod shares;
pub mod state;
pub mod transaction;
