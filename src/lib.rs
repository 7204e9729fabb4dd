//! A covered call option held in escrow: a creator locks collateral that the
//! current owner may buy for a counter-offer before an expiry height; after
//! expiry anyone may return the collateral to the creator.

pub mod coin;
pub mod error;
pub mod msg;
pub mod state;
pub mod contract;
pub mod laws;
