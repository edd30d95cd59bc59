//! Verified accounting core of an escrow with proportional redemption.
//!
//! A minter locks a reward across a fixed number of escrow wallets; holders
//! burn the main token to redeem a pro-rata share of what is left; after the
//! expiry the minter takes back what nobody claimed.

pub mod allocator;
pub mod error;
pub mod events;
pub mod instructions;
pub mod ledger;
pub mod lifecycle;
pub mod state;
